//! What provisions a Join stage, in order: the arrangement of each side, the
//! continuation, and then their entries in the catalog.

use vstd::prelude::*;

use crate::execution::join::planner::InputSide;
use crate::execution::join::provision::{
    self, arrangement_name, create_continuation, state_body, state_index,
};
use crate::execution::provision::{
    self as stages, create_table, revoke_public, stage_message, Script, StepModel,
};

verus! {

/// What one arrangement is made of.
pub struct Arrangement<'a> {
    /// Its qualified relation.
    pub relation: &'a str,
    pub row_type: &'a str,
    /// The SQL types of its equality keys.
    pub key_types: &'a Vec<String>,
}

/// What a Join stage is made of.
pub struct JoinStage<'a> {
    pub result_oid: u32,
    pub stage_id: i32,
    pub left: Arrangement<'a>,
    pub right: Arrangement<'a>,
    /// The qualified continuation relation.
    pub continuation: &'a str,
}

/// How messages name a side.
pub open spec fn side_word(side: InputSide) -> Seq<char> {
    match side {
        InputSide::Left => "left"@,
        InputSide::Right => "right"@,
    }
}

/// A message about one part of a Join stage.
pub open spec fn part_text(head: Seq<char>, stage_id: i32, part: Seq<char>, tail: Seq<char>) -> Seq<
    char,
> {
    stages::stage_text(head, stage_id, " "@) + part + tail
}

fn part_message(head: &str, stage_id: i32, part: &str, tail: &str) -> (message: String)
    ensures
        message@ == part_text(head@, stage_id, part@, tail@),
{
    let mut message = stage_message(head, stage_id, " ");
    message.append(part);
    message.append(tail);
    message
}

impl<'a> JoinStage<'a> {
    pub open spec fn arrangement(self, side: InputSide) -> Arrangement<'a> {
        match side {
            InputSide::Left => self.left,
            InputSide::Right => self.right,
        }
    }

    /// The lookup index of an arrangement, where it has keys.
    pub open spec fn index(self, side: InputSide) -> Seq<StepModel> {
        if self.arrangement(side).key_types.len() == 0 {
            Seq::empty()
        } else {
            seq![
                StepModel::Run {
                    sql: provision::arrangement_key(
                        provision::state_name(side, self.result_oid, self.stage_id),
                        self.arrangement(side).relation@,
                        self.arrangement(side).key_types.len(),
                    ),
                    purpose: part_text(
                        "could not index Join stage "@,
                        self.stage_id,
                        side_word(side),
                        " arrangement"@,
                    ),
                },
            ]
        }
    }

    /// The arrangement of one side.
    pub open spec fn state(self, side: InputSide) -> Seq<StepModel> {
        seq![
            StepModel::Run {
                sql: stages::created(
                    self.arrangement(side).relation@,
                    provision::arrangement_columns(
                        self.arrangement(side).row_type@,
                        self.arrangement(side).key_types@,
                    ),
                ),
                purpose: part_text(
                    "could not create Join stage "@,
                    self.stage_id,
                    side_word(side),
                    " arrangement"@,
                ),
            },
        ] + self.index(side) + seq![
            StepModel::Run {
                sql: stages::revoked(self.arrangement(side).relation@),
                purpose: part_text(
                    "could not protect Join stage "@,
                    self.stage_id,
                    side_word(side),
                    " storage"@,
                ),
            },
        ]
    }

    /// The continuation, and the entries of all relations in the catalog.
    pub open spec fn control(self) -> Seq<StepModel> {
        seq![
            StepModel::Run {
                sql: provision::continuation_table(self.continuation@),
                purpose: stages::stage_text(
                    "could not create Join stage "@,
                    self.stage_id,
                    " continuation"@,
                ),
            },
            StepModel::Run {
                sql: stages::revoked(self.continuation@),
                purpose: part_text(
                    "could not protect Join stage "@,
                    self.stage_id,
                    "continuation"@,
                    " storage"@,
                ),
            },
            StepModel::State { slot: 0, relation: self.left.relation@ },
            StepModel::State { slot: 1, relation: self.right.relation@ },
            StepModel::Continuation { relation: self.continuation@ },
        ]
    }

    /// All that provisions the stage.
    pub open spec fn script(self) -> Seq<StepModel> {
        self.state(InputSide::Left) + self.state(InputSide::Right) + self.control()
    }

    fn arrange(&self, script: Script, side: InputSide) -> (next: Script)
        ensures
            next@ == script@ + self.state(side),
    {
        let ghost before = script@;
        let arrangement = match side {
            InputSide::Left => &self.left,
            InputSide::Right => &self.right,
        };
        let word = match side {
            InputSide::Left => "left",
            InputSide::Right => "right",
        };
        let body = state_body(arrangement.row_type, arrangement.key_types);
        let mut script = script.run(
            create_table(arrangement.relation, body.as_str()),
            part_message("could not create Join stage ", self.stage_id, word, " arrangement"),
        );
        if !arrangement.key_types.is_empty() {
            let name = arrangement_name(side, self.result_oid, self.stage_id);
            script = script.run(
                state_index(name.as_str(), arrangement.relation, arrangement.key_types.len()),
                part_message("could not index Join stage ", self.stage_id, word, " arrangement"),
            );
        }
        let script = script.run(
            revoke_public(arrangement.relation),
            part_message("could not protect Join stage ", self.stage_id, word, " storage"),
        );
        assert(script@ =~= before + self.state(side));
        script
    }

    /// All that provisions the stage, in order.
    pub fn provision(&self) -> (script: Script)
        ensures
            script@ == self.script(),
    {
        let script = self.arrange(Script::new(), InputSide::Left);
        let script = self.arrange(script, InputSide::Right);
        assert(script@ =~= self.state(InputSide::Left) + self.state(InputSide::Right));
        let script = script.run(
            create_continuation(self.continuation),
            stage_message("could not create Join stage ", self.stage_id, " continuation"),
        ).run(
            revoke_public(self.continuation),
            part_message(
                "could not protect Join stage ",
                self.stage_id,
                "continuation",
                " storage",
            ),
        ).file_state(0, self.left.relation).file_state(1, self.right.relation).file_continuation(
            self.continuation,
        );
        assert(script@ =~= self.script());
        script
    }
}

/// No relation of a Join stage is filed before it is hidden from everyone but
/// its owner.
pub proof fn join_relations_are_hidden(stage: JoinStage)
    ensures
        stages::files_hidden(stage.script()),
{
    let left = stage.state(InputSide::Left);
    let right = stage.state(InputSide::Right);
    let steps = stage.script();
    let hidden = left.len() + right.len() as int;
    assert(steps[left.len() - 1] == left.last());
    assert(stages::hides(steps[left.len() - 1], stage.left.relation@));
    assert(steps[hidden - 1] == right.last());
    assert(stages::hides(steps[hidden - 1], stage.right.relation@));
    assert(stages::hides(steps[hidden + 1], stage.continuation@));
    assert forall|index: int|
        0 <= index < steps.len() && stages::filed(#[trigger] steps[index]) is Some implies exists|
        earlier: int,
    |
        0 <= earlier < index && stages::hides(
            #[trigger] steps[earlier],
            stages::filed(steps[index])->0,
        ) by {
        if index < hidden {
            if index < left.len() {
                assert(steps[index] == left[index]);
            } else {
                assert(steps[index] == right[index - left.len()]);
            }
        } else {
            assert(steps[index] == stage.control()[index - hidden]);
        }
    }
}

} // verus!
