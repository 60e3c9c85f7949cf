//! Statements that every operator uses to create its durable relations.

use vstd::prelude::*;

use crate::postgres::{self, quote_identifier};
use crate::text::{self, join, listed, signed_text, unsigned_text};

verus! {

/// The name of an operator relation: what it holds, and for which stage of
/// which result.
pub open spec fn named(prefix: Seq<char>, result: u32, stage_id: i32) -> Seq<char> {
    prefix + "_r"@ + text::decimal(result as int) + "_s"@ + text::decimal(stage_id as int)
}

pub fn relation_name(prefix: &str, result: u32, stage_id: i32) -> (name: String)
    ensures
        name@ == named(prefix@, result, stage_id),
{
    let mut name = prefix.to_owned();
    name.append("_r");
    name.append(unsigned_text(result as u64).as_str());
    name.append("_s");
    name.append(signed_text(stage_id as i64).as_str());
    name
}

/// Creates a relation from its column definitions.
pub open spec fn created(relation: Seq<char>, body: Seq<char>) -> Seq<char> {
    "CREATE TABLE "@ + relation + "("@ + body + ")"@
}

/// Creates a relation from its column definitions.
pub fn create_table(relation: &str, body: &str) -> (sql: String)
    ensures
        sql@ == created(relation@, body@),
{
    let mut sql = "CREATE TABLE ".to_owned();
    sql.append(relation);
    sql.append("(");
    sql.append(body);
    sql.append(")");
    sql
}

/// Hides a relation from everyone but its owner.
pub open spec fn revoked(relation: Seq<char>) -> Seq<char> {
    "REVOKE ALL ON TABLE "@ + relation + " FROM PUBLIC"@
}

/// Hides a relation from everyone but its owner.
pub fn revoke_public(relation: &str) -> (sql: String)
    ensures
        sql@ == revoked(relation@),
{
    let mut sql = "REVOKE ALL ON TABLE ".to_owned();
    sql.append(relation);
    sql.append(" FROM PUBLIC");
    sql
}

/// One thing to do for a stage.
#[derive(Clone, Debug, PartialEq, Eq)]
pub enum ProvisionStep {
    /// Runs a statement; a failure is reported behind its purpose.
    Run { sql: String, purpose: String },
    /// Files a relation under a state slot of the stage.
    State { slot: i32, relation: String },
    /// Files the continuation relation of the stage.
    Continuation { relation: String },
}

/// One thing to do, as a mathematical value.
#[verifier::ext_equal]
pub enum StepModel {
    Run { sql: Seq<char>, purpose: Seq<char> },
    State { slot: i32, relation: Seq<char> },
    Continuation { relation: Seq<char> },
}

impl View for ProvisionStep {
    type V = StepModel;

    open spec fn view(&self) -> StepModel {
        match self {
            ProvisionStep::Run { sql, purpose } => StepModel::Run { sql: sql@, purpose: purpose@ },
            ProvisionStep::State { slot, relation } => StepModel::State {
                slot: *slot,
                relation: relation@,
            },
            ProvisionStep::Continuation { relation } => StepModel::Continuation {
                relation: relation@,
            },
        }
    }
}

/// What provisions a stage, in order.
#[derive(Clone, Debug, PartialEq, Eq)]
pub struct Script {
    pub steps: Vec<ProvisionStep>,
}

impl View for Script {
    type V = Seq<StepModel>;

    open spec fn view(&self) -> Seq<StepModel> {
        Seq::new(self.steps@.len(), |index: int| self.steps@[index]@)
    }
}

/// A table is created, hidden and filed under its slot.
pub open spec fn state_steps(
    operator: Seq<char>,
    stage_id: i32,
    slot: i32,
    relation: Seq<char>,
    body: Seq<char>,
) -> Seq<StepModel> {
    seq![
        StepModel::Run {
            sql: created(relation, body),
            purpose: "could not create "@ + operator + " stage "@ + text::decimal(stage_id as int)
                + " state slot "@ + text::decimal(slot as int),
        },
        StepModel::Run {
            sql: revoked(relation),
            purpose: "could not protect "@ + operator + " state"@,
        },
        StepModel::State { slot, relation },
    ]
}

impl Script {
    /// Nothing to do.
    pub fn new() -> (script: Script)
        ensures
            script@ == Seq::<StepModel>::empty(),
    {
        let script = Script { steps: Vec::new() };
        assert(script@ =~= Seq::<StepModel>::empty());
        script
    }

    fn with(self, step: ProvisionStep) -> (script: Script)
        ensures
            script@ == self@.push(step@),
    {
        let ghost before = self@;
        let mut script = self;
        script.steps.push(step);
        assert(script@ =~= before.push(step@));
        script
    }

    /// Runs a statement behind what there is.
    pub fn run(self, sql: String, purpose: String) -> (script: Script)
        ensures
            script@ == self@.push(StepModel::Run { sql: sql@, purpose: purpose@ }),
    {
        self.with(ProvisionStep::Run { sql, purpose })
    }

    /// Files a relation under a slot.
    pub fn file_state(self, slot: i32, relation: &str) -> (script: Script)
        ensures
            script@ == self@.push(StepModel::State { slot, relation: relation@ }),
    {
        self.with(ProvisionStep::State { slot, relation: relation.to_owned() })
    }

    /// Files the continuation relation.
    pub fn file_continuation(self, relation: &str) -> (script: Script)
        ensures
            script@ == self@.push(StepModel::Continuation { relation: relation@ }),
    {
        self.with(ProvisionStep::Continuation { relation: relation.to_owned() })
    }

    /// Creates a state relation, hides it and files it.
    pub fn state(self, operator: &str, stage_id: i32, slot: i32, relation: &str, body: &str) -> (
        script: Script)
        ensures
            script@ == self@ + state_steps(operator@, stage_id, slot, relation@, body@),
    {
        let mut purpose = "could not create ".to_owned();
        purpose.append(operator);
        purpose.append(" stage ");
        purpose.append(signed_text(stage_id as i64).as_str());
        purpose.append(" state slot ");
        purpose.append(signed_text(slot as i64).as_str());
        let mut protecting = "could not protect ".to_owned();
        protecting.append(operator);
        protecting.append(" state");
        let ghost before = self@;
        let script = self.run(create_table(relation, body), purpose).run(
            revoke_public(relation),
            protecting,
        ).file_state(slot, relation);
        assert(script@ =~= before + state_steps(operator@, stage_id, slot, relation@, body@));
        script
    }
}

/// Whether a step hides a relation.
pub open spec fn hides(step: StepModel, relation: Seq<char>) -> bool {
    step matches StepModel::Run { sql, .. } && sql == revoked(relation)
}

/// The relation that a step files, if it files one.
pub open spec fn filed(step: StepModel) -> Option<Seq<char>> {
    match step {
        StepModel::Run { .. } => None,
        StepModel::State { relation, .. } => Some(relation),
        StepModel::Continuation { relation } => Some(relation),
    }
}

/// Every relation that is filed was hidden before.
pub open spec fn files_hidden(steps: Seq<StepModel>) -> bool {
    forall|index: int|
        0 <= index < steps.len() && filed(#[trigger] steps[index]) is Some ==> exists|earlier: int|
            0 <= earlier < index && hides(#[trigger] steps[earlier], filed(steps[index])->0)
}

/// Scripts that file only what is hidden can follow each other.
pub proof fn scripts_follow_each_other(first: Seq<StepModel>, second: Seq<StepModel>)
    requires
        files_hidden(first),
        files_hidden(second),
    ensures
        files_hidden(first + second),
{
    let both = first + second;
    assert forall|index: int|
        0 <= index < both.len() && filed(#[trigger] both[index]) is Some implies exists|earlier: int|
        0 <= earlier < index && hides(#[trigger] both[earlier], filed(both[index])->0) by {
        if index < first.len() {
            assert(both[index] == first[index]);
            let earlier = choose|earlier: int|
                0 <= earlier < index && hides(#[trigger] first[earlier], filed(first[index])->0);
            assert(both[earlier] == first[earlier]);
        } else {
            let shifted = index - first.len();
            assert(both[index] == second[shifted]);
            let earlier = choose|earlier: int|
                0 <= earlier < shifted && hides(
                    #[trigger] second[earlier],
                    filed(second[shifted])->0,
                );
            assert(both[earlier + first.len()] == second[earlier]);
        }
    }
}

/// A created state relation is hidden before it is filed.
pub proof fn state_is_hidden(
    operator: Seq<char>,
    stage_id: i32,
    slot: i32,
    relation: Seq<char>,
    body: Seq<char>,
)
    ensures
        files_hidden(state_steps(operator, stage_id, slot, relation, body)),
{
    let steps = state_steps(operator, stage_id, slot, relation, body);
    assert(hides(steps[1], relation));
}

/// A column definition: a quoted name and a type.
pub open spec fn defined(name: Seq<char>, type_sql: Seq<char>) -> Seq<char> {
    postgres::quoted(name) + " "@ + type_sql
}

pub fn definition(name: &str, type_sql: &str) -> (sql: String)
    ensures
        sql@ == defined(name@, type_sql@),
{
    let mut sql = quote_identifier(name);
    sql.append(" ");
    sql.append(type_sql);
    sql
}

/// A message about one stage.
pub open spec fn stage_text(head: Seq<char>, stage_id: i32, tail: Seq<char>) -> Seq<char> {
    head + text::decimal(stage_id as int) + tail
}

pub fn stage_message(head: &str, stage_id: i32, tail: &str) -> (message: String)
    ensures
        message@ == stage_text(head@, stage_id, tail@),
{
    let mut message = head.to_owned();
    message.append(signed_text(stage_id as i64).as_str());
    message.append(tail);
    message
}

/// Numbered column definitions, counted from one and separated by commas.
pub open spec fn numbered_definitions(prefix: Seq<char>, types: Seq<Seq<char>>) -> Seq<char> {
    text::joined(
        Seq::new(
            types.len(),
            |index: int| defined(prefix + text::decimal(index + 1), types[index]),
        ),
        ","@,
    )
}

pub fn numbered_columns(prefix: &str, types: &Vec<String>) -> (sql: String)
    ensures
        sql@ == numbered_definitions(prefix@, text::texts(types@)),
{
    let list = listed(
        types.len(),
        |index: usize| -> (item: String)
            requires
                index < types.len(),
            ensures
                item@ == defined(
                    prefix@ + text::decimal(index + 1),
                    types@[index as int]@,
                )
            {
                let name = prefix.to_owned().concat(unsigned_text((index + 1) as u64).as_str());
                definition(name.as_str(), types[index].as_str())
            },
    );
    proof {
        let models = text::texts(types@);
        assert(text::texts(list@) =~= Seq::new(
            models.len(),
            |index: int| defined(prefix@ + text::decimal(index + 1), models[index]),
        ));
    }
    join(&list, ",")
}

/// A relation of a stage is never that of another one: the name of what it
/// holds fixes the result and the stage.
pub proof fn stages_never_share_a_relation(
    prefix: Seq<char>,
    result: u32,
    stage_id: i32,
    other_result: u32,
    other_stage_id: i32,
)
    requires
        stage_id >= 0,
        other_stage_id >= 0,
        named(prefix, result, stage_id) == named(prefix, other_result, other_stage_id),
    ensures
        result == other_result,
        stage_id == other_stage_id,
{
    reveal_strlit("_r");
    reveal_strlit("_s");
    let name = named(prefix, result, stage_id);
    let first = text::decimal_nat(result as nat);
    let other = text::decimal_nat(other_result as nat);
    text::decimal_is_digits(result as nat);
    text::decimal_is_digits(other_result as nat);
    let start = prefix.len() as int + 2;
    assert(name.subrange(start, start + first.len()) =~= first);
    assert(name.subrange(start, start + other.len()) =~= other);
    assert(name[start + first.len()] == '_');
    assert(name[start + other.len()] == '_');
    if first.len() < other.len() {
        assert(other[first.len() as int] == name[start + first.len()]);
    }
    if other.len() < first.len() {
        assert(first[other.len() as int] == name[start + other.len()]);
    }
    text::decimal_is_injective(result as nat, other_result as nat);
    let rest = start + first.len() + 2;
    assert(name.subrange(rest as int, name.len() as int) =~= text::decimal_nat(stage_id as nat));
    assert(name.subrange(rest as int, name.len() as int) =~= text::decimal_nat(
        other_stage_id as nat,
    ));
    text::decimal_is_injective(stage_id as nat, other_stage_id as nat);
}

} // verus!
