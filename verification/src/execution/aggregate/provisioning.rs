//! What provisions an Aggregate stage, in order: groups, bag, a fold for each
//! aggregate, the queue of dirty groups, and the continuation.

use vstd::prelude::*;

use crate::execution::aggregate::apply::CompiledAggregate;
use crate::execution::aggregate::order::RebuildKey;
use crate::execution::aggregate::provision::{
    self, bag_body, bag_index, create_continuation, dirty_body, groups_body, groups_index,
    order_index, work_body, work_slot, BAG_SLOT, DIRTY_SLOT, GROUPS_SLOT,
};
use crate::execution::btree::BtreeOrder;
use crate::execution::provision::{
    self as stages, revoke_public, stage_message, Script, StepModel,
};
use crate::text::{self, unsigned_text};

verus! {

/// What the fold of one aggregate is made of.
pub struct Fold {
    /// Its qualified relation.
    pub relation: String,
    /// The SQL type of its transition state.
    pub transition_type: String,
    /// The keys of its effective order, and their SQL types.
    pub keys: Vec<RebuildKey>,
    pub order_types: Vec<String>,
    /// The SQL types of its distinct keys.
    pub distinct_types: Vec<String>,
}

/// What an Aggregate stage is made of; its relations are qualified.
pub struct AggregateStage<'a> {
    pub result_oid: u32,
    pub stage_id: i32,
    pub groups: &'a str,
    pub bag: &'a str,
    pub dirty: &'a str,
    pub continuation: &'a str,
    pub input_type: &'a str,
    pub output_type: &'a str,
    /// The SQL types and the orders of the grouping keys.
    pub group_types: &'a Vec<String>,
    pub group_orders: &'a Vec<BtreeOrder>,
    /// The SQL types of the order and distinct keys of every aggregate.
    pub values: &'a Vec<CompiledAggregate>,
    pub folds: &'a Vec<Fold>,
}

impl<'a> AggregateStage<'a> {
    /// The groups and the bag, each with its index.
    pub open spec fn rows(self) -> Seq<StepModel> {
        stages::state_steps(
            "Aggregate"@,
            self.stage_id,
            GROUPS_SLOT,
            self.groups@,
            provision::groups_columns(self.group_types@, self.output_type@),
        ) + seq![
            StepModel::Run {
                sql: provision::groups_key(
                    self.result_oid,
                    self.stage_id,
                    self.groups@,
                    self.group_orders@,
                ),
                purpose: "Aggregate group state lacks durable B-tree semantics"@,
            },
        ] + stages::state_steps(
            "Aggregate"@,
            self.stage_id,
            BAG_SLOT,
            self.bag@,
            provision::bag_columns(self.groups@, self.input_type@, self.values@),
        ) + seq![
            StepModel::Run {
                sql: provision::bag_key(self.result_oid, self.stage_id, self.bag@),
                purpose: "could not create Aggregate bag group index"@,
            },
        ]
    }

    /// The index of the bag in the order of a fold, where it has one.
    pub open spec fn fold_index(self, index: int) -> Seq<StepModel> {
        if self.folds[index].keys.len() == 0 {
            Seq::empty()
        } else {
            seq![
                StepModel::Run {
                    sql: provision::order_key(
                        self.result_oid,
                        self.stage_id,
                        (index + 1) as usize,
                        self.bag@,
                        self.folds[index].keys@,
                    ),
                    purpose: "could not create Aggregate "@ + text::decimal(index + 1)
                        + " bounded rebuild index"@,
                },
            ]
        }
    }

    /// The fold of one aggregate.
    pub open spec fn fold(self, index: int) -> Seq<StepModel> {
        self.fold_index(index) + stages::state_steps(
            "Aggregate"@,
            self.stage_id,
            (2 + index) as i32,
            self.folds[index].relation@,
            provision::work_columns(
                self.groups@,
                self.folds[index].transition_type@,
                self.folds[index].order_types@,
                self.folds[index].distinct_types@,
            ),
        )
    }

    /// The first folds, in order.
    pub open spec fn folds_before(self, count: nat) -> Seq<StepModel>
        decreases count,
    {
        if count == 0 {
            Seq::empty()
        } else {
            self.folds_before((count - 1) as nat) + self.fold(count - 1)
        }
    }

    /// The queue and the continuation.
    pub open spec fn control(self) -> Seq<StepModel> {
        stages::state_steps(
            "Aggregate"@,
            self.stage_id,
            DIRTY_SLOT,
            self.dirty@,
            provision::dirty_columns(self.groups@),
        ) + seq![
            StepModel::Run {
                sql: provision::continuation_table(self.continuation@, self.folds.len()),
                purpose: stages::stage_text(
                    "could not create Aggregate stage "@,
                    self.stage_id,
                    " continuation"@,
                ),
            },
            StepModel::Run {
                sql: stages::revoked(self.continuation@),
                purpose: "could not protect Aggregate continuation"@,
            },
            StepModel::Continuation { relation: self.continuation@ },
        ]
    }

    /// All that provisions the stage.
    pub open spec fn script(self) -> Seq<StepModel> {
        self.rows() + self.folds_before(self.folds@.len()) + self.control()
    }

    fn row_script(&self) -> (script: Script)
        ensures
            script@ == self.rows(),
    {
        let body = groups_body(self.group_types, self.output_type);
        let script = Script::new().state(
            "Aggregate",
            self.stage_id,
            GROUPS_SLOT,
            self.groups,
            body.as_str(),
        );
        let script = script.run(
            groups_index(self.result_oid, self.stage_id, self.groups, self.group_orders),
            "Aggregate group state lacks durable B-tree semantics".to_owned(),
        );
        let body = bag_body(self.groups, self.input_type, self.values);
        let script = script.state("Aggregate", self.stage_id, BAG_SLOT, self.bag, body.as_str());
        let script = script.run(
            bag_index(self.result_oid, self.stage_id, self.bag),
            "could not create Aggregate bag group index".to_owned(),
        );
        assert(script@ =~= self.rows());
        script
    }

    fn push_fold(&self, script: Script, index: usize) -> (outcome: Result<Script, String>)
        requires
            index < self.folds.len(),
            index < usize::MAX,
        ensures
            match outcome {
                Ok(next) => 2 + index <= i32::MAX && next@ == script@ + self.fold(index as int),
                Err(error) => 2 + index > i32::MAX && error@
                    == "Aggregate work slot exceeds integer"@,
            },
    {
        let ghost before = script@;
        let slot: i32 = work_slot(index)?;
        let fold = &self.folds[index];
        let mut script = script;
        if !fold.keys.is_empty() {
            let sql = order_index(
                self.result_oid,
                self.stage_id,
                index + 1,
                self.bag,
                &fold.keys,
            );
            let mut purpose = "could not create Aggregate ".to_owned();
            purpose.append(unsigned_text((index + 1) as u64).as_str());
            purpose.append(" bounded rebuild index");
            script = script.run(sql, purpose);
        }
        assert(script@ =~= before + self.fold_index(index as int));
        let body = work_body(
            self.groups,
            fold.transition_type.as_str(),
            &fold.order_types,
            &fold.distinct_types,
        );
        let script = script.state(
            "Aggregate",
            self.stage_id,
            slot,
            fold.relation.as_str(),
            body.as_str(),
        );
        assert(script@ =~= before + self.fold(index as int));
        Ok(script)
    }

    /// All that provisions the stage, in order.
    pub fn provision(&self) -> (outcome: Result<Script, String>)
        ensures
            text::agrees_view(
                outcome,
                text::guarded(
                    text::holds(
                        1 + self.folds.len() <= i32::MAX,
                        "Aggregate work slot exceeds integer"@,
                    ),
                    self.script(),
                ),
            ),
    {
        let mut script = self.row_script();
        let mut index: usize = 0;
        assert(script@ =~= self.rows() + self.folds_before(0));
        while index < self.folds.len()
            invariant
                index <= self.folds.len(),
                index > 0 ==> 1 + index <= i32::MAX,
                script@ == self.rows() + self.folds_before(index as nat),
            decreases self.folds.len() - index,
        {
            let ghost before = script@;
            script = self.push_fold(script, index)?;
            index = index + 1;
            assert(self.folds_before(index as nat) == self.folds_before((index - 1) as nat)
                + self.fold(index - 1));
            assert(script@ =~= self.rows() + self.folds_before(index as nat));
        }
        let ghost before = script@;
        let body = dirty_body(self.groups);
        let script = script.state(
            "Aggregate",
            self.stage_id,
            DIRTY_SLOT,
            self.dirty,
            body.as_str(),
        );
        let script = script.run(
            create_continuation(self.continuation, self.folds.len()),
            stage_message("could not create Aggregate stage ", self.stage_id, " continuation"),
        ).run(
            revoke_public(self.continuation),
            "could not protect Aggregate continuation".to_owned(),
        ).file_continuation(self.continuation);
        assert(script@ =~= before + self.control());
        Ok(script)
    }
}

/// No relation of an Aggregate stage is filed before it is hidden from
/// everyone but its owner.
pub proof fn aggregate_relations_are_hidden(stage: AggregateStage)
    ensures
        stages::files_hidden(stage.script()),
{
    rows_are_hidden(stage);
    folds_are_hidden(stage, stage.folds@.len());
    control_is_hidden(stage);
    stages::scripts_follow_each_other(stage.rows(), stage.folds_before(stage.folds@.len()));
    stages::scripts_follow_each_other(
        stage.rows() + stage.folds_before(stage.folds@.len()),
        stage.control(),
    );
}

proof fn rows_are_hidden(stage: AggregateStage)
    ensures
        stages::files_hidden(stage.rows()),
{
    let groups = stages::state_steps(
        "Aggregate"@,
        stage.stage_id,
        GROUPS_SLOT,
        stage.groups@,
        provision::groups_columns(stage.group_types@, stage.output_type@),
    );
    let bag = stages::state_steps(
        "Aggregate"@,
        stage.stage_id,
        BAG_SLOT,
        stage.bag@,
        provision::bag_columns(stage.groups@, stage.input_type@, stage.values@),
    );
    let groups_index = seq![stage.rows()[3]];
    let bag_index = seq![stage.rows()[7]];
    stages::state_is_hidden(
        "Aggregate"@,
        stage.stage_id,
        GROUPS_SLOT,
        stage.groups@,
        provision::groups_columns(stage.group_types@, stage.output_type@),
    );
    stages::state_is_hidden(
        "Aggregate"@,
        stage.stage_id,
        BAG_SLOT,
        stage.bag@,
        provision::bag_columns(stage.groups@, stage.input_type@, stage.values@),
    );
    stages::scripts_follow_each_other(groups, groups_index);
    stages::scripts_follow_each_other(groups + groups_index, bag);
    stages::scripts_follow_each_other(groups + groups_index + bag, bag_index);
    assert(stage.rows() =~= groups + groups_index + bag + bag_index);
}

proof fn folds_are_hidden(stage: AggregateStage, count: nat)
    ensures
        stages::files_hidden(stage.folds_before(count)),
    decreases count,
{
    if count > 0 {
        let index = count - 1;
        folds_are_hidden(stage, index as nat);
        let body = provision::work_columns(
            stage.groups@,
            stage.folds[index].transition_type@,
            stage.folds[index].order_types@,
            stage.folds[index].distinct_types@,
        );
        stages::state_is_hidden(
            "Aggregate"@,
            stage.stage_id,
            (2 + index) as i32,
            stage.folds[index].relation@,
            body,
        );
        stages::scripts_follow_each_other(
            stage.fold_index(index),
            stages::state_steps(
                "Aggregate"@,
                stage.stage_id,
                (2 + index) as i32,
                stage.folds[index].relation@,
                body,
            ),
        );
        stages::scripts_follow_each_other(stage.folds_before(index as nat), stage.fold(index));
    }
}

proof fn control_is_hidden(stage: AggregateStage)
    ensures
        stages::files_hidden(stage.control()),
{
    let steps = stage.control();
    assert(stages::hides(steps[1], stage.dirty@));
    assert(stages::hides(steps[4], stage.continuation@));
}

} // verus!
