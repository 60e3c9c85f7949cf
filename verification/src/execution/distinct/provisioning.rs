//! What provisions a Distinct stage, in order.

use vstd::prelude::*;

use crate::execution::btree::BtreeOrder;
use crate::execution::distinct::provision::{
    self, bag_body, create_continuation, groups_body, groups_index, queue_body, TOUCHED_SQL,
};
use crate::execution::provision::{
    self as stages, revoke_public, stage_message, Script, StepModel,
};

verus! {

/// What a Distinct stage is made of; its relations are qualified.
pub struct DistinctStage<'a> {
    pub result_oid: u32,
    pub stage_id: i32,
    pub groups: &'a str,
    pub bag: &'a str,
    pub queue: &'a str,
    pub touched: &'a str,
    pub continuation: &'a str,
    pub row_type: &'a str,
    /// The SQL types and the orders of the keys.
    pub key_types: &'a Vec<String>,
    pub key_orders: &'a Vec<BtreeOrder>,
}

impl<'a> DistinctStage<'a> {
    /// The keys with their index.
    pub open spec fn keys(self) -> Seq<StepModel> {
        stages::state_steps(
            "Distinct"@,
            self.stage_id,
            0,
            self.groups@,
            provision::groups_columns(self.key_types@, self.row_type@),
        ).push(
            StepModel::Run {
                sql: provision::groups_key(
                    self.result_oid,
                    self.stage_id,
                    self.groups@,
                    self.key_orders@,
                ),
                purpose: stages::stage_text(
                    "Distinct stage "@,
                    self.stage_id,
                    " keys lack exact B-tree semantics"@,
                ),
            },
        )
    }

    /// The representatives, the queue of effects and the touched keys.
    pub open spec fn rows(self) -> Seq<StepModel> {
        stages::state_steps(
            "Distinct"@,
            self.stage_id,
            1,
            self.bag@,
            provision::bag_columns(self.groups@, self.row_type@),
        ) + stages::state_steps(
            "Distinct"@,
            self.stage_id,
            2,
            self.queue@,
            provision::queue_columns(self.row_type@),
        ) + stages::state_steps("Distinct"@, self.stage_id, 3, self.touched@, TOUCHED_SQL@)
    }

    /// The continuation.
    pub open spec fn control(self) -> Seq<StepModel> {
        seq![
            StepModel::Run {
                sql: provision::continuation_table(self.continuation@),
                purpose: "could not create Distinct continuation"@,
            },
            StepModel::Run {
                sql: stages::revoked(self.continuation@),
                purpose: "could not protect Distinct continuation"@,
            },
            StepModel::Continuation { relation: self.continuation@ },
        ]
    }

    /// All that provisions the stage.
    pub open spec fn script(self) -> Seq<StepModel> {
        self.keys() + self.rows() + self.control()
    }

    /// All that provisions the stage, in order.
    pub fn provision(&self) -> (script: Script)
        ensures
            script@ == self.script(),
    {
        let body = groups_body(self.key_types, self.row_type);
        let script = Script::new().state(
            "Distinct",
            self.stage_id,
            0,
            self.groups,
            body.as_str(),
        ).run(
            groups_index(self.result_oid, self.stage_id, self.groups, self.key_orders),
            stage_message(
                "Distinct stage ",
                self.stage_id,
                " keys lack exact B-tree semantics",
            ),
        );
        assert(script@ =~= self.keys());
        let body = bag_body(self.groups, self.row_type);
        let script = script.state("Distinct", self.stage_id, 1, self.bag, body.as_str());
        let body = queue_body(self.row_type);
        let script = script.state("Distinct", self.stage_id, 2, self.queue, body.as_str()).state(
            "Distinct",
            self.stage_id,
            3,
            self.touched,
            TOUCHED_SQL,
        );
        assert(script@ =~= self.keys() + self.rows());
        let script = script.run(
            create_continuation(self.continuation),
            "could not create Distinct continuation".to_owned(),
        ).run(
            revoke_public(self.continuation),
            "could not protect Distinct continuation".to_owned(),
        ).file_continuation(self.continuation);
        assert(script@ =~= self.script());
        script
    }
}

/// No relation of a Distinct stage is filed before it is hidden from everyone
/// but its owner.
pub proof fn distinct_relations_are_hidden(stage: DistinctStage)
    ensures
        stages::files_hidden(stage.script()),
{
    let keys = stage.keys();
    assert(stages::hides(keys[1], stage.groups@));
    let rows = stage.rows();
    assert(stages::hides(rows[1], stage.bag@));
    assert(stages::hides(rows[4], stage.queue@));
    assert(stages::hides(rows[7], stage.touched@));
    let control = stage.control();
    assert(stages::hides(control[1], stage.continuation@));
    stages::scripts_follow_each_other(keys, rows);
    stages::scripts_follow_each_other(keys + rows, control);
}

} // verus!
