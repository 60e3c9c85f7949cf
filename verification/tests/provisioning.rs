use shiba::execution::aggregate::apply::CompiledAggregate;
use shiba::execution::aggregate::order::RebuildKey;
use shiba::execution::aggregate::provisioning::{AggregateStage, Fold};
use shiba::execution::btree::BtreeOrder;
use shiba::execution::distinct::provisioning::DistinctStage;
use shiba::execution::join::provisioning::{Arrangement, JoinStage};
use shiba::execution::provision::{ProvisionStep, Script};

fn order() -> BtreeOrder {
    BtreeOrder {
        opclass: "\"pg_catalog\".\"int8_ops\"".to_owned(),
        direction: "ASC",
        sort_operator: "OPERATOR(pg_catalog.<)".to_owned(),
        equality_operator: "OPERATOR(pg_catalog.=)".to_owned(),
        nulls_first: false,
    }
}

fn purposes(script: &Script) -> Vec<&str> {
    script
        .steps
        .iter()
        .filter_map(|step| match step {
            ProvisionStep::Run { purpose, .. } => Some(purpose.as_str()),
            _ => None,
        })
        .collect()
}

fn filed(script: &Script) -> Vec<(Option<i32>, &str)> {
    script
        .steps
        .iter()
        .filter_map(|step| match step {
            ProvisionStep::Run { .. } => None,
            ProvisionStep::State { slot, relation } => Some((Some(*slot), relation.as_str())),
            ProvisionStep::Continuation { relation } => Some((None, relation.as_str())),
        })
        .collect()
}

fn position(script: &Script, wanted: &str) -> usize {
    script
        .steps
        .iter()
        .position(|step| matches!(step, ProvisionStep::Run { sql, .. } if sql.contains(wanted)))
        .unwrap_or_else(|| panic!("no statement holds {wanted}"))
}

fn hidden(script: &Script) {
    for (_, relation) in filed(script) {
        let created = position(script, &format!("CREATE TABLE {relation}"));
        let revoked = position(script, &format!("REVOKE ALL ON TABLE {relation}"));
        assert!(created < revoked, "{relation}");
    }
    for step in &script.steps {
        if let ProvisionStep::Run { sql, .. } = step {
            assert!(!sql.contains('{') && !sql.contains('}'), "{sql}");
        }
    }
}

#[test]
fn script_keeps_its_steps_in_order() {
    let script = Script::new()
        .run("SELECT 1".to_owned(), "first".to_owned())
        .state("Join", 4, 2, "s.r", "(a bigint)")
        .file_continuation("s.c");
    assert_eq!(
        purposes(&script),
        [
            "first",
            "could not create Join stage 4 state slot 2",
            "could not protect Join state",
        ]
    );
    assert_eq!(filed(&script), [(Some(2), "s.r"), (None, "s.c")]);
    assert_eq!(script.steps.len(), 5);
}

#[test]
fn aggregate_stage_gets_one_work_relation_per_aggregate() {
    let types = vec!["bigint".to_owned()];
    let orders = vec![order()];
    let values = vec![
        CompiledAggregate {
            order_by: vec!["text".to_owned()],
            distinct: vec![],
        },
        CompiledAggregate {
            order_by: vec![],
            distinct: vec![],
        },
    ];
    let fold = |relation: &str, keys: Vec<RebuildKey>| Fold {
        relation: relation.to_owned(),
        transition_type: "numeric".to_owned(),
        order_types: keys.iter().map(|_| "text".to_owned()).collect(),
        keys,
        distinct_types: vec![],
    };
    let folds = vec![
        fold(
            "s.work_1",
            vec![RebuildKey {
                column: "aggregate_1_order_1".to_owned(),
                order: order(),
            }],
        ),
        fold("s.work_2", vec![]),
    ];
    let stage = AggregateStage {
        result_oid: 9,
        stage_id: 1,
        groups: "s.groups",
        bag: "s.bag",
        dirty: "s.dirty",
        continuation: "s.c",
        input_type: "s.in",
        output_type: "s.out",
        group_types: &types,
        group_orders: &orders,
        values: &values,
        folds: &folds,
    };
    let script = stage.provision().unwrap();
    hidden(&script);
    let relations: Vec<&str> = filed(&script).iter().map(|(_, relation)| *relation).collect();
    assert_eq!(relations, ["s.groups", "s.bag", "s.work_1", "s.work_2", "s.dirty", "s.c"]);
    let slots: Vec<Option<i32>> = filed(&script).iter().map(|(slot, _)| *slot).collect();
    assert_eq!(slots.iter().filter(|slot| slot.is_none()).count(), 1);
    let mut distinct: Vec<i32> = slots.iter().flatten().copied().collect();
    distinct.sort_unstable();
    distinct.dedup();
    assert_eq!(distinct.len(), 5);
    assert!(purposes(&script).contains(&"could not create Aggregate stage 1 continuation"));
}

#[test]
fn distinct_stage_gets_four_relations() {
    let types = vec!["bigint".to_owned()];
    let orders = vec![order()];
    let stage = DistinctStage {
        result_oid: 9,
        stage_id: 1,
        groups: "s.groups",
        bag: "s.bag",
        queue: "s.queue",
        touched: "s.touched",
        continuation: "s.c",
        row_type: "s.row",
        key_types: &types,
        key_orders: &orders,
    };
    let script = stage.provision();
    hidden(&script);
    assert_eq!(
        filed(&script),
        [
            (Some(0), "s.groups"),
            (Some(1), "s.bag"),
            (Some(2), "s.queue"),
            (Some(3), "s.touched"),
            (None, "s.c"),
        ]
    );
    assert_eq!(
        purposes(&script)[2],
        "Distinct stage 1 keys lack exact B-tree semantics"
    );
}

#[test]
fn join_stage_gets_an_arrangement_per_side() {
    let keyed = vec!["bigint".to_owned()];
    let keyless: Vec<String> = vec![];
    let stage = |key_types| JoinStage {
        result_oid: 9,
        stage_id: 1,
        left: Arrangement {
            relation: "s.left",
            row_type: "s.left_row",
            key_types,
        },
        right: Arrangement {
            relation: "s.right",
            row_type: "s.right_row",
            key_types,
        },
        continuation: "s.c",
    };
    let script = stage(&keyed).provision();
    hidden(&script);
    assert_eq!(
        filed(&script),
        [(Some(0), "s.left"), (Some(1), "s.right"), (None, "s.c")]
    );
    assert!(position(&script, "CREATE INDEX") < position(&script, "CREATE TABLE s.right"));
    let script = stage(&keyless).provision();
    hidden(&script);
    assert!(script.steps.iter().all(
        |step| !matches!(step, ProvisionStep::Run { sql, .. } if sql.contains("CREATE INDEX"))
    ));
}
