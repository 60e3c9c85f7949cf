use shiba::execution::btree::{
    cache_insert, decode_direction, BtreeOrder, CapabilityCache, CapabilityKey,
    BTREE_ORDER_CAPABILITY_SQL, CAPABILITY_CACHE_CAPACITY,
};


#[test]
fn capability_selects_one_opclass_per_family_deterministically() {
    assert!(BTREE_ORDER_CAPABILITY_SQL.contains("DISTINCT ON (opfamily_oid)"));
    assert!(BTREE_ORDER_CAPABILITY_SQL
        .contains("ORDER BY opfamily_oid,opclass_is_default DESC,opclass_oid"));
    assert!(BTREE_ORDER_CAPABILITY_SQL.contains("ORDER BY opfamily_oid\n"));
}

#[test]
fn capability_matches_catalog_declared_types_before_actual_type_validation() {
    assert!(BTREE_ORDER_CAPABILITY_SQL.contains("opclass.opcintype=sort_member.amoplefttype"));
    assert!(BTREE_ORDER_CAPABILITY_SQL.contains("sort_operator.oprleft=opclass.opcintype"));
    assert!(
        BTREE_ORDER_CAPABILITY_SQL.contains("equality_member.amoplefttype=opclass.opcintype")
    );
    assert!(BTREE_ORDER_CAPABILITY_SQL.contains("equality_operator.oprleft=opclass.opcintype"));
    assert!(!BTREE_ORDER_CAPABILITY_SQL.contains("opcintype=$3"));
}

#[test]
fn only_btree_ordering_strategies_are_decoded() {
    assert_eq!(decode_direction(1, "test").unwrap(), "ASC");
    assert_eq!(decode_direction(5, "test").unwrap(), "DESC");
    assert!(decode_direction(3, "test").is_err());
}

#[test]
fn capability_cache_is_bounded_without_evicting_an_existing_key() {
    let mut cache = CapabilityCache::new();
    let resolved = BtreeOrder {
        opclass: "pg_catalog.int4_ops".into(),
        direction: "ASC",
        sort_operator: "OPERATOR(pg_catalog.<)".into(),
        equality_operator: "OPERATOR(pg_catalog.=)".into(),
        nulls_first: false,
    };
    for type_oid in 1..=CAPABILITY_CACHE_CAPACITY as u32 {
        cache_insert(
            &mut cache,
            CapabilityKey {
                sort_operator_oid: type_oid,
                equality_operator_oid: type_oid,
                type_oid,
                nulls_first: false,
            },
            resolved.clone(),
        );
    }
    let existing = *cache.keys().first().expect("cache has entries");
    cache_insert(&mut cache, existing, resolved.clone());
    assert_eq!(cache.len(), CAPABILITY_CACHE_CAPACITY);

    cache_insert(
        &mut cache,
        CapabilityKey {
            sort_operator_oid: u32::MAX,
            equality_operator_oid: u32::MAX,
            type_oid: u32::MAX,
            nulls_first: true,
        },
        resolved,
    );
    assert_eq!(cache.len(), 1);
}
