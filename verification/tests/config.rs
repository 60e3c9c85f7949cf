use shiba::config::{
    format_kilobytes,
    DEFAULT_INGRESS_BATCH_BYTES,
    DEFAULT_INGRESS_BATCH_ROWS,
    DEFAULT_INGRESS_RETENTION_MS,
    DEFAULT_INGRESS_STAGING_LIMIT_KB,
    DEFAULT_MAX_CACHED_DATAFLOWS,
    DEFAULT_MAX_CACHED_RELATIONS,
    DEFAULT_RUNTIME_TEMP_FILE_LIMIT_KB,
    DEFAULT_RUNTIME_WORK_MEM_KB,
    DEFAULT_STAGE_ADMISSION_BYTES,
    DEFAULT_STAGE_ADMISSION_ROWS,
    DEFAULT_STAGE_CHUNK_BYTES,
    DEFAULT_STAGE_CHUNK_ROWS,
    MAX_INGRESS_BATCH_BYTES,
    MAX_INGRESS_BATCH_ROWS,
    MAX_INGRESS_RETENTION_MS,
    MAX_INGRESS_STAGING_LIMIT_KB,
    MAX_MAX_CACHED_DATAFLOWS,
    MAX_MAX_CACHED_RELATIONS,
    MAX_RUNTIME_TEMP_FILE_LIMIT_KB,
    MAX_RUNTIME_WORK_MEM_KB,
    MAX_STAGE_ADMISSION_BYTES,
    MAX_STAGE_ADMISSION_ROWS,
    MAX_STAGE_CHUNK_BYTES,
    MAX_STAGE_CHUNK_ROWS,
    MIN_INGRESS_BATCH_BYTES,
    MIN_INGRESS_BATCH_ROWS,
    MIN_INGRESS_RETENTION_MS,
    MIN_INGRESS_STAGING_LIMIT_KB,
    MIN_MAX_CACHED_DATAFLOWS,
    MIN_MAX_CACHED_RELATIONS,
    MIN_RUNTIME_TEMP_FILE_LIMIT_KB,
    MIN_RUNTIME_WORK_MEM_KB,
    MIN_STAGE_ADMISSION_BYTES,
    MIN_STAGE_ADMISSION_ROWS,
    MIN_STAGE_CHUNK_BYTES,
    MIN_STAGE_CHUNK_ROWS,
};

#[test]
fn runtime_memory_values_map_to_unambiguous_postgresql_units() {
    assert_eq!(format_kilobytes(0), "0kB");
    assert_eq!(format_kilobytes(16 * 1024), "16384kB");
    assert_eq!(format_kilobytes(i32::MAX), "2147483647kB");
}

#[test]
fn defaults_are_inside_registered_ranges() {
    assert!((MIN_RUNTIME_WORK_MEM_KB..=MAX_RUNTIME_WORK_MEM_KB)
        .contains(&DEFAULT_RUNTIME_WORK_MEM_KB));
    assert!(
        (MIN_RUNTIME_TEMP_FILE_LIMIT_KB..=MAX_RUNTIME_TEMP_FILE_LIMIT_KB)
            .contains(&DEFAULT_RUNTIME_TEMP_FILE_LIMIT_KB)
    );
    assert!((MIN_MAX_CACHED_DATAFLOWS..=MAX_MAX_CACHED_DATAFLOWS)
        .contains(&DEFAULT_MAX_CACHED_DATAFLOWS));
    assert!((MIN_STAGE_CHUNK_ROWS..=MAX_STAGE_CHUNK_ROWS).contains(&DEFAULT_STAGE_CHUNK_ROWS));
    assert!(
        (MIN_STAGE_CHUNK_BYTES..=MAX_STAGE_CHUNK_BYTES).contains(&DEFAULT_STAGE_CHUNK_BYTES)
    );
    assert!((MIN_STAGE_ADMISSION_ROWS..=MAX_STAGE_ADMISSION_ROWS)
        .contains(&DEFAULT_STAGE_ADMISSION_ROWS));
    assert!((MIN_STAGE_ADMISSION_BYTES..=MAX_STAGE_ADMISSION_BYTES)
        .contains(&DEFAULT_STAGE_ADMISSION_BYTES));
    assert!(
        (MIN_INGRESS_BATCH_ROWS..=MAX_INGRESS_BATCH_ROWS).contains(&DEFAULT_INGRESS_BATCH_ROWS)
    );
    assert!((MIN_INGRESS_BATCH_BYTES..=MAX_INGRESS_BATCH_BYTES)
        .contains(&DEFAULT_INGRESS_BATCH_BYTES));
    assert!(
        (MIN_INGRESS_STAGING_LIMIT_KB..=MAX_INGRESS_STAGING_LIMIT_KB)
            .contains(&DEFAULT_INGRESS_STAGING_LIMIT_KB)
    );
    assert!((MIN_MAX_CACHED_RELATIONS..=MAX_MAX_CACHED_RELATIONS)
        .contains(&DEFAULT_MAX_CACHED_RELATIONS));
    assert!((MIN_INGRESS_RETENTION_MS..=MAX_INGRESS_RETENTION_MS)
        .contains(&DEFAULT_INGRESS_RETENTION_MS));
}
