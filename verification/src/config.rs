//! PostgreSQL settings that bound the resource use of the Runtime process.

use vstd::prelude::*;

use crate::text::{self, signed_text};

verus! {

pub const DEFAULT_RUNTIME_WORK_MEM_KB: i32 = 16 * 1024;

pub const MIN_RUNTIME_WORK_MEM_KB: i32 = 64;

pub const MAX_RUNTIME_WORK_MEM_KB: i32 = i32::MAX;

pub const DEFAULT_RUNTIME_TEMP_FILE_LIMIT_KB: i32 = 1024 * 1024;

pub const MIN_RUNTIME_TEMP_FILE_LIMIT_KB: i32 = 0;

pub const MAX_RUNTIME_TEMP_FILE_LIMIT_KB: i32 = i32::MAX;

pub const DEFAULT_MAX_CACHED_DATAFLOWS: i32 = 128;

pub const MIN_MAX_CACHED_DATAFLOWS: i32 = 1;

pub const MAX_MAX_CACHED_DATAFLOWS: i32 = 4_096;

pub const DEFAULT_STAGE_CHUNK_ROWS: i32 = 16 * 1024;

pub const MIN_STAGE_CHUNK_ROWS: i32 = 1;

pub const MAX_STAGE_CHUNK_ROWS: i32 = 1_000_000;

pub const DEFAULT_STAGE_CHUNK_BYTES: i32 = 16 * 1024 * 1024;

pub const MIN_STAGE_CHUNK_BYTES: i32 = 1;

pub const MAX_STAGE_CHUNK_BYTES: i32 = i32::MAX;

pub const DEFAULT_STAGE_ADMISSION_ROWS: i32 = 16 * 1024;

pub const MIN_STAGE_ADMISSION_ROWS: i32 = 1;

pub const MAX_STAGE_ADMISSION_ROWS: i32 = 1_000_000;

pub const DEFAULT_STAGE_ADMISSION_BYTES: i32 = 128 * 1024 * 1024;

pub const MIN_STAGE_ADMISSION_BYTES: i32 = 1;

pub const MAX_STAGE_ADMISSION_BYTES: i32 = i32::MAX;

pub const DEFAULT_INGRESS_BATCH_ROWS: i32 = 16 * 1024;

pub const MIN_INGRESS_BATCH_ROWS: i32 = 1;

pub const MAX_INGRESS_BATCH_ROWS: i32 = 1_000_000;

pub const DEFAULT_INGRESS_BATCH_BYTES: i32 = 16 * 1024 * 1024;

pub const MIN_INGRESS_BATCH_BYTES: i32 = 1;

pub const MAX_INGRESS_BATCH_BYTES: i32 = i32::MAX;

pub const DEFAULT_INGRESS_STAGING_LIMIT_KB: i32 = 64 * 1024 * 1024;

pub const MIN_INGRESS_STAGING_LIMIT_KB: i32 = 1024;

pub const MAX_INGRESS_STAGING_LIMIT_KB: i32 = i32::MAX;

pub const DEFAULT_MAX_CACHED_RELATIONS: i32 = 4_096;

pub const MIN_MAX_CACHED_RELATIONS: i32 = 1;

pub const MAX_MAX_CACHED_RELATIONS: i32 = 65_536;

pub const DEFAULT_INGRESS_RETENTION_MS: i32 = 1_000;

pub const MIN_INGRESS_RETENTION_MS: i32 = 0;

pub const MAX_INGRESS_RETENTION_MS: i32 = i32::MAX;

/// The unit that PostgreSQL shows a setting in.
#[derive(Clone, Copy, Debug, PartialEq, Eq, Structural)]
pub enum SettingUnit {
    Count,
    Bytes,
    Kilobytes,
    Milliseconds,
}

/// One integer setting: its documentation, its default and its range. It can
/// be changed by a reload of the server configuration.
#[derive(Clone, Copy, Debug, PartialEq, Eq)]
pub struct IntegerSetting {
    pub name: &'static str,
    pub summary: &'static str,
    pub details: &'static str,
    pub default: i32,
    pub minimum: i32,
    pub maximum: i32,
    pub unit: SettingUnit,
}

/// The integer settings, in the order in which they are registered.
pub open spec fn registered() -> Seq<IntegerSetting> {
    seq![
        IntegerSetting {
            name: "shiba.runtime_work_mem",
            summary: "Work memory available to each Shiba Runtime query operation.",
            details: "Sets the PostgreSQL work_mem used by the Shiba Runtime session.",
            default: DEFAULT_RUNTIME_WORK_MEM_KB,
            minimum: MIN_RUNTIME_WORK_MEM_KB,
            maximum: MAX_RUNTIME_WORK_MEM_KB,
            unit: SettingUnit::Kilobytes,
        },
        IntegerSetting {
            name: "shiba.runtime_temp_file_limit",
            summary: "Maximum temporary-file space available to the Shiba Runtime.",
            details: "Sets the PostgreSQL temp_file_limit used by the Shiba Runtime session.",
            default: DEFAULT_RUNTIME_TEMP_FILE_LIMIT_KB,
            minimum: MIN_RUNTIME_TEMP_FILE_LIMIT_KB,
            maximum: MAX_RUNTIME_TEMP_FILE_LIMIT_KB,
            unit: SettingUnit::Kilobytes,
        },
        IntegerSetting {
            name: "shiba.max_cached_dataflows",
            summary: "Maximum number of loaded dataflows cached by the Shiba Runtime.",
            details: "Older loaded dataflows are deterministically evicted and rebuilt from durable state when needed.",
            default: DEFAULT_MAX_CACHED_DATAFLOWS,
            minimum: MIN_MAX_CACHED_DATAFLOWS,
            maximum: MAX_MAX_CACHED_DATAFLOWS,
            unit: SettingUnit::Count,
        },
        IntegerSetting {
            name: "shiba.stage_chunk_rows",
            summary: "Target number of input and output rows processed by one operator step.",
            details: "A single indivisible row may exceed this target and occupy one step.",
            default: DEFAULT_STAGE_CHUNK_ROWS,
            minimum: MIN_STAGE_CHUNK_ROWS,
            maximum: MAX_STAGE_CHUNK_ROWS,
            unit: SettingUnit::Count,
        },
        IntegerSetting {
            name: "shiba.stage_chunk_bytes",
            summary: "Target input and output bytes processed by one operator step.",
            details: "A single indivisible row may exceed this target and occupy one step.",
            default: DEFAULT_STAGE_CHUNK_BYTES,
            minimum: MIN_STAGE_CHUNK_BYTES,
            maximum: MAX_STAGE_CHUNK_BYTES,
            unit: SettingUnit::Bytes,
        },
        IntegerSetting {
            name: "shiba.stage_admission_rows",
            summary: "Initial cumulative-row threshold for Aggregate, Window, and TopN Drain.",
            details: "Threshold intervals grow geometrically to a fixed cap; each Apply step remains bounded by shiba.stage_chunk_rows.",
            default: DEFAULT_STAGE_ADMISSION_ROWS,
            minimum: MIN_STAGE_ADMISSION_ROWS,
            maximum: MAX_STAGE_ADMISSION_ROWS,
            unit: SettingUnit::Count,
        },
        IntegerSetting {
            name: "shiba.stage_admission_bytes",
            summary: "Initial cumulative-byte threshold for Aggregate, Window, and TopN Drain.",
            details: "Threshold intervals grow geometrically to a fixed cap; each Apply step remains bounded by shiba.stage_chunk_bytes.",
            default: DEFAULT_STAGE_ADMISSION_BYTES,
            minimum: MIN_STAGE_ADMISSION_BYTES,
            maximum: MAX_STAGE_ADMISSION_BYTES,
            unit: SettingUnit::Bytes,
        },
        IntegerSetting {
            name: "shiba.ingress_batch_rows",
            summary: "Target maximum row images in one persisted ingress batch.",
            details: "One individual replication message or tuple remains indivisible.",
            default: DEFAULT_INGRESS_BATCH_ROWS,
            minimum: MIN_INGRESS_BATCH_ROWS,
            maximum: MAX_INGRESS_BATCH_ROWS,
            unit: SettingUnit::Count,
        },
        IntegerSetting {
            name: "shiba.ingress_batch_bytes",
            summary: "Target maximum pgoutput payload bytes in one persisted ingress batch.",
            details: "One individual replication message or tuple may exceed this target.",
            default: DEFAULT_INGRESS_BATCH_BYTES,
            minimum: MIN_INGRESS_BATCH_BYTES,
            maximum: MAX_INGRESS_BATCH_BYTES,
            unit: SettingUnit::Bytes,
        },
        IntegerSetting {
            name: "shiba.ingress_staging_limit",
            summary: "Maximum decoded payload bytes retained by open source transactions.",
            details: "Shiba stops safely and retains WAL for replay instead of accepting an unbounded transaction.",
            default: DEFAULT_INGRESS_STAGING_LIMIT_KB,
            minimum: MIN_INGRESS_STAGING_LIMIT_KB,
            maximum: MAX_INGRESS_STAGING_LIMIT_KB,
            unit: SettingUnit::Kilobytes,
        },
        IntegerSetting {
            name: "shiba.max_cached_relations",
            summary: "Maximum pgoutput relation descriptors retained by one Shiba Runtime.",
            details: "The Runtime fails closed at this limit because evicting descriptors can misdecode tuples.",
            default: DEFAULT_MAX_CACHED_RELATIONS,
            minimum: MIN_MAX_CACHED_RELATIONS,
            maximum: MAX_MAX_CACHED_RELATIONS,
            unit: SettingUnit::Count,
        },
        IntegerSetting {
            name: "shiba.ingress_retention",
            summary: "Minimum retention after ingress transaction finalization.",
            details: "Replay-safe transactions remain inspectable for this duration before bounded GC.",
            default: DEFAULT_INGRESS_RETENTION_MS,
            minimum: MIN_INGRESS_RETENTION_MS,
            maximum: MAX_INGRESS_RETENTION_MS,
            unit: SettingUnit::Milliseconds,
        },
    ]
}

pub fn integer_settings() -> (settings: Vec<IntegerSetting>)
    ensures
        settings@ == registered(),
{
    let settings: Vec<IntegerSetting> = vec![
        IntegerSetting {
            name: "shiba.runtime_work_mem",
            summary: "Work memory available to each Shiba Runtime query operation.",
            details: "Sets the PostgreSQL work_mem used by the Shiba Runtime session.",
            default: DEFAULT_RUNTIME_WORK_MEM_KB,
            minimum: MIN_RUNTIME_WORK_MEM_KB,
            maximum: MAX_RUNTIME_WORK_MEM_KB,
            unit: SettingUnit::Kilobytes,
        },
        IntegerSetting {
            name: "shiba.runtime_temp_file_limit",
            summary: "Maximum temporary-file space available to the Shiba Runtime.",
            details: "Sets the PostgreSQL temp_file_limit used by the Shiba Runtime session.",
            default: DEFAULT_RUNTIME_TEMP_FILE_LIMIT_KB,
            minimum: MIN_RUNTIME_TEMP_FILE_LIMIT_KB,
            maximum: MAX_RUNTIME_TEMP_FILE_LIMIT_KB,
            unit: SettingUnit::Kilobytes,
        },
        IntegerSetting {
            name: "shiba.max_cached_dataflows",
            summary: "Maximum number of loaded dataflows cached by the Shiba Runtime.",
            details: "Older loaded dataflows are deterministically evicted and rebuilt from durable state when needed.",
            default: DEFAULT_MAX_CACHED_DATAFLOWS,
            minimum: MIN_MAX_CACHED_DATAFLOWS,
            maximum: MAX_MAX_CACHED_DATAFLOWS,
            unit: SettingUnit::Count,
        },
        IntegerSetting {
            name: "shiba.stage_chunk_rows",
            summary: "Target number of input and output rows processed by one operator step.",
            details: "A single indivisible row may exceed this target and occupy one step.",
            default: DEFAULT_STAGE_CHUNK_ROWS,
            minimum: MIN_STAGE_CHUNK_ROWS,
            maximum: MAX_STAGE_CHUNK_ROWS,
            unit: SettingUnit::Count,
        },
        IntegerSetting {
            name: "shiba.stage_chunk_bytes",
            summary: "Target input and output bytes processed by one operator step.",
            details: "A single indivisible row may exceed this target and occupy one step.",
            default: DEFAULT_STAGE_CHUNK_BYTES,
            minimum: MIN_STAGE_CHUNK_BYTES,
            maximum: MAX_STAGE_CHUNK_BYTES,
            unit: SettingUnit::Bytes,
        },
        IntegerSetting {
            name: "shiba.stage_admission_rows",
            summary: "Initial cumulative-row threshold for Aggregate, Window, and TopN Drain.",
            details: "Threshold intervals grow geometrically to a fixed cap; each Apply step remains bounded by shiba.stage_chunk_rows.",
            default: DEFAULT_STAGE_ADMISSION_ROWS,
            minimum: MIN_STAGE_ADMISSION_ROWS,
            maximum: MAX_STAGE_ADMISSION_ROWS,
            unit: SettingUnit::Count,
        },
        IntegerSetting {
            name: "shiba.stage_admission_bytes",
            summary: "Initial cumulative-byte threshold for Aggregate, Window, and TopN Drain.",
            details: "Threshold intervals grow geometrically to a fixed cap; each Apply step remains bounded by shiba.stage_chunk_bytes.",
            default: DEFAULT_STAGE_ADMISSION_BYTES,
            minimum: MIN_STAGE_ADMISSION_BYTES,
            maximum: MAX_STAGE_ADMISSION_BYTES,
            unit: SettingUnit::Bytes,
        },
        IntegerSetting {
            name: "shiba.ingress_batch_rows",
            summary: "Target maximum row images in one persisted ingress batch.",
            details: "One individual replication message or tuple remains indivisible.",
            default: DEFAULT_INGRESS_BATCH_ROWS,
            minimum: MIN_INGRESS_BATCH_ROWS,
            maximum: MAX_INGRESS_BATCH_ROWS,
            unit: SettingUnit::Count,
        },
        IntegerSetting {
            name: "shiba.ingress_batch_bytes",
            summary: "Target maximum pgoutput payload bytes in one persisted ingress batch.",
            details: "One individual replication message or tuple may exceed this target.",
            default: DEFAULT_INGRESS_BATCH_BYTES,
            minimum: MIN_INGRESS_BATCH_BYTES,
            maximum: MAX_INGRESS_BATCH_BYTES,
            unit: SettingUnit::Bytes,
        },
        IntegerSetting {
            name: "shiba.ingress_staging_limit",
            summary: "Maximum decoded payload bytes retained by open source transactions.",
            details: "Shiba stops safely and retains WAL for replay instead of accepting an unbounded transaction.",
            default: DEFAULT_INGRESS_STAGING_LIMIT_KB,
            minimum: MIN_INGRESS_STAGING_LIMIT_KB,
            maximum: MAX_INGRESS_STAGING_LIMIT_KB,
            unit: SettingUnit::Kilobytes,
        },
        IntegerSetting {
            name: "shiba.max_cached_relations",
            summary: "Maximum pgoutput relation descriptors retained by one Shiba Runtime.",
            details: "The Runtime fails closed at this limit because evicting descriptors can misdecode tuples.",
            default: DEFAULT_MAX_CACHED_RELATIONS,
            minimum: MIN_MAX_CACHED_RELATIONS,
            maximum: MAX_MAX_CACHED_RELATIONS,
            unit: SettingUnit::Count,
        },
        IntegerSetting {
            name: "shiba.ingress_retention",
            summary: "Minimum retention after ingress transaction finalization.",
            details: "Replay-safe transactions remain inspectable for this duration before bounded GC.",
            default: DEFAULT_INGRESS_RETENTION_MS,
            minimum: MIN_INGRESS_RETENTION_MS,
            maximum: MAX_INGRESS_RETENTION_MS,
            unit: SettingUnit::Milliseconds,
        },
    ];
    assert(settings@ =~= registered());
    settings
}

/// The name of the setting with the parameters of the logical replication
/// connection, which only a superuser can read.
pub const REPLICATION_CONNINFO_SETTING: &'static str = "shiba.replication_conninfo";

pub const REPLICATION_CONNINFO_SUMMARY: &'static str =
    "libpq connection parameters for the logical replication connection.";

pub const REPLICATION_CONNINFO_DETAILS: &'static str =
    "Use passfile, certificate, or peer authentication; do not place an inline password here.";

/// Every default is inside its registered range, and no range admits a
/// negative value.
pub proof fn defaults_are_inside_registered_ranges()
    ensures
        forall|index: int|
            0 <= index < registered().len() ==> 0 <= (#[trigger] registered()[index]).minimum
                <= registered()[index].default <= registered()[index].maximum,
{
}

/// Whether PostgreSQL accepts a value for a setting of this range.
pub open spec fn in_range(value: i32, minimum: i32, maximum: i32) -> bool {
    minimum <= value <= maximum
}

/// The work memory of a Runtime query operation, from the value of its setting.
pub fn runtime_work_mem_kb(setting: i32) -> (kilobytes: i32)
    requires
        in_range(setting, MIN_RUNTIME_WORK_MEM_KB, MAX_RUNTIME_WORK_MEM_KB),
    ensures
        kilobytes == setting,
        kilobytes >= MIN_RUNTIME_WORK_MEM_KB,
{
    setting
}

/// The temporary-file space of the Runtime, from the value of its setting.
pub fn runtime_temp_file_limit_kb(setting: i32) -> (kilobytes: i32)
    requires
        in_range(setting, MIN_RUNTIME_TEMP_FILE_LIMIT_KB, MAX_RUNTIME_TEMP_FILE_LIMIT_KB),
    ensures
        kilobytes == setting,
        kilobytes >= MIN_RUNTIME_TEMP_FILE_LIMIT_KB,
{
    setting
}

/// The loaded dataflows that the Runtime caches at most, from the value of its setting.
pub fn max_cached_dataflows(setting: i32) -> (value: usize)
    requires
        in_range(setting, MIN_MAX_CACHED_DATAFLOWS, MAX_MAX_CACHED_DATAFLOWS),
    ensures
        value == setting,
        value > 0,
{
    setting as usize
}

/// The rows that one operator step aims at, from the value of its setting.
pub fn stage_chunk_rows(setting: i32) -> (value: usize)
    requires
        in_range(setting, MIN_STAGE_CHUNK_ROWS, MAX_STAGE_CHUNK_ROWS),
    ensures
        value == setting,
        value > 0,
{
    setting as usize
}

/// The bytes that one operator step aims at, from the value of its setting.
pub fn stage_chunk_bytes(setting: i32) -> (value: usize)
    requires
        in_range(setting, MIN_STAGE_CHUNK_BYTES, MAX_STAGE_CHUNK_BYTES),
    ensures
        value == setting,
        value > 0,
{
    setting as usize
}

/// The first cumulative-row threshold of a drain, from the value of its setting.
pub fn stage_admission_rows(setting: i32) -> (value: usize)
    requires
        in_range(setting, MIN_STAGE_ADMISSION_ROWS, MAX_STAGE_ADMISSION_ROWS),
    ensures
        value == setting,
        value > 0,
{
    setting as usize
}

/// The first cumulative-byte threshold of a drain, from the value of its setting.
pub fn stage_admission_bytes(setting: i32) -> (value: usize)
    requires
        in_range(setting, MIN_STAGE_ADMISSION_BYTES, MAX_STAGE_ADMISSION_BYTES),
    ensures
        value == setting,
        value > 0,
{
    setting as usize
}

/// The cap of the intervals between cumulative-row thresholds.
pub fn stage_admission_row_interval_cap() -> (cap: usize)
    ensures
        cap == MAX_STAGE_ADMISSION_ROWS,
{
    MAX_STAGE_ADMISSION_ROWS as usize
}

/// The cap of the intervals between cumulative-byte thresholds.
pub fn stage_admission_byte_interval_cap() -> (cap: usize)
    ensures
        cap == MAX_STAGE_ADMISSION_BYTES,
{
    MAX_STAGE_ADMISSION_BYTES as usize
}

/// The row images that one persisted ingress batch aims at, from the value of its setting.
pub fn ingress_batch_rows(setting: i32) -> (value: usize)
    requires
        in_range(setting, MIN_INGRESS_BATCH_ROWS, MAX_INGRESS_BATCH_ROWS),
    ensures
        value == setting,
        value > 0,
{
    setting as usize
}

/// The payload bytes that one persisted ingress batch aims at, from the value of its setting.
pub fn ingress_batch_bytes(setting: i32) -> (value: usize)
    requires
        in_range(setting, MIN_INGRESS_BATCH_BYTES, MAX_INGRESS_BATCH_BYTES),
    ensures
        value == setting,
        value > 0,
{
    setting as usize
}

/// The relation descriptors that one Runtime retains at most, from the value of its setting.
pub fn max_cached_relations(setting: i32) -> (value: usize)
    requires
        in_range(setting, MIN_MAX_CACHED_RELATIONS, MAX_MAX_CACHED_RELATIONS),
    ensures
        value == setting,
        value > 0,
{
    setting as usize
}

/// A size in the unambiguous unit that PostgreSQL reads.
pub fn format_kilobytes(value: i32) -> (text: String)
    requires
        value >= 0,
    ensures
        text@ == text::decimal(value as int) + "kB"@,
{
    signed_text(value as i64).concat("kB")
}

} // verus!
