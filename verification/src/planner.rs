//! Work budgets, work usage, and the parts of a dataflow plan that stage
//! control reads.

use vstd::prelude::*;

verus! {

/// The most input and output one bounded transition may touch.
#[derive(Clone, Copy, Debug, PartialEq, Eq, Structural)]
pub struct WorkBudget {
    pub max_input_rows: usize,
    pub max_input_bytes: usize,
    pub max_output_rows: usize,
    pub max_output_bytes: usize,
}

impl WorkBudget {
    pub fn new(
        max_input_rows: usize,
        max_input_bytes: usize,
        max_output_rows: usize,
        max_output_bytes: usize,
    ) -> (budget: Self)
        ensures
            budget == (WorkBudget {
                max_input_rows,
                max_input_bytes,
                max_output_rows,
                max_output_bytes,
            }),
    {
        Self { max_input_rows, max_input_bytes, max_output_rows, max_output_bytes }
    }
}

/// The input and output one bounded transition did touch.
#[derive(Clone, Copy, Debug, PartialEq, Eq, Structural)]
pub struct WorkUsage {
    pub input_rows: u64,
    pub input_bytes: u64,
    pub output_rows: u64,
    pub output_bytes: u64,
}

/// No work at all.
pub open spec fn no_usage() -> WorkUsage {
    WorkUsage { input_rows: 0, input_bytes: 0, output_rows: 0, output_bytes: 0 }
}

impl Default for WorkUsage {
    fn default() -> (usage: Self)
        ensures
            usage == no_usage(),
    {
        Self { input_rows: 0, input_bytes: 0, output_rows: 0, output_bytes: 0 }
    }
}

impl WorkUsage {
    /// Whether the transition touched nothing.
    pub fn is_empty(self) -> (empty: bool)
        ensures
            empty == (self == no_usage()),
    {
        self.input_rows == 0 && self.input_bytes == 0 && self.output_rows == 0
            && self.output_bytes == 0
    }
}

/// The PostgreSQL type of one slot of a plan.
#[derive(Clone, Copy, Debug, PartialEq, Eq, Structural)]
pub struct SlotType {
    pub type_oid: u32,
    pub typmod: i32,
    pub collation_oid: u32,
    pub nullable: bool,
}

/// One input column that the expressions of a stage can name.
#[derive(Clone, Copy, Debug, PartialEq, Eq, Structural)]
pub struct BindingId(pub u32);

/// One slot of the rows between two stages.
#[derive(Clone, Copy, Debug, PartialEq, Eq, Structural)]
pub struct SlotId(pub u32);

/// A scalar expression of a plan.
#[derive(Clone, Copy, Debug, PartialEq, Eq, Structural)]
pub enum ScalarExpr {
    Input { binding: BindingId },
    /// A computed value, by its number among the plan's distinct expressions.
    Computed { expression: u32 },
}

/// One sort or grouping key, with the operators that order and compare it.
#[derive(Clone, Copy, Debug, PartialEq, Eq, Structural)]
pub struct SortGroupExpr {
    pub expr: ScalarExpr,
    pub type_: SlotType,
    pub equality_operator_oid: u32,
    pub sort_operator_oid: u32,
    pub nulls_first: bool,
    pub hashable: bool,
}

/// One aggregate call of an Aggregate stage.
#[derive(Clone, Debug, PartialEq, Eq)]
pub struct AggregateExpr {
    pub ref_id: u32,
    pub output: SlotId,
    pub function_oid: u32,
    pub input_collation_oid: u32,
    pub args: Vec<ScalarExpr>,
    pub direct_args: Vec<ScalarExpr>,
    pub distinct: Vec<SortGroupExpr>,
    pub filter: Option<ScalarExpr>,
    pub order_by: Vec<SortGroupExpr>,
    pub type_: SlotType,
}

/// One output slot of a stage.
#[derive(Clone, Copy, Debug, PartialEq, Eq, Structural)]
pub struct OutputSlot {
    pub slot: u32,
    pub type_: SlotType,
}

/// One source column of a Scan and the slot that it fills.
#[derive(Clone, Copy, Debug, PartialEq, Eq, Structural)]
pub struct ScanColumn {
    pub output: u32,
    pub attnum: i16,
}

/// The operators that a stage can run.
#[derive(Clone, Copy, Debug, PartialEq, Eq, Structural)]
pub enum Operator {
    Scan,
    Filter,
    Project,
    Distinct,
    Sink,
    Join,
    Aggregate,
    Window,
    TopN,
}

} // verus!
