//! What a step of a stage may do: what it takes in and lets out, and how it
//! ends.

use vstd::prelude::*;

use crate::execution::continuation::Attribute;
use crate::execution::contract::{
    KernelCompletion, KernelPhase, OutputFacts, PageFacts, PrimitiveFacts,
};
use crate::execution::dispatcher::{self, Kernel};
use crate::execution::stream;
use crate::planner::{Operator, SlotType, WorkBudget, WorkUsage};

verus! {

/// Whether rows and bytes stay within their bounds, where a single row may have
/// any size.
pub open spec fn within(rows: u64, bytes: u64, max_rows: usize, max_bytes: usize) -> bool {
    rows <= max_rows && (bytes <= max_bytes || rows == 1)
}

/// A step fits its budget exactly when its input and its output do.
pub proof fn usage_fits_by_input_and_output(usage: WorkUsage, budget: WorkBudget)
    ensures
        usage.fits(budget) is Ok <==> within(
            usage.input_rows,
            usage.input_bytes,
            budget.max_input_rows,
            budget.max_input_bytes,
        ) && within(
            usage.output_rows,
            usage.output_bytes,
            budget.max_output_rows,
            budget.max_output_bytes,
        ),
{
}

/// A page has a cursor exactly when it read rows, except that a last page may
/// do without.
pub proof fn pages_have_a_cursor_behind_their_rows(page: PageFacts, budget: WorkBudget)
    ensures
        page.sound(budget) is Ok <==> {
            &&& page.usage.fits(budget) is Ok
            &&& page.last_row_id is Some ==> page.usage.input_rows > 0
            &&& page.usage.input_rows > 0 && page.last_row_id is None ==> page.complete
        },
{
}

/// A step is sound when it fits its budget, keeps at most one continuation, and
/// has a chunk for its rows: data has rows, a frontier has none, and without a
/// chunk there are none.
pub proof fn rows_go_out_in_chunks(facts: PrimitiveFacts, budget: WorkBudget)
    ensures
        facts.sound(budget) is Ok <==> {
            &&& facts.usage.fits(budget) is Ok
            &&& facts.continuation_rows <= 1
            &&& facts.output is Nothing ==> facts.usage.output_rows == 0
            &&& facts.output matches OutputFacts::Data { chunk_seq } ==> chunk_seq > 0
                && facts.usage.output_rows > 0
            &&& facts.output matches OutputFacts::Frontier { chunk_seq } ==> chunk_seq > 0
                && facts.usage.output_rows == 0 && facts.usage.output_bytes == 0
        },
{
}

/// A step follows the protocol when it leaves a continuation exactly where it
/// goes on, and lets a frontier out exactly in its phase and at its end.
pub proof fn frontiers_go_out_at_the_end(
    facts: PrimitiveFacts,
    budget: WorkBudget,
    phase: KernelPhase,
    completion: KernelCompletion,
)
    ensures
        facts.follows_protocol(budget, phase, completion) is Ok <==> {
            &&& facts.sound(budget) is Ok
            &&& completion is Continue <==> facts.continuation_rows == 1
            &&& completion is Finished <==> facts.continuation_rows == 0
            &&& facts.output is Frontier ==> phase is Frontier && completion is Finished
            &&& facts.output is Data ==> !(phase is Frontier)
        },
{
}

/// Every operator has a kernel of its own, except that filters and projections
/// share one.
pub proof fn operators_have_their_kernels(one: Operator, other: Operator)
    ensures
        dispatcher::kernel_of(one) == dispatcher::kernel_of(other) <==> one == other || (
        one is Filter || one is Project) && (other is Filter || other is Project),
        dispatcher::kernel_of(Operator::Scan) is Scan,
        dispatcher::kernel_of(Operator::Filter) is Transform,
        dispatcher::kernel_of(Operator::Distinct) is Distinct,
        dispatcher::kernel_of(Operator::Sink) is Sink,
        dispatcher::kernel_of(Operator::Join) is Join,
        dispatcher::kernel_of(Operator::Aggregate) is Aggregate,
        dispatcher::kernel_of(Operator::Window) is Window,
        dispatcher::kernel_of(Operator::TopN) is TopN,
{
}

/// A stage is the one at its place in the dataflow.
pub proof fn stage_is_found_at_its_place(stage_id: u32, stages: Seq<Operator>, owner: Seq<char>)
    ensures
        match dispatcher::located(stage_id, stages, owner) {
            Ok(operator) => stage_id < stages.len() && operator == stages[stage_id as int],
            Err(_) => stage_id >= stages.len(),
        },
{
}

/// A scan reads a source, a join reads two operators, and every other kernel
/// that runs reads one; all of them end with a frontier, and the ones that
/// collect drain what they collected.
pub proof fn kernels_declare_what_they_read(kernel: Kernel)
    ensures
        match dispatcher::inputs_of(kernel) {
            Some(inputs) => {
                &&& inputs.len() == if kernel is Join {
                    2int
                } else {
                    1int
                }
                &&& forall|index: int|
                    0 <= index < inputs.len() ==> (#[trigger] inputs[index] is Source
                        <==> kernel is Scan)
            },
            None => kernel is Sink || kernel is Window || kernel is TopN,
        },
        match dispatcher::phases_of(kernel) {
            Some(phases) => {
                &&& phases.len() > 0 && phases.last() is Frontier
                &&& forall|index: int|
                    0 <= index < phases.len() - 1 ==> !(#[trigger] phases[index] is Frontier)
                &&& phases.contains(KernelPhase::Drain) <==> kernel is Distinct || kernel is Aggregate
                &&& phases.contains(KernelPhase::Admit) <==> !(kernel is Join)
                &&& phases.contains(KernelPhase::Process) <==> kernel is Scan || kernel is Transform
                    || kernel is Join
            },
            None => kernel is Sink || kernel is Window || kernel is TopN,
        },
{
    if let Some(phases) = dispatcher::phases_of(kernel) {
        assert(phases[0] == phases[0]);
        assert(phases[1] == phases[1]);
        if kernel is Distinct || kernel is Aggregate {
            assert(phases[0] is Admit && phases[1] is Drain && phases[2] is Frontier);
        } else if kernel is Join {
            assert(phases[0] is Process && phases[1] is Frontier);
        } else {
            assert(phases[0] is Admit && phases[1] is Process && phases[2] is Frontier);
        }
    }
}

/// A column holds the values of a slot exactly when it is of the same type, to
/// the letter.
pub proof fn columns_hold_slots_of_their_type(attribute: Attribute, slot: SlotType)
    ensures
        stream::matches_slot(attribute, slot) <==> attribute.type_oid == slot.type_oid
            && attribute.typmod == slot.typmod && attribute.collation_oid == slot.collation_oid,
{
}

} // verus!
