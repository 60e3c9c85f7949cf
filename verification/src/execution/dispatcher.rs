//! One closed dispatcher for every operator step.

use vstd::prelude::*;

use crate::execution::aggregate::machine::AggregatePhase;
use crate::execution::contract::KernelPhase;
use crate::execution::distinct::machine::DistinctPhase;
use crate::execution::linear::opening::{ScanTask, TransformTask};
use crate::planner::Operator;
use crate::text::{self, unsigned_text};

verus! {

/// The kernel that steps a stage.
#[derive(Clone, Copy, Debug, PartialEq, Eq, Structural)]
pub enum Kernel {
    Scan,
    Transform,
    Distinct,
    Sink,
    Join,
    Aggregate,
    Window,
    TopN,
}

/// The kernel of an operator: filters and projections share one.
pub open spec fn kernel_of(operator: Operator) -> Kernel {
    match operator {
        Operator::Scan => Kernel::Scan,
        Operator::Filter => Kernel::Transform,
        Operator::Project => Kernel::Transform,
        Operator::Distinct => Kernel::Distinct,
        Operator::Sink => Kernel::Sink,
        Operator::Join => Kernel::Join,
        Operator::Aggregate => Kernel::Aggregate,
        Operator::Window => Kernel::Window,
        Operator::TopN => Kernel::TopN,
    }
}

pub fn kernel(operator: Operator) -> (kernel: Kernel)
    ensures
        kernel == kernel_of(operator),
{
    match operator {
        Operator::Scan => Kernel::Scan,
        Operator::Filter => Kernel::Transform,
        Operator::Project => Kernel::Transform,
        Operator::Distinct => Kernel::Distinct,
        Operator::Sink => Kernel::Sink,
        Operator::Join => Kernel::Join,
        Operator::Aggregate => Kernel::Aggregate,
        Operator::Window => Kernel::Window,
        Operator::TopN => Kernel::TopN,
    }
}

/// A stage of a dataflow by its identifier. `owner` names the kernel that
/// asks, with a space behind it, or nothing.
pub open spec fn located(stage_id: u32, stages: Seq<Operator>, owner: Seq<char>) -> Result<
    Operator,
    Seq<char>,
> {
    if stage_id < stages.len() {
        Ok(stages[stage_id as int])
    } else {
        Err("dataflow has no "@ + owner + "stage "@ + text::decimal(stage_id as int))
    }
}

pub fn locate_stage(stage_id: u32, stages: &Vec<Operator>, owner: &str) -> (outcome: Result<
    Operator,
    String,
>)
    ensures
        text::agrees(outcome, located(stage_id, stages@, owner@)),
{
    let index: usize = stage_id as usize;
    if index < stages.len() {
        return Ok(stages[index]);
    }
    let mut message = "dataflow has no ".to_owned();
    message.append(owner);
    message.append("stage ");
    message.append(unsigned_text(stage_id as u64).as_str());
    Err(message)
}

/// Selects the kernel that steps a stage of a dataflow.
pub fn dispatch(stage_id: u32, stages: &Vec<Operator>) -> (outcome: Result<Kernel, String>)
    ensures
        text::agrees(
            outcome,
            match located(stage_id, stages@, ""@) {
                Ok(operator) => Ok(kernel_of(operator)),
                Err(message) => Err(message),
            },
        ),
{
    Ok(kernel(locate_stage(stage_id, stages, "")?))
}

/// What feeds an input of a kernel.
#[derive(Clone, Copy, Debug, PartialEq, Eq, Structural)]
pub enum InputContract {
    Source,
    Operator,
}

/// The inputs that a kernel reads, in the order of their ports, and the phases
/// that its transitions may be in. Its output is a stream of effects.
#[derive(Clone, Debug, PartialEq, Eq)]
pub struct KernelContract {
    pub inputs: Vec<InputContract>,
    pub phases: Vec<KernelPhase>,
}

/// The inputs of a kernel, or `None` for one that is defined elsewhere.
pub open spec fn inputs_of(kernel: Kernel) -> Option<Seq<InputContract>> {
    match kernel {
        Kernel::Scan => Some(seq![InputContract::Source]),
        Kernel::Transform | Kernel::Distinct | Kernel::Aggregate => Some(
            seq![InputContract::Operator],
        ),
        Kernel::Join => Some(seq![InputContract::Operator, InputContract::Operator]),
        _ => None,
    }
}

/// The phases of a kernel: linear kernels process what they admit, Distinct
/// and Aggregate queue it and drain it, and a Join processes row by row.
pub open spec fn phases_of(kernel: Kernel) -> Option<Seq<KernelPhase>> {
    match kernel {
        Kernel::Scan | Kernel::Transform => Some(
            seq![KernelPhase::Admit, KernelPhase::Process, KernelPhase::Frontier],
        ),
        Kernel::Distinct | Kernel::Aggregate => Some(
            seq![KernelPhase::Admit, KernelPhase::Drain, KernelPhase::Frontier],
        ),
        Kernel::Join => Some(seq![KernelPhase::Process, KernelPhase::Frontier]),
        _ => None,
    }
}

pub fn kernel_contract(kernel: Kernel) -> (contract: Option<KernelContract>)
    ensures
        match contract {
            Some(contract) => inputs_of(kernel) == Some(contract.inputs@) && phases_of(kernel)
                == Some(contract.phases@),
            None => inputs_of(kernel) is None && phases_of(kernel) is None,
        },
{
    let inputs: Vec<InputContract> = match kernel {
        Kernel::Scan => vec![InputContract::Source],
        Kernel::Transform | Kernel::Distinct | Kernel::Aggregate => vec![InputContract::Operator],
        Kernel::Join => vec![InputContract::Operator, InputContract::Operator],
        _ => return None,
    };
    let phases: Vec<KernelPhase> = match kernel {
        Kernel::Scan | Kernel::Transform => vec![
            KernelPhase::Admit,
            KernelPhase::Process,
            KernelPhase::Frontier,
        ],
        Kernel::Distinct | Kernel::Aggregate => vec![
            KernelPhase::Admit,
            KernelPhase::Drain,
            KernelPhase::Frontier,
        ],
        _ => vec![KernelPhase::Process, KernelPhase::Frontier],
    };
    assert(inputs@ =~= inputs_of(kernel)->0);
    assert(phases@ =~= phases_of(kernel)->0);
    Some(KernelContract { inputs, phases })
}

/// Every phase that a Distinct can be in is one that its kernel declares.
pub proof fn distinct_phases_are_declared(phase: DistinctPhase)
    ensures
        phases_of(Kernel::Distinct)->0.contains(phase.lifecycle()),
{
    let phases = phases_of(Kernel::Distinct)->0;
    assert(phases[0] == KernelPhase::Admit);
    assert(phases[1] == KernelPhase::Drain);
    assert(phases[2] == KernelPhase::Frontier);
}

/// Every phase that an Aggregate can be in is one that its kernel declares.
pub proof fn aggregate_phases_are_declared(phase: AggregatePhase)
    ensures
        phases_of(Kernel::Aggregate)->0.contains(phase.lifecycle()),
{
    let phases = phases_of(Kernel::Aggregate)->0;
    assert(phases[0] == KernelPhase::Admit);
    assert(phases[1] == KernelPhase::Drain);
    assert(phases[2] == KernelPhase::Frontier);
}

/// Every task of a Scan is reported in a phase that its kernel declares.
pub proof fn scan_phases_are_declared(task: ScanTask)
    ensures
        phases_of(Kernel::Scan)->0.contains(task.lifecycle()),
{
    let phases = phases_of(Kernel::Scan)->0;
    assert(phases[0] == KernelPhase::Admit);
    assert(phases[1] == KernelPhase::Process);
    assert(phases[2] == KernelPhase::Frontier);
}

/// Every task of a Filter or Project is reported in a phase that its kernel
/// declares.
pub proof fn transform_phases_are_declared(task: TransformTask)
    ensures
        phases_of(Kernel::Transform)->0.contains(task.lifecycle()),
{
    let phases = phases_of(Kernel::Transform)->0;
    assert(phases[0] == KernelPhase::Admit);
    assert(phases[1] == KernelPhase::Process);
    assert(phases[2] == KernelPhase::Frontier);
}

} // verus!
