//! One transition of a Join stage, request by request: from the cursor that it
//! found to the output, the consumer move and the cursor that it leaves.

use vstd::prelude::*;

use crate::execution::contract::KernelPhase;
use crate::execution::join::layout::Layout;
use crate::execution::join::opening::{
    ForwardClose, ForwardPlan, ForwardState, Inputs, OpenState,
};
use crate::execution::join::pages::{self, effective_budget};
use crate::execution::join::planner::{
    self, plan_actions, plan_finalize, ActionPlan, ActionPlanModel, CandidateStateChange,
    FinalizePlan, InputPositions, InputProgress, InputSide, JoinContinuation, OutputAction,
    OwnExpectation,
};
use crate::execution::join::publishing::{
    self, OwnPlan, OwnState, PublishModel, PublishPlan, PublishState, Published, RowsModel,
};
use crate::execution::join::reading::{
    self, probe_page, EventPlan, EventRead, EventState, ProbePlan, ProbeState, Probed, ProjectPlan,
    ProjectState, Projected,
};
use crate::execution::join::statements::{self, compose_actions, ActionRows, ExpectedOutput};
use crate::execution::join::step::{
    self, after_finalize, after_preflight, candidate_progress, close_candidates, close_finalize,
    mode, probe_own, FinalizeNext, FinalizeStart, JoinKind, JoinTransition, OpenedInput,
};
use crate::execution::stream::{InputAdvance, OutputAppend, OutputState};
use crate::planner::WorkBudget;
use crate::session::{Progress, ProgressModel, Reply};
use crate::text;

verus! {

/// The transitions that one step may take.
pub const TRANSITIONS: usize = 64;

/// A text for either side.
#[derive(Clone, Copy, Debug, PartialEq, Eq)]
pub struct SideTexts<'a> {
    pub left: &'a str,
    pub right: &'a str,
}

impl<'a> SideTexts<'a> {
    pub open spec fn of(self, side: InputSide) -> &'a str {
        match side {
            InputSide::Left => self.left,
            InputSide::Right => self.right,
        }
    }

    pub fn get(&self, side: InputSide) -> (text: &'a str)
        ensures
            text == self.of(side),
    {
        match side {
            InputSide::Left => self.left,
            InputSide::Right => self.right,
        }
    }
}

/// What a transition works with.
pub struct TransitionPlan<'a> {
    pub layout: &'a Layout,
    pub inputs: Inputs,
    pub output: OutputState,
    pub budget: WorkBudget,
    pub kind: JoinKind,
    /// The canonical keys of the rows `input_row.row_value`.
    pub input_keys: SideTexts<'a>,
    /// The canonical keys of the rows `left_row.row_value` and
    /// `right_row.row_value`.
    pub row_keys: SideTexts<'a>,
}

/// What a transition waits for.
#[derive(Clone, Debug, PartialEq, Eq)]
pub enum TransitionState {
    Opening { inner: OpenState },
    Preflight { positions: InputPositions, side: InputSide, inner: EventState },
    Reading { continuation: JoinContinuation, progress: InputProgress, inner: EventState },
    Probing { continuation: JoinContinuation, read: EventRead, probe: Probe, inner: ProbeState },
    Publishing {
        continuation: JoinContinuation,
        read: EventRead,
        budget: WorkBudget,
        probed: Probed,
        inner: PublishState,
    },
    Owning { continuation: JoinContinuation, progress: InputProgress, inner: EventState },
    Projecting {
        continuation: JoinContinuation,
        read: EventRead,
        own: OwnExpectation,
        inner: ProjectState,
    },
    Emitting { read: EventRead, start: FinalizeStart, plan: FinalizePlan, inner: PublishState },
    Changing {
        read: EventRead,
        start: FinalizeStart,
        plan: FinalizePlan,
        append: Option<OutputAppend>,
        inner: OwnState,
    },
    Forwarding { continuation: JoinContinuation, inner: ForwardState },
}

/// What a probe started from.
#[derive(Clone, Copy, Debug, PartialEq, Eq, Structural)]
pub struct Probe {
    pub progress: InputProgress,
    pub budget: WorkBudget,
}

/// The move of the consumer of one side.
#[derive(Clone, Copy, Debug, PartialEq, Eq, Structural)]
pub struct SideAdvance {
    pub side: InputSide,
    pub advance: InputAdvance,
}

/// What a transition leaves to be recorded: its output, the consumer that it
/// moved, and its next cursor.
#[derive(Clone, Copy, Debug, PartialEq, Eq, Structural)]
pub struct TransitionClose {
    pub transition: JoinTransition,
    pub append: Option<OutputAppend>,
    pub advance: Option<SideAdvance>,
    pub next: Option<JoinContinuation>,
}

impl TransitionClose {
    /// A transition that only moves the cursor.
    pub open spec fn cursor(next: JoinContinuation) -> TransitionClose {
        TransitionClose {
            transition: JoinTransition::control(KernelPhase::Process),
            append: None,
            advance: None,
            next: Some(next),
        }
    }
}

fn moved(next: JoinContinuation) -> (close: TransitionClose)
    ensures
        close == TransitionClose::cursor(next),
{
    TransitionClose {
        transition: JoinTransition::control(KernelPhase::Process),
        append: None,
        advance: None,
        next: Some(next),
    }
}

fn action_list(action: Option<OutputAction>) -> (list: Vec<OutputAction>)
    ensures
        list@ == planner::option_seq(action),
{
    let mut list: Vec<OutputAction> = Vec::new();
    if let Some(action) = action {
        list.push(action);
    }
    assert(list@ =~= planner::option_seq(action));
    list
}

/// The rows of a list of actions, where there are any.
pub open spec fn composed(
    layout: Layout,
    read: EventRead,
    actions: Seq<OutputAction>,
) -> Result<Option<RowsModel>, Seq<char>> {
    if actions.len() == 0 {
        Ok(None)
    } else {
        text::guarded(
            statements::actions_append(actions, read.event),
            Some(
                RowsModel {
                    sql: statements::action_rows(layout, read.event, actions),
                    expected: ExpectedOutput {
                        rows: actions.len() as u64,
                        bytes: planner::action_bytes(actions) as u64,
                    },
                },
            ),
        )
    }
}

fn compose(layout: &Layout, read: &EventRead, actions: &[OutputAction]) -> (outcome: Result<
    Option<ActionRows>,
    String,
>)
    ensures
        match (outcome, composed(*layout, *read, actions@)) {
            (Ok(Some(rows)), Ok(Some(expected))) => rows.sql@ == expected.sql && rows.expected
                == expected.expected,
            (Ok(None), Ok(None)) => true,
            (Err(error), Err(message)) => error@ == message,
            _ => false,
        },
{
    if actions.len() == 0 {
        return Ok(None);
    }
    let rows = compose_actions(layout, &read.event, actions)?;
    Ok(Some(rows))
}

impl<'a> TransitionPlan<'a> {
    pub open spec fn event(
        self,
        positions: InputPositions,
        side: InputSide,
        owned: bool,
    ) -> EventPlan<'a> {
        EventPlan {
            layout: self.layout,
            inputs: self.inputs,
            positions,
            side,
            row_key: if owned {
                Some(self.input_keys.of(side))
            } else {
                None
            },
        }
    }

    fn event_plan(&self, positions: InputPositions, side: InputSide, owned: bool) -> (plan:
        EventPlan<'a>)
        ensures
            plan == self.event(positions, side, owned),
    {
        EventPlan {
            layout: self.layout,
            inputs: self.inputs,
            positions,
            side,
            row_key: if owned {
                Some(self.input_keys.get(side))
            } else {
                None
            },
        }
    }

    pub open spec fn forward(self, continuation: JoinContinuation) -> ForwardPlan {
        ForwardPlan {
            inputs: self.inputs,
            output: self.output,
            budget: self.budget,
            continuation,
        }
    }

    /// The first request of the transition that a cursor is due for: without a
    /// cursor, an input is opened.
    pub open spec fn opening(self, stored: Option<JoinContinuation>) -> Result<
        ProgressModel<TransitionState, TransitionClose>,
        Seq<char>,
    > {
        match stored {
            None => Ok(self.opens(self.inputs.opening())),
            Some(JoinContinuation::Preflight { positions, side }) => match positions.sound() {
                Err(message) => Err(message),
                Ok(()) => self.preflights(
                    positions,
                    side,
                    self.event(positions, side, true).opening(),
                ),
            },
            Some(continuation) => match continuation {
                JoinContinuation::Finalize(progress) => self.owns(
                    continuation,
                    progress,
                    self.event(progress.positions, progress.side, true).opening(),
                ),
                JoinContinuation::Frontier(_) => self.forwards(
                    continuation,
                    self.forward(continuation).opening(),
                ),
                _ => match step::progress_read(continuation) {
                    Err(message) => Err(message),
                    Ok(progress) => self.reads(
                        continuation,
                        progress,
                        self.event(progress.positions, progress.side, false).opening(),
                    ),
                },
            },
        }
    }

    /// An input that opened leaves its cursor.
    pub open spec fn opens(
        self,
        progress: ProgressModel<OpenState, OpenedInput>,
    ) -> ProgressModel<TransitionState, TransitionClose> {
        match progress {
            ProgressModel::Ask { state, request } => ProgressModel::Ask {
                state: TransitionState::Opening { inner: state },
                request,
            },
            ProgressModel::Done(opened) => ProgressModel::Done(
                TransitionClose::cursor(opened.continuation),
            ),
        }
    }

    /// An event that was read with its own row leaves the cursor of its probe.
    pub open spec fn preflights(
        self,
        positions: InputPositions,
        side: InputSide,
        outcome: Result<ProgressModel<EventState, EventRead>, Seq<char>>,
    ) -> Result<ProgressModel<TransitionState, TransitionClose>, Seq<char>> {
        match outcome {
            Err(message) => Err(message),
            Ok(ProgressModel::Ask { state, request }) => Ok(
                ProgressModel::Ask {
                    state: TransitionState::Preflight { positions, side, inner: state },
                    request,
                },
            ),
            Ok(ProgressModel::Done(read)) => match JoinContinuation::opened(
                read.event,
                read.own->0,
            ) {
                Err(message) => Err(message),
                Ok(next) => Ok(ProgressModel::Done(TransitionClose::cursor(next))),
            },
        }
    }

    /// An event that was read again is probed from where its fanout stands.
    pub open spec fn reads(
        self,
        continuation: JoinContinuation,
        progress: InputProgress,
        outcome: Result<ProgressModel<EventState, EventRead>, Seq<char>>,
    ) -> Result<ProgressModel<TransitionState, TransitionClose>, Seq<char>> {
        match outcome {
            Err(message) => Err(message),
            Ok(ProgressModel::Ask { state, request }) => Ok(
                ProgressModel::Ask {
                    state: TransitionState::Reading { continuation, progress, inner: state },
                    request,
                },
            ),
            Ok(ProgressModel::Done(read)) => match continuation.input_resumes(read.event) {
                Err(message) => Err(message),
                Ok(()) => match pages::clamped(self.budget, self.output) {
                    Err(message) => Err(message),
                    Ok(budget) => self.probes(
                        continuation,
                        read,
                        Probe { progress, budget },
                        self.probe(read, Probe { progress, budget }).opening(),
                    ),
                },
            },
        }
    }

    pub open spec fn probe(self, read: EventRead, probe: Probe) -> ProbePlan<'a> {
        ProbePlan {
            layout: self.layout,
            mode: step::mode_of(self.kind),
            progress: probe.progress,
            event: read.event,
            budget: probe.budget,
        }
    }

    /// Probed candidates are planned, and what is planned is published.
    pub open spec fn probes(
        self,
        continuation: JoinContinuation,
        read: EventRead,
        probe: Probe,
        outcome: Result<ProgressModel<ProbeState, Probed>, Seq<char>>,
    ) -> Result<ProgressModel<TransitionState, TransitionClose>, Seq<char>> {
        match outcome {
            Err(message) => Err(message),
            Ok(ProgressModel::Ask { state, request }) => Ok(
                ProgressModel::Ask {
                    state: TransitionState::Probing { continuation, read, probe, inner: state },
                    request,
                },
            ),
            Ok(ProgressModel::Done(probed)) => match self.planned(
                continuation,
                read,
                probe.budget,
                probed,
            ) {
                Err(message) => Err(message),
                Ok(plan) => match self.publication(read, plan) {
                    Err(message) => Err(message),
                    Ok(publication) => self.publishes(
                        continuation,
                        read,
                        probe.budget,
                        probed,
                        plan,
                        Ok(publication.opening()),
                    ),
                },
            },
        }
    }

    /// The plan of probed candidates.
    pub open spec fn planned(
        self,
        continuation: JoinContinuation,
        read: EventRead,
        budget: WorkBudget,
        probed: Probed,
    ) -> Result<ActionPlanModel, Seq<char>> {
        match reading::page_sound(probed.rows@, probed.complete) {
            Err(message) => Err(message),
            Ok(()) => planner::planned(
                step::mode_of(self.kind),
                continuation,
                read.event,
                statements::candidates_of(reading::candidate_rows(probed.rows@)),
                probed.complete,
                budget,
            ),
        }
    }

    fn plan(
        &self,
        continuation: &JoinContinuation,
        read: &EventRead,
        budget: WorkBudget,
        probed: &Probed,
    ) -> (outcome: Result<ActionPlan, String>)
        ensures
            text::agrees_view(outcome, self.planned(*continuation, *read, budget, *probed)),
    {
        let page = probe_page(probed)?;
        plan_actions(mode(self.kind), continuation, read.event, &page, budget)
    }

    /// What the publication of planned candidates writes.
    pub open spec fn publication(self, read: EventRead, plan: ActionPlanModel) -> Result<
        PublishModel,
        Seq<char>,
    > {
        match composed(*self.layout, read, plan.actions) {
            Err(message) => Err(message),
            Ok(rows) => Ok(
                PublishModel {
                    payload: self.layout.output_payload@,
                    output: self.output,
                    lsn: read.chunk.lsn,
                    rows,
                    state: self.layout.state_of(read.event.side.other()),
                    changes: plan.candidate_changes,
                },
            ),
        }
    }

    /// A published plan leaves the cursor that it planned.
    pub open spec fn publishes(
        self,
        continuation: JoinContinuation,
        read: EventRead,
        budget: WorkBudget,
        probed: Probed,
        plan: ActionPlanModel,
        outcome: Result<ProgressModel<PublishState, Published>, Seq<char>>,
    ) -> Result<ProgressModel<TransitionState, TransitionClose>, Seq<char>> {
        match outcome {
            Err(message) => Err(message),
            Ok(ProgressModel::Ask { state, request }) => Ok(
                ProgressModel::Ask {
                    state: TransitionState::Publishing {
                        continuation,
                        read,
                        budget,
                        probed,
                        inner: state,
                    },
                    request,
                },
            ),
            Ok(ProgressModel::Done(published)) => match step::candidates_closed(
                plan,
                published.changed,
                published.append,
            ) {
                Err(message) => Err(message),
                Ok(transition) => Ok(
                    ProgressModel::Done(
                        TransitionClose {
                            transition,
                            append: published.append,
                            advance: None,
                            next: Some(plan.next),
                        },
                    ),
                ),
            },
        }
    }

    /// An event whose fanout is finished is checked and read with its own row,
    /// and its own output is measured.
    pub open spec fn owns(
        self,
        continuation: JoinContinuation,
        progress: InputProgress,
        outcome: Result<ProgressModel<EventState, EventRead>, Seq<char>>,
    ) -> Result<ProgressModel<TransitionState, TransitionClose>, Seq<char>> {
        match outcome {
            Err(message) => Err(message),
            Ok(ProgressModel::Ask { state, request }) => text::guarded(
                match state {
                    EventState::Owning { event, .. } => continuation.input_resumes(event),
                    _ => Ok(()),
                },
                ProgressModel::Ask {
                    state: TransitionState::Owning { continuation, progress, inner: state },
                    request,
                },
            ),
            Ok(ProgressModel::Done(read)) => self.projects(
                continuation,
                read,
                read.own->0,
                self.project(continuation, read, read.own->0).opening(),
            ),
        }
    }

    pub open spec fn project(
        self,
        continuation: JoinContinuation,
        read: EventRead,
        own: OwnExpectation,
    ) -> ProjectPlan<'a> {
        ProjectPlan { layout: self.layout, kind: self.kind, continuation, event: read.event, own }
    }

    /// The end of an event is planned, and its output is published.
    pub open spec fn projects(
        self,
        continuation: JoinContinuation,
        read: EventRead,
        own: OwnExpectation,
        outcome: Result<ProgressModel<ProjectState, Projected>, Seq<char>>,
    ) -> Result<ProgressModel<TransitionState, TransitionClose>, Seq<char>> {
        match outcome {
            Err(message) => Err(message),
            Ok(ProgressModel::Ask { state, request }) => Ok(
                ProgressModel::Ask {
                    state: TransitionState::Projecting { continuation, read, own, inner: state },
                    request,
                },
            ),
            Ok(ProgressModel::Done(projected)) => match self.finalizes(
                continuation,
                read,
                own,
                projected,
            ) {
                Err(message) => Err(message),
                Ok(plan) => match self.own_publication(read, plan) {
                    Err(message) => Err(message),
                    Ok(publication) => self.emits(
                        read,
                        projected.start,
                        plan,
                        Ok(publication.opening()),
                    ),
                },
            },
        }
    }

    /// The plan of the end of an event.
    pub open spec fn finalizes(
        self,
        continuation: JoinContinuation,
        read: EventRead,
        own: OwnExpectation,
        projected: Projected,
    ) -> Result<FinalizePlan, Seq<char>> {
        match step::own_probed(own, projected.output_bytes) {
            Err(message) => Err(message),
            Ok(probe) => match pages::clamped(self.budget, self.output) {
                Err(message) => Err(message),
                Ok(budget) => planner::finalized(
                    step::mode_of(self.kind),
                    continuation,
                    read.event,
                    probe,
                    budget,
                ),
            },
        }
    }

    fn finalize(
        &self,
        continuation: &JoinContinuation,
        read: &EventRead,
        own: OwnExpectation,
        projected: &Projected,
    ) -> (outcome: Result<FinalizePlan, String>)
        ensures
            text::agrees(outcome, self.finalizes(*continuation, *read, own, *projected)),
    {
        let probe = probe_own(own, projected.output_bytes)?;
        let budget = effective_budget(&self.budget, &self.output)?;
        plan_finalize(mode(self.kind), continuation, read.event, probe, budget)
    }

    /// What the publication of the end of an event writes.
    pub open spec fn own_publication(self, read: EventRead, plan: FinalizePlan) -> Result<
        PublishModel,
        Seq<char>,
    > {
        match composed(*self.layout, read, planner::option_seq(plan.output)) {
            Err(message) => Err(message),
            Ok(rows) => Ok(
                PublishModel {
                    payload: self.layout.output_payload@,
                    output: self.output,
                    lsn: read.chunk.lsn,
                    rows,
                    state: self.layout.state_of(read.event.side.other()),
                    changes: Seq::empty(),
                },
            ),
        }
    }

    /// The own row changes behind the output of the event.
    pub open spec fn emits(
        self,
        read: EventRead,
        start: FinalizeStart,
        plan: FinalizePlan,
        outcome: Result<ProgressModel<PublishState, Published>, Seq<char>>,
    ) -> Result<ProgressModel<TransitionState, TransitionClose>, Seq<char>> {
        match outcome {
            Err(message) => Err(message),
            Ok(ProgressModel::Ask { state, request }) => Ok(
                ProgressModel::Ask {
                    state: TransitionState::Emitting { read, start, plan, inner: state },
                    request,
                },
            ),
            Ok(ProgressModel::Done(published)) => self.changes(
                read,
                start,
                plan,
                published.append,
                self.own(read, plan).opening(),
            ),
        }
    }

    pub open spec fn own(self, read: EventRead, plan: FinalizePlan) -> OwnPlan<'a> {
        OwnPlan {
            layout: self.layout,
            event: read.event,
            change: plan.own_change,
            row_key: self.row_keys.of(read.event.side),
        }
    }

    fn own_plan(&self, read: &EventRead, plan: &FinalizePlan) -> (own: OwnPlan<'a>)
        ensures
            own == self.own(*read, *plan),
    {
        OwnPlan {
            layout: self.layout,
            event: read.event,
            change: plan.own_change,
            row_key: self.row_keys.get(read.event.side),
        }
    }

    /// Behind its own row an event is done: the cursor stands on the next row
    /// of the chunk, or the consumer moves past it.
    pub open spec fn changes(
        self,
        read: EventRead,
        start: FinalizeStart,
        plan: FinalizePlan,
        append: Option<OutputAppend>,
        outcome: Result<ProgressModel<OwnState, ()>, Seq<char>>,
    ) -> Result<ProgressModel<TransitionState, TransitionClose>, Seq<char>> {
        match outcome {
            Err(message) => Err(message),
            Ok(ProgressModel::Ask { state, request }) => Ok(
                ProgressModel::Ask {
                    state: TransitionState::Changing { read, start, plan, append, inner: state },
                    request,
                },
            ),
            Ok(ProgressModel::Done(_)) => match step::finalize_next(
                start.progress,
                read.chunk,
                self.inputs.of(start.progress.side),
            ) {
                Err(message) => Err(message),
                Ok(next) => match step::finalize_closed(plan, append, next) {
                    Err(message) => Err(message),
                    Ok(transition) => Ok(
                        ProgressModel::Done(
                            TransitionClose {
                                transition,
                                append,
                                advance: match next {
                                    FinalizeNext::Row(_) => None,
                                    FinalizeNext::Chunk(advance) => Some(
                                        SideAdvance { side: start.progress.side, advance },
                                    ),
                                },
                                next: match next {
                                    FinalizeNext::Row(continuation) => Some(continuation),
                                    FinalizeNext::Chunk(_) => None,
                                },
                            },
                        ),
                    ),
                },
            },
        }
    }

    /// A frontier leaves no cursor, and its consumer moves past it.
    pub open spec fn forwards(
        self,
        continuation: JoinContinuation,
        outcome: Result<
            ProgressModel<ForwardState, ForwardClose>,
            Seq<char>,
        >,
    ) -> Result<ProgressModel<TransitionState, TransitionClose>, Seq<char>> {
        match outcome {
            Err(message) => Err(message),
            Ok(ProgressModel::Ask { state, request }) => Ok(
                ProgressModel::Ask {
                    state: TransitionState::Forwarding { continuation, inner: state },
                    request,
                },
            ),
            Ok(ProgressModel::Done(close)) => Ok(
                ProgressModel::Done(
                    TransitionClose {
                        transition: close.transition,
                        append: None,
                        advance: Some(SideAdvance { side: close.side, advance: close.advance }),
                        next: None,
                    },
                ),
            ),
        }
    }

    /// What a transition does with a reply.
    pub open spec fn resumes(self, state: TransitionState, reply: Reply) -> Result<
        ProgressModel<TransitionState, TransitionClose>,
        Seq<char>,
    > {
        match state {
            TransitionState::Opening { inner } => match self.inputs.resumes(inner, reply) {
                Err(message) => Err(message),
                Ok(progress) => Ok(self.opens(progress)),
            },
            TransitionState::Preflight { positions, side, inner } => self.preflights(
                positions,
                side,
                self.event(positions, side, true).resumes(inner, reply),
            ),
            TransitionState::Reading { continuation, progress, inner } => self.reads(
                continuation,
                progress,
                self.event(progress.positions, progress.side, false).resumes(inner, reply),
            ),
            TransitionState::Probing { continuation, read, probe, inner } => self.probes(
                continuation,
                read,
                probe,
                self.probe(read, probe).resumes(inner, reply),
            ),
            TransitionState::Publishing {
                continuation,
                read,
                budget,
                probed,
                inner,
            } => match self.planned(continuation, read, budget, probed) {
                Err(message) => Err(message),
                Ok(plan) => match self.publication(read, plan) {
                    Err(message) => Err(message),
                    Ok(publication) => self.publishes(
                        continuation,
                        read,
                        budget,
                        probed,
                        plan,
                        publication.resumes(inner, reply),
                    ),
                },
            },
            TransitionState::Owning { continuation, progress, inner } => self.owns(
                continuation,
                progress,
                self.event(progress.positions, progress.side, true).resumes(inner, reply),
            ),
            TransitionState::Projecting { continuation, read, own, inner } => self.projects(
                continuation,
                read,
                own,
                self.project(continuation, read, own).resumes(inner, reply),
            ),
            TransitionState::Emitting { read, start, plan, inner } => match self.own_publication(
                read,
                plan,
            ) {
                Err(message) => Err(message),
                Ok(publication) => self.emits(
                    read,
                    start,
                    plan,
                    publication.resumes(inner, reply),
                ),
            },
            TransitionState::Changing { read, start, plan, append, inner } => self.changes(
                read,
                start,
                plan,
                append,
                self.own(read, plan).resumes(inner, reply),
            ),
            TransitionState::Forwarding { continuation, inner } => self.forwards(
                continuation,
                self.forward(continuation).resumes(inner, reply),
            ),
        }
    }

    fn after_open(&self, progress: Progress<OpenState, OpenedInput>) -> (after: Progress<
        TransitionState,
        TransitionClose,
    >)
        ensures
            after@ == self.opens(progress@),
    {
        match progress {
            Progress::Ask { state, request } => Progress::Ask {
                state: TransitionState::Opening { inner: state },
                request,
            },
            Progress::Done(opened) => Progress::Done(moved(opened.continuation)),
        }
    }

    fn after_preflight(
        &self,
        positions: InputPositions,
        side: InputSide,
        progress: Progress<EventState, EventRead>,
    ) -> (outcome: Result<Progress<TransitionState, TransitionClose>, String>)
        requires
            progress matches Progress::Done(read) ==> read.own is Some,
        ensures
            text::agrees_view(outcome, self.preflights(positions, side, Ok(progress@))),
    {
        match progress {
            Progress::Ask { state, request } => Ok(
                Progress::Ask {
                    state: TransitionState::Preflight { positions, side, inner: state },
                    request,
                },
            ),
            Progress::Done(read) => {
                let next = after_preflight(read.event, read.own.unwrap())?;
                Ok(Progress::Done(moved(next)))
            },
        }
    }

    fn after_read(
        &self,
        continuation: JoinContinuation,
        progress: InputProgress,
        inner: Progress<EventState, EventRead>,
    ) -> (outcome: Result<Progress<TransitionState, TransitionClose>, String>)
        ensures
            text::agrees_view(outcome, self.reads(continuation, progress, Ok(inner@))),
    {
        match inner {
            Progress::Ask { state, request } => Ok(
                Progress::Ask {
                    state: TransitionState::Reading { continuation, progress, inner: state },
                    request,
                },
            ),
            Progress::Done(read) => {
                continuation.validate_input_resume(read.event)?;
                let budget = effective_budget(&self.budget, &self.output)?;
                let probe = Probe { progress, budget };
                let opened = self.probe_plan(&read, probe).open()?;
                self.after_probe(continuation, read, probe, opened)
            },
        }
    }

    fn probe_plan(&self, read: &EventRead, probe: Probe) -> (plan: ProbePlan<'a>)
        ensures
            plan == self.probe(*read, probe),
    {
        ProbePlan {
            layout: self.layout,
            mode: mode(self.kind),
            progress: probe.progress,
            event: read.event,
            budget: probe.budget,
        }
    }

    fn after_probe(
        &self,
        continuation: JoinContinuation,
        read: EventRead,
        probe: Probe,
        inner: Progress<ProbeState, Probed>,
    ) -> (outcome: Result<Progress<TransitionState, TransitionClose>, String>)
        ensures
            text::agrees_view(outcome, self.probes(continuation, read, probe, Ok(inner@))),
    {
        match inner {
            Progress::Ask { state, request } => Ok(
                Progress::Ask {
                    state: TransitionState::Probing { continuation, read, probe, inner: state },
                    request,
                },
            ),
            Progress::Done(probed) => {
                let plan = self.plan(&continuation, &read, probe.budget, &probed)?;
                let rows = compose(self.layout, &read, plan.actions())?;
                let publish = self.publish_plan(&read, rows.as_ref(), plan.candidate_changes());
                assert(publish@ == self.publication(read, plan@)->Ok_0);
                let opened = publish.open();
                self.after_publish(continuation, read, probe.budget, probed, &plan, opened)
            },
        }
    }

    fn after_publish(
        &self,
        continuation: JoinContinuation,
        read: EventRead,
        budget: WorkBudget,
        probed: Probed,
        plan: &ActionPlan,
        inner: Progress<PublishState, Published>,
    ) -> (outcome: Result<Progress<TransitionState, TransitionClose>, String>)
        ensures
            text::agrees_view(
                outcome,
                self.publishes(continuation, read, budget, probed, plan@, Ok(inner@)),
            ),
    {
        match inner {
            Progress::Ask { state, request } => Ok(
                Progress::Ask {
                    state: TransitionState::Publishing {
                        continuation,
                        read,
                        budget,
                        probed,
                        inner: state,
                    },
                    request,
                },
            ),
            Progress::Done(published) => {
                let transition = close_candidates(plan, published.changed, &published.append)?;
                Ok(
                    Progress::Done(
                        TransitionClose {
                            transition,
                            append: published.append,
                            advance: None,
                            next: Some(*plan.next_continuation()),
                        },
                    ),
                )
            },
        }
    }

    fn after_own(
        &self,
        continuation: JoinContinuation,
        progress: InputProgress,
        inner: Progress<EventState, EventRead>,
    ) -> (outcome: Result<Progress<TransitionState, TransitionClose>, String>)
        requires
            inner matches Progress::Done(read) ==> read.own is Some,
        ensures
            text::agrees_view(outcome, self.owns(continuation, progress, Ok(inner@))),
    {
        match inner {
            Progress::Ask { state, request } => {
                if let EventState::Owning { event, .. } = state {
                    continuation.validate_input_resume(event)?;
                }
                Ok(
                    Progress::Ask {
                        state: TransitionState::Owning { continuation, progress, inner: state },
                        request,
                    },
                )
            },
            Progress::Done(read) => {
                let own = read.own.unwrap();
                let opened = self.project_plan(continuation, &read, own).open()?;
                self.after_project(continuation, read, own, opened)
            },
        }
    }

    fn project_plan(
        &self,
        continuation: JoinContinuation,
        read: &EventRead,
        own: OwnExpectation,
    ) -> (plan: ProjectPlan<'a>)
        ensures
            plan == self.project(continuation, *read, own),
    {
        ProjectPlan { layout: self.layout, kind: self.kind, continuation, event: read.event, own }
    }

    fn after_project(
        &self,
        continuation: JoinContinuation,
        read: EventRead,
        own: OwnExpectation,
        inner: Progress<ProjectState, Projected>,
    ) -> (outcome: Result<Progress<TransitionState, TransitionClose>, String>)
        ensures
            text::agrees_view(outcome, self.projects(continuation, read, own, Ok(inner@))),
    {
        match inner {
            Progress::Ask { state, request } => Ok(
                Progress::Ask {
                    state: TransitionState::Projecting { continuation, read, own, inner: state },
                    request,
                },
            ),
            Progress::Done(projected) => {
                let plan = self.finalize(&continuation, &read, own, &projected)?;
                let actions = action_list(plan.output);
                let rows = compose(self.layout, &read, actions.as_slice())?;
                let none: Vec<CandidateStateChange> = Vec::new();
                let publish = self.publish_plan(&read, rows.as_ref(), none.as_slice());
                assert(publish@ == self.own_publication(read, plan)->Ok_0);
                let opened = publish.open();
                self.after_emit(read, projected.start, plan, opened)
            },
        }
    }

    fn publish_plan<'b>(
        &self,
        read: &EventRead,
        rows: Option<&'b ActionRows>,
        changes: &'b [CandidateStateChange],
    ) -> (plan: PublishPlan<'b>) where 'a: 'b
        ensures
            plan@ == (PublishModel {
                payload: self.layout.output_payload@,
                output: self.output,
                lsn: read.chunk.lsn,
                rows: match rows {
                    Some(rows) => Some(RowsModel { sql: rows.sql@, expected: rows.expected }),
                    None => None,
                },
                state: self.layout.state_of(read.event.side.other()),
                changes: changes@,
            }),
    {
        PublishPlan {
            layout: self.layout,
            output: self.output,
            lsn: read.chunk.lsn,
            rows,
            state: self.layout.state(read.event.side.opposite()),
            changes,
        }
    }

    fn after_emit(
        &self,
        read: EventRead,
        start: FinalizeStart,
        plan: FinalizePlan,
        inner: Progress<PublishState, Published>,
    ) -> (outcome: Result<Progress<TransitionState, TransitionClose>, String>)
        ensures
            text::agrees_view(outcome, self.emits(read, start, plan, Ok(inner@))),
    {
        match inner {
            Progress::Ask { state, request } => Ok(
                Progress::Ask {
                    state: TransitionState::Emitting { read, start, plan, inner: state },
                    request,
                },
            ),
            Progress::Done(published) => {
                let opened = self.own_plan(&read, &plan).open()?;
                self.after_change(read, start, plan, published.append, opened)
            },
        }
    }

    fn after_change(
        &self,
        read: EventRead,
        start: FinalizeStart,
        plan: FinalizePlan,
        append: Option<OutputAppend>,
        inner: Progress<OwnState, ()>,
    ) -> (outcome: Result<Progress<TransitionState, TransitionClose>, String>)
        ensures
            text::agrees_view(outcome, self.changes(read, start, plan, append, Ok(inner@))),
    {
        match inner {
            Progress::Ask { state, request } => Ok(
                Progress::Ask {
                    state: TransitionState::Changing { read, start, plan, append, inner: state },
                    request,
                },
            ),
            Progress::Done(_) => {
                let side = start.progress.side;
                let next = after_finalize(&start.progress, &read.chunk, &self.inputs.get(side))?;
                let transition = close_finalize(&plan, &append, &next)?;
                let (advance, next) = match next {
                    FinalizeNext::Row(continuation) => (None, Some(continuation)),
                    FinalizeNext::Chunk(advance) => (Some(SideAdvance { side, advance }), None),
                };
                Ok(Progress::Done(TransitionClose { transition, append, advance, next }))
            },
        }
    }

    fn forward_plan(&self, continuation: JoinContinuation) -> (plan: ForwardPlan)
        ensures
            plan == self.forward(continuation),
    {
        ForwardPlan {
            inputs: self.inputs,
            output: self.output,
            budget: self.budget,
            continuation,
        }
    }

    fn after_forward(
        &self,
        continuation: JoinContinuation,
        inner: Progress<ForwardState, ForwardClose>,
    ) -> (progress: Progress<TransitionState, TransitionClose>)
        ensures
            self.forwards(continuation, Ok(inner@)) == Ok::<
                ProgressModel<TransitionState, TransitionClose>,
                Seq<char>,
            >(progress@),
    {
        match inner {
            Progress::Ask { state, request } => Progress::Ask {
                state: TransitionState::Forwarding { continuation, inner: state },
                request,
            },
            Progress::Done(close) => Progress::Done(
                TransitionClose {
                    transition: close.transition,
                    append: None,
                    advance: Some(SideAdvance { side: close.side, advance: close.advance }),
                    next: None,
                },
            ),
        }
    }

    /// Opens the transition that a stored cursor is due for.
    pub fn open(&self, stored: Option<JoinContinuation>) -> (outcome: Result<
        Progress<TransitionState, TransitionClose>,
        String,
    >)
        ensures
            text::agrees_view(outcome, self.opening(stored)),
    {
        let continuation = match stored {
            None => {
                return Ok(self.after_open(self.inputs.open()));
            },
            Some(continuation) => continuation,
        };
        match continuation {
            JoinContinuation::Preflight { positions, side } => {
                JoinContinuation::start_preflight(positions, side)?;
                let opened = self.event_plan(positions, side, true).open()?;
                self.after_preflight(positions, side, opened)
            },
            JoinContinuation::Finalize(progress) => {
                let opened = self.event_plan(progress.positions, progress.side, true).open()?;
                self.after_own(continuation, progress, opened)
            },
            JoinContinuation::Frontier(_) => {
                let opened = self.forward_plan(continuation).open()?;
                Ok(self.after_forward(continuation, opened))
            },
            _ => {
                let progress = candidate_progress(&continuation)?;
                let opened = self.event_plan(progress.positions, progress.side, false).open()?;
                self.after_read(continuation, progress, opened)
            },
        }
    }

    /// Goes on with the reply to the last request.
    pub fn resume(&self, state: TransitionState, reply: Reply) -> (outcome: Result<
        Progress<TransitionState, TransitionClose>,
        String,
    >)
        ensures
            text::agrees_view(outcome, self.resumes(state, reply)),
    {
        match state {
            TransitionState::Opening { inner } => {
                let progress = self.inputs.resume(inner, reply)?;
                Ok(self.after_open(progress))
            },
            TransitionState::Preflight { positions, side, inner } => {
                let progress = self.event_plan(positions, side, true).resume(inner, reply)?;
                self.after_preflight(positions, side, progress)
            },
            TransitionState::Reading { continuation, progress, inner } => {
                let event = self.event_plan(progress.positions, progress.side, false);
                let inner = event.resume(inner, reply)?;
                self.after_read(continuation, progress, inner)
            },
            TransitionState::Probing { continuation, read, probe, inner } => {
                let inner = self.probe_plan(&read, probe).resume(inner, reply)?;
                self.after_probe(continuation, read, probe, inner)
            },
            TransitionState::Publishing { continuation, read, budget, probed, inner } => {
                let plan = self.plan(&continuation, &read, budget, &probed)?;
                let rows = compose(self.layout, &read, plan.actions())?;
                let publish = self.publish_plan(&read, rows.as_ref(), plan.candidate_changes());
                assert(publish@ == self.publication(read, plan@)->Ok_0);
                let inner = publish.resume(inner, reply)?;
                self.after_publish(continuation, read, budget, probed, &plan, inner)
            },
            TransitionState::Owning { continuation, progress, inner } => {
                let event = self.event_plan(progress.positions, progress.side, true);
                let inner = event.resume(inner, reply)?;
                self.after_own(continuation, progress, inner)
            },
            TransitionState::Projecting { continuation, read, own, inner } => {
                let inner = self.project_plan(continuation, &read, own).resume(inner, reply)?;
                self.after_project(continuation, read, own, inner)
            },
            TransitionState::Emitting { read, start, plan, inner } => {
                let actions = action_list(plan.output);
                let rows = compose(self.layout, &read, actions.as_slice())?;
                let none: Vec<CandidateStateChange> = Vec::new();
                let publish = self.publish_plan(&read, rows.as_ref(), none.as_slice());
                assert(publish@ == self.own_publication(read, plan)->Ok_0);
                let inner = publish.resume(inner, reply)?;
                self.after_emit(read, start, plan, inner)
            },
            TransitionState::Changing { read, start, plan, append, inner } => {
                let inner = self.own_plan(&read, &plan).resume(inner, reply)?;
                self.after_change(read, start, plan, append, inner)
            },
            TransitionState::Forwarding { continuation, inner } => {
                let inner = self.forward_plan(continuation).resume(inner, reply)?;
                Ok(self.after_forward(continuation, inner))
            },
        }
    }
}

/// A transition moves a consumer exactly when it leaves no cursor behind, so
/// that every cursor that is stored stands at an unconsumed chunk.
#[verifier::spinoff_prover]
#[verifier::rlimit(60)]
pub proof fn consumer_moves_where_no_cursor_is_left(
    plan: TransitionPlan,
    state: TransitionState,
    reply: Reply,
)
    ensures
        plan.resumes(state, reply) matches Ok(ProgressModel::Done(close)) ==> (close.advance is Some
            <==> close.next is None),
{
}

/// What was planned for probed candidates is what their transition leaves: the
/// planned cursor behind the planned rows.
pub proof fn candidates_leave_what_was_planned(
    plan: TransitionPlan,
    continuation: JoinContinuation,
    read: EventRead,
    budget: WorkBudget,
    probed: Probed,
    inner: PublishState,
    reply: Reply,
)
    ensures
        plan.resumes(
            TransitionState::Publishing { continuation, read, budget, probed, inner },
            reply,
        ) matches Ok(ProgressModel::Done(close)) ==> {
            let planned = plan.planned(continuation, read, budget, probed)->Ok_0;
            &&& close.next == Some(planned.next)
            &&& close.advance is None
            &&& close.transition.usage == planned.usage
            &&& inner is Appending ==> (close.append matches Some(append) && append.rows
                == planned.actions.len() as u64 && append.lsn == read.chunk.lsn)
        },
{
    if let Ok(planned) = plan.planned(continuation, read, budget, probed) {
        if let Ok(publication) = plan.publication(read, planned) {
            if publication.changes.len() <= usize::MAX {
                publishing::planned_actions_are_written(publication, inner, reply);
            }
        }
    }
}

/// The own row of a finished event is locked only once the event is known to be
/// the one that its fanout began with.
pub proof fn own_row_is_locked_behind_its_event(
    plan: TransitionPlan,
    state: TransitionState,
    reply: Reply,
)
    ensures
        plan.resumes(state, reply) matches Ok(
            ProgressModel::Ask {
                state: TransitionState::Owning {
                    continuation,
                    inner: EventState::Owning { event, .. },
                    ..
                },
                ..
            },
        ) ==> continuation.input_resumes(event) is Ok,
{
}

pub open spec fn event_requests(state: EventState) -> int {
    match state {
        EventState::Opening => 3,
        EventState::Reading { .. } => 2,
        EventState::Owning { .. } => 1,
    }
}

pub open spec fn publish_requests(state: PublishState) -> int {
    match state {
        PublishState::Placing => 3,
        PublishState::Appending { .. } => 2,
        PublishState::Changing { .. } => 1,
    }
}

/// The most requests that a transition still makes behind a state.
pub open spec fn requests_left(state: TransitionState) -> int {
    match state {
        TransitionState::Opening { inner } => match inner {
            OpenState::PeekingLeft => 3,
            OpenState::PeekingRight { .. } => 2,
            OpenState::Measuring { .. } => 1,
        },
        TransitionState::Preflight { inner, .. } => event_requests(inner),
        TransitionState::Reading { inner, .. } => event_requests(inner) + 5,
        TransitionState::Probing { inner, .. } => if inner is Probing {
            5
        } else {
            4
        },
        TransitionState::Publishing { inner, .. } => publish_requests(inner),
        TransitionState::Owning { inner, .. } => event_requests(inner) + 5,
        TransitionState::Projecting { .. } => 5,
        TransitionState::Emitting { inner, .. } => publish_requests(inner) + 1,
        TransitionState::Changing { .. } => 1,
        TransitionState::Forwarding { inner, .. } => if inner is Heading {
            2
        } else {
            1
        },
    }
}

proof fn event_ends(plan: EventPlan, state: EventState, reply: Reply)
    ensures
        event_requests(state) >= 1,
        plan.resumes(state, reply) matches Ok(ProgressModel::Ask { state: next, .. })
            ==> event_requests(next) < event_requests(state),
{
}

proof fn publication_ends(publication: PublishModel, state: PublishState, reply: Reply)
    ensures
        publish_requests(state) >= 1,
        publication.opening() matches ProgressModel::Ask { state: first, .. } ==> publish_requests(
            first,
        ) <= 3,
        publication.resumes(state, reply) matches Ok(ProgressModel::Ask { state: next, .. })
            ==> publish_requests(next) < publish_requests(state),
{
}

/// Behind its projection an event emits, or changes its own row.
proof fn projection_is_emitted(
    plan: TransitionPlan,
    continuation: JoinContinuation,
    read: EventRead,
    own: OwnExpectation,
    outcome: Result<ProgressModel<ProjectState, Projected>, Seq<char>>,
)
    ensures
        plan.projects(continuation, read, own, outcome) matches Ok(
            ProgressModel::Ask { state: next, .. },
        ) ==> requests_left(next) <= if outcome matches Ok(ProgressModel::Ask { .. }) {
            5
        } else {
            4int
        },
{
    if let Ok(ProgressModel::Done(projected)) = outcome {
        if let Ok(finalize) = plan.finalizes(continuation, read, own, projected) {
            if let Ok(publication) = plan.own_publication(read, finalize) {
                publication_ends(publication, PublishState::Placing, Reply::Checked);
            }
        }
    }
}

/// A transition ends: every reply that leads to a further request leaves fewer
/// of them to come.
#[verifier::spinoff_prover]
#[verifier::rlimit(60)]
pub proof fn transition_ends(plan: TransitionPlan, state: TransitionState, reply: Reply)
    ensures
        requests_left(state) >= 1,
        plan.resumes(state, reply) matches Ok(ProgressModel::Ask { state: next, .. })
            ==> requests_left(next) < requests_left(state),
{
    match state {
        TransitionState::Opening { .. } => {},
        TransitionState::Preflight { positions, side, inner } => {
            event_ends(plan.event(positions, side, true), inner, reply);
        },
        TransitionState::Reading { progress, inner, .. } => {
            event_ends(plan.event(progress.positions, progress.side, false), inner, reply);
        },
        TransitionState::Probing { continuation, read, probe, inner } => {
            if let Ok(ProgressModel::Done(probed)) = plan.probe(read, probe).resumes(inner, reply) {
                if let Ok(planned) = plan.planned(continuation, read, probe.budget, probed) {
                    if let Ok(publication) = plan.publication(read, planned) {
                        publication_ends(publication, PublishState::Placing, reply);
                    }
                }
            }
        },
        TransitionState::Publishing { continuation, read, budget, probed, inner } => {
            if let Ok(planned) = plan.planned(continuation, read, budget, probed) {
                if let Ok(publication) = plan.publication(read, planned) {
                    publication_ends(publication, inner, reply);
                }
            }
        },
        TransitionState::Owning { continuation, progress, inner } => {
            let event = plan.event(progress.positions, progress.side, true);
            event_ends(event, inner, reply);
            if let Ok(ProgressModel::Done(read)) = event.resumes(inner, reply) {
                let opening = plan.project(continuation, read, read.own->0).opening();
                projection_is_emitted(plan, continuation, read, read.own->0, opening);
            }
        },
        TransitionState::Projecting { continuation, read, own, inner } => {
            let outcome = plan.project(continuation, read, own).resumes(inner, reply);
            projection_is_emitted(plan, continuation, read, own, outcome);
        },
        TransitionState::Emitting { read, plan: finalize, inner, .. } => {
            if let Ok(publication) = plan.own_publication(read, finalize) {
                publication_ends(publication, inner, reply);
            }
        },
        TransitionState::Changing { .. } => {},
        TransitionState::Forwarding { .. } => {},
    }
}

} // verus!
