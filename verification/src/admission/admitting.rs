//! The admission of one batch, request by request, in the lock order of
//! ingress: generation, transaction header, source metadata.

use vstd::prelude::*;

use crate::admission::{
    self, admitted_facts, allocate, classify_statement, count_tasks, decode_generation,
    decode_header, decode_replay, decode_write, encode_events, generation_statement,
    header_statement, replayed_facts, require_generation, source_counts, source_statement,
    source_type, transaction_statement, typed_statement, validate_events, validate_replay,
    validate_source, validate_transaction, validate_write, write_statement, AdmissionFacts,
    Allocation, Event, Header, HeaderRow, ReplayFacts, ReplayRow, SourceCount, WriteRow,
};
use crate::database;
use crate::session::{
    self, first_bigint, first_text, require_columns, Progress, ProgressModel, Reply, Request,
    RequestModel, MISPLACED,
};
use crate::text::{self, fail, unsigned_text};

verus! {

/// A batch that may be admitted.
pub struct AdmitPlan {
    pub ingress_txn_id: i64,
    pub events: Vec<Event>,
    /// The events as JSON.
    pub encoded: String,
    /// The sources of the events, in order.
    pub sources: Vec<SourceCount>,
}

/// What an admission waits for.
#[derive(Clone, Debug, PartialEq, Eq)]
pub enum AdmitState {
    Resolving,
    Guarding { slot_generation: i64 },
    Heading { slot_generation: i64 },
    Sourcing { header: Header, index: usize },
    Typing { header: Header, index: usize },
    Classifying { header: Header },
    Writing { replay: ReplayFacts, allocation: Allocation },
}

/// Whether a batch may be asked about at all.
pub open spec fn admissible(ingress_txn_id: i64, events: Seq<Event>) -> Result<(), Seq<char>> {
    text::both(
        text::holds(ingress_txn_id > 0, "ingress transaction ID must be positive"@),
        admission::batch_sound(admission::models(events)),
    )
}

/// How many events of a batch were admitted before.
pub open spec fn prefix(replay: ReplayFacts) -> Result<usize, Seq<char>> {
    text::guarded(
        text::holds(
            0 <= replay.replayed_count <= usize::MAX,
            "replayed event count exceeds usize"@,
        ),
        replay.replayed_count as usize,
    )
}

fn replayed_prefix(replay: ReplayFacts) -> (outcome: Result<usize, String>)
    ensures
        text::agrees(outcome, prefix(replay)),
{
    if replay.replayed_count < 0 || replay.replayed_count as u64 > usize::MAX as u64 {
        return fail("replayed event count exceeds usize");
    }
    Ok(replay.replayed_count as usize)
}

impl AdmitPlan {
    /// The text and the sources are those of the events.
    pub open spec fn wf(self) -> bool {
        &&& admissible(self.ingress_txn_id, self.events@) is Ok
        &&& self.encoded@ == admission::batch_text(admission::models(self.events@))
        &&& admission::counts_sources(self.sources@, admission::models(self.events@))
    }

    /// Whether a state is one that this admission waits in.
    pub open spec fn waits(self, state: AdmitState) -> bool {
        match state {
            AdmitState::Sourcing { index, .. } => index < self.sources.len(),
            AdmitState::Typing { index, .. } => index < self.sources.len(),
            _ => true,
        }
    }

    /// A classification counts no more replayed events than the batch has.
    pub open spec fn within_batch(self, state: AdmitState, reply: Reply) -> bool {
        state is Classifying ==> (reply matches Reply::Rows(rows) ==> (session::bigint(rows@, 2)
            matches Some(replayed) ==> replayed <= self.events.len()))
    }

    /// Checks a batch and prepares its admission.
    pub fn new(ingress_txn_id: i64, events: Vec<Event>) -> (outcome: Result<AdmitPlan, String>)
        ensures
            match admissible(ingress_txn_id, events@) {
                Ok(()) => outcome matches Ok(plan) && plan.wf() && plan.ingress_txn_id
                    == ingress_txn_id && plan.events == events,
                Err(message) => outcome matches Err(error) && error@ == message,
            },
    {
        validate_transaction(ingress_txn_id)?;
        validate_events(&events)?;
        let encoded = encode_events(&events);
        let sources = source_counts(&events);
        Ok(AdmitPlan { ingress_txn_id, events, encoded, sources })
    }

    /// The first request: the generation of the transaction.
    pub open spec fn opening(self) -> ProgressModel<AdmitState, AdmissionFacts> {
        ProgressModel::Ask {
            state: AdmitState::Resolving,
            request: RequestModel::Read(admission::transaction_query(self.ingress_txn_id)),
        }
    }

    /// Every source is resolved and typed in turn; the classification follows
    /// the last one.
    pub open spec fn sources_from(self, header: Header, index: int) -> ProgressModel<
        AdmitState,
        AdmissionFacts,
    > {
        if index < self.sources.len() {
            ProgressModel::Ask {
                state: AdmitState::Sourcing { header, index: index as usize },
                request: RequestModel::Read(
                    admission::source_query(self.sources[index].source_oid),
                ),
            }
        } else {
            ProgressModel::Ask {
                state: AdmitState::Classifying { header },
                request: RequestModel::Read(
                    admission::classify_query(self.ingress_txn_id, self.encoded@),
                ),
            }
        }
    }

    /// What follows a classification: nothing for a replay, else the write of
    /// the new events behind the replayed prefix.
    pub open spec fn writes(self, header: Header, replay: ReplayFacts) -> Result<
        ProgressModel<AdmitState, AdmissionFacts>,
        Seq<char>,
    > {
        match admission::replay_sound(self.ingress_txn_id, header.status@, replay) {
            Err(message) => Err(message),
            Ok(()) => match admission::replayed(header.status@, replay) {
                Some(facts) => Ok(ProgressModel::Done(facts)),
                None => match prefix(replay) {
                    Err(message) => Err(message),
                    Ok(replayed) => match admission::publication_tasks(
                        admission::models(self.events@),
                        replayed as int,
                    ) {
                        Err(message) => Err(message),
                        Ok(task_count) => match admission::allocated(
                            header.counters(),
                            replay,
                            task_count,
                        ) {
                            Err(message) => Err(message),
                            Ok(allocation) => Ok(
                                ProgressModel::Ask {
                                    state: AdmitState::Writing { replay, allocation },
                                    request: RequestModel::Write(
                                        admission::write_query(
                                            self.ingress_txn_id,
                                            self.encoded@,
                                            header,
                                            replay,
                                            allocation,
                                        ),
                                    ),
                                },
                            ),
                        },
                    },
                },
            },
        }
    }

    /// What an admission does with a reply.
    pub open spec fn resumes(self, state: AdmitState, reply: Reply) -> Result<
        ProgressModel<AdmitState, AdmissionFacts>,
        Seq<char>,
    > {
        match (state, reply) {
            (AdmitState::Resolving, Reply::Rows(rows)) => match admission::generation(
                rows@.len() as usize,
                session::bigint(rows@, 1),
            ) {
                Err(message) => Err(message),
                Ok(slot_generation) => Ok(
                    ProgressModel::Ask {
                        state: AdmitState::Guarding { slot_generation },
                        request: RequestModel::Lock(admission::generation_query(slot_generation)),
                    },
                ),
            },
            (AdmitState::Guarding { slot_generation }, Reply::Rows(rows)) => text::guarded(
                database::count_required(
                    rows@.len() as usize,
                    1,
                    "active ingress generation"@,
                ),
                ProgressModel::Ask {
                    state: AdmitState::Heading { slot_generation },
                    request: RequestModel::Lock(admission::header_query(self.ingress_txn_id)),
                },
            ),
            (
                AdmitState::Heading { slot_generation },
                Reply::Rows(rows),
            ) => match admission::headed(
                rows@.len() as usize,
                HeaderRow::of(rows@),
                slot_generation,
            ) {
                Err(message) => Err(message),
                Ok(header) => Ok(self.sources_from(header, 0)),
            },
            (
                AdmitState::Sourcing { header, index },
                Reply::Rows(rows),
            ) => match admission::source_resolved(
                rows@.len() as usize,
                session::text(rows@, 1),
                session::text(rows@, 2),
            ) {
                Err(message) => Err(message),
                Ok(source_type) => Ok(
                    ProgressModel::Ask {
                        state: AdmitState::Typing { header, index },
                        request: RequestModel::Read(
                            admission::typed_query(
                                source_type,
                                self.encoded@,
                                self.sources[index as int].source_oid,
                            ),
                        ),
                    },
                ),
            },
            (AdmitState::Typing { header, index }, Reply::Rows(rows)) => text::guarded(
                admission::source_typed(
                    self.sources[index as int],
                    rows@.len() as usize,
                    session::bigint(rows@, 1),
                ),
                self.sources_from(header, index + 1),
            ),
            (AdmitState::Classifying { header }, Reply::Rows(rows)) => match session::columns(
                rows@,
                ReplayRow::kinds(),
            ) {
                Err(message) => Err(message),
                Ok(()) => match admission::classified(
                    rows@.len() as usize,
                    ReplayRow::of(rows@),
                ) {
                    Err(message) => Err(message),
                    Ok(replay) => self.writes(header, replay),
                },
            },
            (
                AdmitState::Writing { replay, allocation },
                Reply::Rows(rows),
            ) => match session::columns(rows@, WriteRow::kinds()) {
                Err(message) => Err(message),
                Ok(()) => match admission::written(rows@.len() as usize, WriteRow::of(rows@)) {
                    Err(message) => Err(message),
                    Ok(written) => text::guarded(
                        admission::write_sound(self.ingress_txn_id, replay, allocation, written),
                        ProgressModel::Done(admission::admitted(replay, allocation)),
                    ),
                },
            },
            _ => Err(MISPLACED@),
        }
    }

    fn source(&self, header: Header, index: usize) -> (progress: Progress<
        AdmitState,
        AdmissionFacts,
    >)
        ensures
            progress@ == self.sources_from(header, index as int),
            progress matches Progress::Ask { state, .. } ==> self.waits(state),
    {
        if index < self.sources.len() {
            return Progress::Ask {
                request: Request::Read(source_statement(self.sources[index].source_oid)),
                state: AdmitState::Sourcing { header, index },
            };
        }
        Progress::Ask {
            state: AdmitState::Classifying { header },
            request: Request::Read(
                classify_statement(self.ingress_txn_id, self.encoded.as_str()),
            ),
        }
    }

    fn write(&self, header: Header, replay: ReplayFacts) -> (outcome: Result<
        Progress<AdmitState, AdmissionFacts>,
        String,
    >)
        requires
            replay.replayed_count <= self.events.len(),
        ensures
            text::agrees_view(outcome, self.writes(header, replay)),
            outcome matches Ok(Progress::Ask { state, .. }) ==> self.waits(state),
    {
        validate_replay(self.ingress_txn_id, &header, replay)?;
        if let Some(facts) = replayed_facts(&header, replay) {
            return Ok(Progress::Done(facts));
        }
        let replayed: usize = replayed_prefix(replay)?;
        let task_count: i64 = count_tasks(&self.events, replayed)?;
        let allocation = allocate(&header, replay, task_count)?;
        Ok(
            Progress::Ask {
                state: AdmitState::Writing { replay, allocation },
                request: Request::Write(
                    write_statement(
                        self.ingress_txn_id,
                        self.encoded.as_str(),
                        &header,
                        replay,
                        allocation,
                    ),
                ),
            },
        )
    }

    /// Opens the admission.
    pub fn open(&self) -> (progress: Progress<AdmitState, AdmissionFacts>)
        ensures
            progress@ == self.opening(),
            progress matches Progress::Ask { state, .. } ==> self.waits(state),
    {
        Progress::Ask {
            state: AdmitState::Resolving,
            request: Request::Read(transaction_statement(self.ingress_txn_id)),
        }
    }

    /// Goes on with the reply to the last request.
    pub fn resume(&self, state: AdmitState, reply: Reply) -> (outcome: Result<
        Progress<AdmitState, AdmissionFacts>,
        String,
    >)
        requires
            self.waits(state),
            self.within_batch(state, reply),
        ensures
            text::agrees_view(outcome, self.resumes(state, reply)),
            outcome matches Ok(Progress::Ask { state, .. }) ==> self.waits(state),
    {
        let rows = match reply {
            Reply::Rows(rows) => rows,
            _ => return fail(MISPLACED),
        };
        match state {
            AdmitState::Resolving => {
                let slot_generation: i64 = decode_generation(rows.len(), first_bigint(&rows, 1))?;
                Ok(
                    Progress::Ask {
                        state: AdmitState::Guarding { slot_generation },
                        request: Request::Lock(generation_statement(slot_generation)),
                    },
                )
            },
            AdmitState::Guarding { slot_generation } => {
                require_generation(rows.len())?;
                Ok(
                    Progress::Ask {
                        state: AdmitState::Heading { slot_generation },
                        request: Request::Lock(header_statement(self.ingress_txn_id)),
                    },
                )
            },
            AdmitState::Heading { slot_generation } => {
                let header = decode_header(rows.len(), &HeaderRow::read(&rows), slot_generation)?;
                Ok(self.source(header, 0))
            },
            AdmitState::Sourcing { header, index } => {
                let source_type = source_type(
                    rows.len(),
                    &first_text(&rows, 1),
                    &first_text(&rows, 2),
                )?;
                Ok(
                    Progress::Ask {
                        request: Request::Read(
                            typed_statement(
                                source_type.as_str(),
                                self.encoded.as_str(),
                                self.sources[index].source_oid,
                            ),
                        ),
                        state: AdmitState::Typing { header, index },
                    },
                )
            },
            AdmitState::Typing { header, index } => {
                validate_source(self.sources[index], rows.len(), first_bigint(&rows, 1))?;
                Ok(self.source(header, index + 1))
            },
            AdmitState::Classifying { header } => {
                require_columns(&rows, &ReplayRow::column_kinds())?;
                let row = ReplayRow::read(&rows);
                let replay = decode_replay(rows.len(), &row)?;
                self.write(header, replay)
            },
            AdmitState::Writing { replay, allocation } => {
                require_columns(&rows, &WriteRow::column_kinds())?;
                let written = decode_write(rows.len(), &WriteRow::read(&rows))?;
                validate_write(self.ingress_txn_id, replay, allocation, written)?;
                Ok(Progress::Done(admitted_facts(replay, allocation)))
            },
        }
    }

    /// What an admission was doing, as a failed request is reported.
    pub open spec fn purpose(self, state: AdmitState) -> Seq<char> {
        match state {
            AdmitState::Resolving => "could not resolve ingress transaction"@,
            AdmitState::Guarding { .. } => "could not lock ingress generation"@,
            AdmitState::Heading { .. } => "could not lock ingress transaction"@,
            AdmitState::Sourcing { index, .. } => "could not resolve ingress source "@
                + text::decimal(self.sources[index as int].source_oid as int),
            AdmitState::Typing { index, .. } => "could not validate typed source "@
                + text::decimal(self.sources[index as int].source_oid as int),
            AdmitState::Classifying { .. } => "could not classify ingress replay"@,
            AdmitState::Writing { .. } => "could not write bounded ingress batch"@,
        }
    }

    /// The report of a request that the database failed.
    pub fn failure(&self, state: &AdmitState, error: &str) -> (message: String)
        requires
            self.waits(*state),
        ensures
            message@ == self.purpose(*state) + ": "@ + error@,
    {
        let mut message = match state {
            AdmitState::Resolving => "could not resolve ingress transaction".to_owned(),
            AdmitState::Guarding { .. } => "could not lock ingress generation".to_owned(),
            AdmitState::Heading { .. } => "could not lock ingress transaction".to_owned(),
            AdmitState::Sourcing { index, .. } => "could not resolve ingress source ".to_owned().concat(
                unsigned_text(self.sources[*index].source_oid as u64).as_str(),
            ),
            AdmitState::Typing { index, .. } => "could not validate typed source ".to_owned().concat(
                unsigned_text(self.sources[*index].source_oid as u64).as_str(),
            ),
            AdmitState::Classifying { .. } => "could not classify ingress replay".to_owned(),
            AdmitState::Writing { .. } => "could not write bounded ingress batch".to_owned(),
        };
        message.append(": ");
        message.append(error);
        message
    }

    /// The most requests that an admission still makes behind a state.
    pub open spec fn requests_left(self, state: AdmitState) -> int {
        match state {
            AdmitState::Resolving => 2 * self.sources.len() + 5,
            AdmitState::Guarding { .. } => 2 * self.sources.len() + 4,
            AdmitState::Heading { .. } => 2 * self.sources.len() + 3,
            AdmitState::Sourcing { index, .. } => 2 * (self.sources.len() - index) + 2,
            AdmitState::Typing { index, .. } => 2 * (self.sources.len() - index) + 1,
            AdmitState::Classifying { .. } => 2,
            AdmitState::Writing { .. } => 1,
        }
    }
}

/// An admission ends: every reply that leads to a further request leaves fewer
/// of them to come.
pub proof fn admission_ends(plan: AdmitPlan, state: AdmitState, reply: Reply)
    requires
        plan.waits(state),
    ensures
        plan.requests_left(state) >= 1,
        plan.resumes(state, reply) matches Ok(ProgressModel::Ask { state: next, .. })
            ==> plan.requests_left(next) < plan.requests_left(state),
{
}

/// The authorities that an admission holds while it waits in a state: none,
/// the generation, or the generation and the transaction header.
pub open spec fn authorities(state: AdmitState) -> int {
    match state {
        AdmitState::Resolving => 0,
        AdmitState::Guarding { .. } => 0,
        AdmitState::Heading { .. } => 1,
        _ => 2,
    }
}

/// The lock order of ingress: the generation is locked first, then the header
/// of the transaction, and only with both held are source metadata, the
/// classification and the write asked for. No authority is let go.
pub proof fn locks_are_taken_in_order(plan: AdmitPlan, state: AdmitState, reply: Reply)
    requires
        plan.waits(state),
    ensures
        plan.resumes(state, reply) matches Ok(ProgressModel::Ask { state: next, request }) ==> {
            &&& authorities(state) <= authorities(next)
            &&& match request {
                RequestModel::Lock(statement) => if authorities(next) == 0 {
                    statement.sql == admission::GENERATION_SQL@
                } else {
                    authorities(next) == 1 && statement.sql == admission::HEADER_SQL@
                },
                _ => authorities(next) == 2,
            }
        },
        plan.resumes(state, reply) matches Ok(ProgressModel::Done(_)) ==> authorities(state) == 2,
{
}

/// Nothing is written for a batch that its transaction holds already, nor for
/// one whose transaction is closed: what is reported is what was found.
pub proof fn replay_writes_nothing(plan: AdmitPlan, header: Header, replay: ReplayFacts)
    requires
        admission::replay_sound(plan.ingress_txn_id, header.status@, replay) is Ok,
        replay.inserted_count == 0 || header.status@ != "open"@,
    ensures
        plan.writes(header, replay) == Ok::<_, Seq<char>>(
            ProgressModel::<AdmitState, AdmissionFacts>::Done(
                AdmissionFacts {
                    inserted_count: replay.inserted_count,
                    replayed_count: replay.replayed_count,
                    first_input_seq: replay.first_input_seq,
                    last_input_seq: replay.last_input_seq,
                },
            ),
        ),
{
}

} // verus!
