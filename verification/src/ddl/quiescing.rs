//! How dataflows come to rest before they are dropped: every lock in one
//! order, and only then a change.

use vstd::prelude::*;

use crate::ddl::{
    self, ascending, decode_result_oid, lock_dataflow_statement, locking_order, source_lock_query,
    DEACTIVATE_SQL, RESULTS_SQL, SOURCES_SQL,
};
use crate::session::{
    Progress, ProgressModel, Reply, Request, RequestModel, Row, MISPLACED,
};
use crate::sql::{SqlModel, SqlValue, Statement, StatementModel};
use crate::text::{self, fail};

verus! {

/// Results as numbers.
pub open spec fn numbers(oids: Seq<u32>) -> Seq<i64> {
    Seq::new(oids.len(), |index: int| oids[index] as i64)
}

fn widen(oids: &Vec<u32>) -> (list: Vec<i64>)
    ensures
        list@ == numbers(oids@),
{
    let mut list: Vec<i64> = Vec::new();
    let mut index: usize = 0;
    while index < oids.len()
        invariant
            index <= oids.len(),
            list@ == numbers(oids@).take(index as int),
        decreases oids.len() - index,
    {
        list.push(oids[index] as i64);
        index = index + 1;
        assert(list@ =~= numbers(oids@).take(index as int));
    }
    assert(numbers(oids@).take(index as int) =~= numbers(oids@));
    list
}

/// Statements that name all results at once.
pub open spec fn about_all(sql: Seq<char>, oids: Seq<u32>) -> StatementModel {
    StatementModel { sql, arguments: seq![SqlModel::OidArray(oids)] }
}

fn about(sql: &str, oids: &Vec<u32>) -> (statement: Statement)
    ensures
        statement@ == about_all(sql@, oids@),
{
    let mut list: Vec<u32> = Vec::new();
    let mut index: usize = 0;
    while index < oids.len()
        invariant
            index <= oids.len(),
            list@ == oids@.take(index as int),
        decreases oids.len() - index,
    {
        list.push(oids[index]);
        index = index + 1;
        assert(list@ =~= oids@.take(index as int));
    }
    assert(list@ =~= oids@);
    let statement = Statement::new(sql.to_owned()).with(SqlValue::OidArray(list));
    assert(statement@.arguments =~= seq![SqlModel::OidArray(oids@)]);
    statement
}

/// Results that come to rest, in the order of their locks.
pub struct QuiescePlan {
    pub result_oids: Vec<u32>,
}

/// What the quiescing waits for.
#[derive(Clone, Debug, PartialEq, Eq)]
pub enum QuiesceState {
    Locking { index: usize },
    Deactivating,
    Reading,
    Holding { sources: Vec<Row>, index: usize },
}

impl QuiescePlan {
    /// Results are locked in ascending order, each of them once.
    pub open spec fn wf(self) -> bool {
        ascending(numbers(self.result_oids@))
    }

    /// Orders the results.
    pub fn new(result_oids: &Vec<u32>) -> (plan: QuiescePlan)
        ensures
            plan.wf(),
            forall|oid: u32| #[trigger]
                plan.result_oids@.contains(oid) <==> result_oids@.contains(oid),
    {
        let ordered = locking_order(&widen(result_oids));
        let mut list: Vec<u32> = Vec::new();
        let mut index: usize = 0;
        proof {
            assert forall|at: int| 0 <= at < ordered@.len() implies 0 <= #[trigger] ordered@[at]
                <= u32::MAX by {
                assert(ordered@.contains(ordered@[at]));
                assert(numbers(result_oids@).contains(ordered@[at]));
            }
        }
        while index < ordered.len()
            invariant
                index <= ordered.len(),
                forall|at: int|
                    0 <= at < ordered@.len() ==> 0 <= #[trigger] ordered@[at] <= u32::MAX,
                numbers(list@) == ordered@.take(index as int),
            decreases ordered.len() - index,
        {
            let ghost before = list@;
            assert(numbers(before).len() == index);
            list.push(ordered[index] as u32);
            proof {
                let taken = ordered@.take(index + 1);
                assert forall|at: int| 0 <= at < taken.len() implies #[trigger] numbers(list@)[at]
                    == taken[at] by {
                    if at < index {
                        assert(numbers(before)[at] == ordered@.take(index as int)[at]);
                    }
                }
                assert(numbers(list@) =~= taken);
            }
            index = index + 1;
        }
        assert(ordered@.take(index as int) =~= ordered@);
        proof {
            assert forall|oid: u32| #[trigger] list@.contains(oid) <==> result_oids@.contains(
                oid,
            ) by {
                if list@.contains(oid) {
                    let at = choose|at: int| 0 <= at < list@.len() && list@[at] == oid;
                    assert(numbers(list@)[at] == oid as i64);
                    assert(ordered@.contains(oid as i64));
                    assert(numbers(result_oids@).contains(oid as i64));
                    let from = choose|from: int|
                        0 <= from < result_oids@.len() && numbers(result_oids@)[from] == oid as i64;
                    assert(result_oids@[from] == oid);
                }
                if result_oids@.contains(oid) {
                    let from = choose|from: int|
                        0 <= from < result_oids@.len() && result_oids@[from] == oid;
                    assert(numbers(result_oids@)[from] == oid as i64);
                    assert(numbers(result_oids@).contains(oid as i64));
                    assert(ordered@.contains(oid as i64));
                    let at = choose|at: int| 0 <= at < ordered@.len() && ordered@[at] == oid as i64;
                    assert(numbers(list@)[at] == oid as i64);
                    assert(list@[at] == oid);
                }
            }
        }
        QuiescePlan { result_oids: list }
    }

    /// Whether a state is one that this quiescing waits in.
    pub open spec fn waits(self, state: QuiesceState) -> bool {
        match state {
            QuiesceState::Locking { index } => index < self.result_oids.len(),
            QuiesceState::Holding { sources, index } => index < sources.len(),
            _ => true,
        }
    }

    /// The results are locked one by one; behind the last they are all
    /// deactivated.
    pub open spec fn locks(self, index: int) -> ProgressModel<QuiesceState, ()> {
        if index < self.result_oids.len() {
            ProgressModel::Ask {
                state: QuiesceState::Locking { index: index as usize },
                request: RequestModel::Write(ddl::lock_dataflow_query(self.result_oids[index])),
            }
        } else {
            ProgressModel::Ask {
                state: QuiesceState::Deactivating,
                request: RequestModel::Write(about_all(DEACTIVATE_SQL@, self.result_oids@)),
            }
        }
    }

    /// The sources are locked one by one.
    pub open spec fn holds(self, sources: Vec<Row>, index: int) -> Result<
        ProgressModel<QuiesceState, ()>,
        Seq<char>,
    > {
        if index < sources.len() {
            match ddl::source_lock(sources[index].text(2), sources[index].text(3)) {
                Err(message) => Err(message),
                Ok(sql) => Ok(
                    ProgressModel::Ask {
                        state: QuiesceState::Holding { sources, index: index as usize },
                        request: RequestModel::Write(
                            StatementModel { sql, arguments: Seq::empty() },
                        ),
                    },
                ),
            }
        } else {
            Ok(ProgressModel::Done(()))
        }
    }

    /// What the quiescing does with a reply.
    pub open spec fn resumes(self, state: QuiesceState, reply: Reply) -> Result<
        ProgressModel<QuiesceState, ()>,
        Seq<char>,
    > {
        match (state, reply) {
            (QuiesceState::Locking { index }, Reply::Rows(_)) => Ok(self.locks(index + 1)),
            (QuiesceState::Deactivating, Reply::Rows(_)) => Ok(
                ProgressModel::Ask {
                    state: QuiesceState::Reading,
                    request: RequestModel::Read(about_all(SOURCES_SQL@, self.result_oids@)),
                },
            ),
            (QuiesceState::Reading, Reply::Rows(sources)) => self.holds(sources, 0),
            (QuiesceState::Holding { sources, index }, Reply::Rows(_)) => self.holds(
                sources,
                index + 1,
            ),
            _ => Err(MISPLACED@),
        }
    }

    fn lock(&self, index: usize) -> (progress: Progress<QuiesceState, ()>)
        ensures
            progress@ == self.locks(index as int),
            progress matches Progress::Ask { state, .. } ==> self.waits(state),
    {
        if index < self.result_oids.len() {
            return Progress::Ask {
                state: QuiesceState::Locking { index },
                request: Request::Write(lock_dataflow_statement(self.result_oids[index])),
            };
        }
        Progress::Ask {
            state: QuiesceState::Deactivating,
            request: Request::Write(about(DEACTIVATE_SQL, &self.result_oids)),
        }
    }

    fn hold(&self, sources: Vec<Row>, index: usize) -> (outcome: Result<
        Progress<QuiesceState, ()>,
        String,
    >)
        ensures
            text::agrees_view(outcome, self.holds(sources, index as int)),
            outcome matches Ok(Progress::Ask { state, .. }) ==> self.waits(state),
    {
        if index >= sources.len() {
            return Ok(Progress::Done(()));
        }
        let sql = source_lock_query(&sources[index].get_text(2), &sources[index].get_text(3))?;
        Ok(
            Progress::Ask {
                state: QuiesceState::Holding { sources, index },
                request: Request::Write(Statement::new(sql)),
            },
        )
    }

    /// Opens the quiescing.
    pub fn open(&self) -> (progress: Progress<QuiesceState, ()>)
        ensures
            progress@ == self.locks(0),
            progress matches Progress::Ask { state, .. } ==> self.waits(state),
    {
        self.lock(0)
    }

    /// Goes on with the reply to the last request.
    pub fn resume(&self, state: QuiesceState, reply: Reply) -> (outcome: Result<
        Progress<QuiesceState, ()>,
        String,
    >)
        requires
            self.waits(state),
        ensures
            text::agrees_view(outcome, self.resumes(state, reply)),
            outcome matches Ok(Progress::Ask { state, .. }) ==> self.waits(state),
    {
        let rows = match reply {
            Reply::Rows(rows) => rows,
            _ => return fail(MISPLACED),
        };
        match state {
            QuiesceState::Locking { index } => Ok(self.lock(index + 1)),
            QuiesceState::Deactivating => Ok(
                Progress::Ask {
                    state: QuiesceState::Reading,
                    request: Request::Read(about(SOURCES_SQL, &self.result_oids)),
                },
            ),
            QuiesceState::Reading => self.hold(rows, 0),
            QuiesceState::Holding { sources, index } => self.hold(sources, index + 1),
        }
    }
}

/// Nothing of a dataflow changes before every one of them is locked, in
/// ascending order.
pub proof fn changes_come_behind_all_locks(plan: QuiescePlan, state: QuiesceState, reply: Reply)
    requires
        plan.waits(state),
    ensures
        plan.resumes(state, reply) matches Ok(
            ProgressModel::Ask { state: QuiesceState::Locking { index }, request },
        ) ==> 0 < index < plan.result_oids.len() && state == (QuiesceState::Locking {
            index: (index - 1) as usize,
        }) && request == RequestModel::Write(ddl::lock_dataflow_query(plan.result_oids[index as int])),
        plan.resumes(state, reply) matches Ok(
            ProgressModel::Ask { state: QuiesceState::Deactivating, .. },
        ) ==> state == (QuiesceState::Locking { index: (plan.result_oids.len() - 1) as usize }),
{
}

/// What the locking of all dataflows waits for.
#[derive(Clone, Debug, PartialEq, Eq)]
pub enum LockState {
    Reading,
    Locking { results: Vec<Row>, index: usize },
}

/// The first request of the locking of all dataflows: their list.
pub open spec fn all_listed() -> ProgressModel<LockState, ()> {
    ProgressModel::Ask {
        state: LockState::Reading,
        request: RequestModel::Read(
            StatementModel { sql: RESULTS_SQL@, arguments: Seq::empty() },
        ),
    }
}

/// The listed dataflows are locked one by one.
pub open spec fn all_locked_from(results: Vec<Row>, index: int) -> Result<
    ProgressModel<LockState, ()>,
    Seq<char>,
> {
    if index < results.len() {
        match ddl::listed_result(results[index].oid(1)) {
            Err(message) => Err(message),
            Ok(oid) => Ok(
                ProgressModel::Ask {
                    state: LockState::Locking { results, index: index as usize },
                    request: RequestModel::Write(ddl::lock_dataflow_query(oid)),
                },
            ),
        }
    } else {
        Ok(ProgressModel::Done(()))
    }
}

/// What the locking of all dataflows does with a reply.
pub open spec fn all_resumes(state: LockState, reply: Reply) -> Result<
    ProgressModel<LockState, ()>,
    Seq<char>,
> {
    match (state, reply) {
        (LockState::Reading, Reply::Rows(results)) => all_locked_from(results, 0),
        (LockState::Locking { results, index }, Reply::Rows(_)) => all_locked_from(
            results,
            index + 1,
        ),
        _ => Err(MISPLACED@),
    }
}

fn lock_from(results: Vec<Row>, index: usize) -> (outcome: Result<
    Progress<LockState, ()>,
    String,
>)
    ensures
        text::agrees_view(outcome, all_locked_from(results, index as int)),
        outcome matches Ok(
            Progress::Ask { state: LockState::Locking { results: list, index: at }, .. },
        ) ==> at < list.len(),
{
    if index >= results.len() {
        return Ok(Progress::Done(()));
    }
    let oid: u32 = decode_result_oid(results[index].get_oid(1))?;
    Ok(
        Progress::Ask {
            state: LockState::Locking { results, index },
            request: Request::Write(lock_dataflow_statement(oid)),
        },
    )
}

/// Opens the locking of all dataflows.
pub fn open_lock_all() -> (progress: Progress<LockState, ()>)
    ensures
        progress@ == all_listed(),
{
    Progress::Ask {
        state: LockState::Reading,
        request: Request::Read(Statement::new(RESULTS_SQL.to_owned())),
    }
}

/// Goes on with the reply to the last request.
pub fn resume_lock_all(state: LockState, reply: Reply) -> (outcome: Result<
    Progress<LockState, ()>,
    String,
>)
    requires
        state matches LockState::Locking { results, index } ==> index < results.len(),
    ensures
        text::agrees_view(outcome, all_resumes(state, reply)),
        outcome matches Ok(Progress::Ask { state: LockState::Locking { results, index }, .. })
            ==> index < results.len(),
{
    let rows = match reply {
        Reply::Rows(rows) => rows,
        _ => return fail(MISPLACED),
    };
    match state {
        LockState::Reading => lock_from(rows, 0),
        LockState::Locking { results, index } => lock_from(results, index + 1),
    }
}

} // verus!
