//! What stands before a statement that drops something, request by request.

use vstd::prelude::*;

use crate::ddl::{
    self, ensure_shiba_slot_inactive, guard_drop_owned, guard_source, locking_order, dropped_results,
    DropPlan, CATALOG_EXISTS_SQL, EXTENSION_OWNER_SQL, IS_RESULT_SQL, IS_SOURCE_SQL,
    LIFECYCLE_CATALOG_SQL, LIFECYCLE_CLEAN_SQL, LOCK_ALL_SQL, PREPARE_DROPS_SQL,
    RESOLVE_RELATION_SQL, SLOT_EXISTS_SQL,
};
use crate::session::{
    self, answered_boolean, answered_integer, first_boolean, first_oid, Progress, Reply, Request,
    RequestModel, Row, MISPLACED,
};
use crate::sql::{SqlModel, SqlValue, Statement, StatementModel};
use crate::text::{self, fail};

verus! {

/// What the check of a drop works with.
pub struct DropCheck<'a> {
    pub plan: DropPlan,
    /// The roles of a `DROP OWNED`.
    pub roles: &'a Vec<Option<u32>>,
    /// Whether a `DROP EXTENSION` names this extension.
    pub drops_shiba: bool,
    /// The quoted names of the tables of a `DROP TABLE`.
    pub tables: &'a Vec<String>,
}

/// What the check of a drop waits for.
#[derive(Clone, Debug, PartialEq, Eq)]
pub enum DropState {
    Owner,
    Slot,
    Catalog { slot: Option<bool> },
    Clean { slot: Option<bool>, catalog: Option<bool> },
    Cascade,
    LockAll,
    Installed,
    Resolve { index: usize, found: Vec<i64> },
    Source { index: usize, oids: Vec<i64> },
    Result { index: usize, oids: Vec<i64>, flags: Vec<Option<bool>> },
    Prepare,
}

/// What the check of a drop waits for, as a mathematical value.
#[verifier::ext_equal]
pub enum DropModel {
    Owner,
    Slot,
    Catalog { slot: Option<bool> },
    Clean { slot: Option<bool>, catalog: Option<bool> },
    Cascade,
    LockAll,
    Installed,
    Resolve { index: int, found: Seq<i64> },
    Source { index: int, oids: Seq<i64> },
    Result { index: int, oids: Seq<i64>, flags: Seq<Option<bool>> },
    Prepare,
}

impl View for DropState {
    type V = DropModel;

    open spec fn view(&self) -> DropModel {
        match self {
            DropState::Owner => DropModel::Owner,
            DropState::Slot => DropModel::Slot,
            DropState::Catalog { slot } => DropModel::Catalog { slot: *slot },
            DropState::Clean { slot, catalog } => DropModel::Clean {
                slot: *slot,
                catalog: *catalog,
            },
            DropState::Cascade => DropModel::Cascade,
            DropState::LockAll => DropModel::LockAll,
            DropState::Installed => DropModel::Installed,
            DropState::Resolve { index, found } => DropModel::Resolve {
                index: *index as int,
                found: found@,
            },
            DropState::Source { index, oids } => DropModel::Source {
                index: *index as int,
                oids: oids@,
            },
            DropState::Result { index, oids, flags } => DropModel::Result {
                index: *index as int,
                oids: oids@,
                flags: flags@,
            },
            DropState::Prepare => DropModel::Prepare,
        }
    }
}

/// How far the check has come: it waits for an answer, or the drop may run.
#[verifier::ext_equal]
pub enum DropCourse {
    Ask { state: DropModel, request: RequestModel },
    Clear,
}

/// The course that progress stands for.
pub open spec fn course(progress: Progress<DropState, ()>) -> DropCourse {
    match progress {
        Progress::Ask { state, request } => DropCourse::Ask { state: state@, request: request@ },
        Progress::Done(()) => DropCourse::Clear,
    }
}

/// Progress and its model agree.
pub open spec fn follows(
    outcome: Result<Progress<DropState, ()>, String>,
    model: Result<DropCourse, Seq<char>>,
) -> bool {
    match (outcome, model) {
        (Ok(progress), Ok(expected)) => course(progress) == expected,
        (Err(error), Err(message)) => error@ == message,
        _ => false,
    }
}

/// A statement without arguments.
pub open spec fn plain(sql: Seq<char>) -> StatementModel {
    StatementModel { sql, arguments: Seq::empty() }
}

/// A statement about one relation. OIDs read as `integer` keep their bits.
pub open spec fn about(sql: Seq<char>, oid: i64) -> StatementModel {
    StatementModel { sql, arguments: seq![SqlModel::Oid(oid as i32 as u32)] }
}

fn about_one(sql: &str, oid: i64) -> (statement: Statement)
    ensures
        statement@ == about(sql@, oid),
{
    let statement = Statement::new(sql.to_owned()).oid(oid as i32 as u32);
    assert(statement@.arguments =~= seq![SqlModel::Oid(oid as i32 as u32)]);
    statement
}

/// Relations as OIDs.
pub open spec fn as_oids(list: Seq<i64>) -> Seq<u32> {
    Seq::new(list.len(), |index: int| list[index] as i32 as u32)
}

fn narrow(list: &Vec<i64>) -> (oids: Vec<u32>)
    ensures
        oids@ == as_oids(list@),
{
    let mut oids: Vec<u32> = Vec::new();
    let mut index: usize = 0;
    while index < list.len()
        invariant
            index <= list.len(),
            oids@ == as_oids(list@).take(index as int),
        decreases list.len() - index,
    {
        oids.push(list[index] as i32 as u32);
        index = index + 1;
        assert(oids@ =~= as_oids(list@).take(index as int));
    }
    assert(as_oids(list@).take(index as int) =~= as_oids(list@));
    oids
}

/// The message of a statement that failed, behind what it was for.
pub open spec fn failed(purpose: Seq<char>, error: Seq<char>) -> Seq<char> {
    purpose + ": "@ + error
}

fn explain(purpose: &str, error: &str) -> (message: String)
    ensures
        message@ == failed(purpose@, error@),
{
    let mut message = purpose.to_owned();
    message.append(": ");
    message.append(error);
    message
}

fn boolean(purpose: &str, rows: &Vec<Row>) -> (outcome: Result<Option<bool>, String>)
    ensures
        match (outcome, session::boolean_answer(rows@, 1)) {
            (Ok(answer), Ok(expected)) => answer == expected,
            (Err(error), Err(message)) => error@ == failed(purpose@, message),
            _ => false,
        },
{
    match answered_boolean(rows, 1) {
        Ok(answer) => Ok(answer),
        Err(error) => Err(explain(purpose, error.as_str())),
    }
}

fn integer(purpose: &str, rows: &Vec<Row>) -> (outcome: Result<Option<i32>, String>)
    ensures
        match (outcome, session::integer_answer(rows@, 1)) {
            (Ok(answer), Ok(expected)) => answer == expected,
            (Err(error), Err(message)) => error@ == failed(purpose@, message),
            _ => false,
        },
{
    match answered_integer(rows, 1) {
        Ok(answer) => Ok(answer),
        Err(error) => Err(explain(purpose, error.as_str())),
    }
}

impl<'a> DropCheck<'a> {
    /// Whether a state is one that this check waits in.
    pub open spec fn waits(self, state: DropState) -> bool {
        match state {
            DropState::Resolve { index, .. } => index < self.tables.len(),
            DropState::Source { index, oids } => index < oids.len(),
            DropState::Result { index, oids, flags } => index < oids.len() && flags.len() == index,
            _ => true,
        }
    }

    /// The first request, if there is anything to check: the owner of the
    /// extension goes first.
    pub open spec fn opening(self) -> DropCourse {
        if self.plan.guard_owner {
            DropCourse::Ask {
                state: DropModel::Owner,
                request: RequestModel::Read(plain(EXTENSION_OWNER_SQL@)),
            }
        } else {
            self.extension()
        }
    }

    pub open spec fn extension(self) -> DropCourse {
        if self.plan.guard_extension && self.drops_shiba {
            DropCourse::Ask {
                state: DropModel::Slot,
                request: RequestModel::Read(plain(SLOT_EXISTS_SQL@)),
            }
        } else {
            self.cascade()
        }
    }

    /// A drop that may reach any dataflow locks them all, where there are any.
    pub open spec fn cascade(self) -> DropCourse {
        if self.plan.lock_all {
            DropCourse::Ask {
                state: DropModel::Cascade,
                request: RequestModel::Probe(plain(CATALOG_EXISTS_SQL@)),
            }
        } else {
            self.installed()
        }
    }

    pub open spec fn installed(self) -> DropCourse {
        if self.plan.inspect_tables {
            DropCourse::Ask {
                state: DropModel::Installed,
                request: RequestModel::Probe(plain(CATALOG_EXISTS_SQL@)),
            }
        } else {
            DropCourse::Clear
        }
    }

    /// The tables are looked up in turn; those that are found are then checked
    /// in the order of their locks.
    pub open spec fn resolves(self, index: int, found: Seq<i64>) -> DropCourse {
        if index < self.tables.len() {
            DropCourse::Ask {
                state: DropModel::Resolve { index, found },
                request: RequestModel::Read(
                    StatementModel {
                        sql: RESOLVE_RELATION_SQL@,
                        arguments: seq![SqlModel::Text(Some(self.tables[index]@))],
                    },
                ),
            }
        } else {
            self.sources(0, ddl::canonical_order(found))
        }
    }

    pub open spec fn sources(self, index: int, oids: Seq<i64>) -> DropCourse {
        if index < oids.len() {
            DropCourse::Ask {
                state: DropModel::Source { index, oids },
                request: RequestModel::Read(about(IS_SOURCE_SQL@, oids[index])),
            }
        } else {
            self.results(0, oids, Seq::empty())
        }
    }

    pub open spec fn results(self, index: int, oids: Seq<i64>, flags: Seq<Option<bool>>) -> DropCourse {
        if index < oids.len() {
            DropCourse::Ask {
                state: DropModel::Result { index, oids, flags },
                request: RequestModel::Read(about(IS_RESULT_SQL@, oids[index])),
            }
        } else {
            self.prepares(ddl::results_among(oids, flags, oids.len()))
        }
    }

    /// The results among the tables come to rest before they are dropped.
    pub open spec fn prepares(self, results: Seq<i64>) -> DropCourse {
        if results.len() == 0 {
            DropCourse::Clear
        } else {
            DropCourse::Ask {
                state: DropModel::Prepare,
                request: RequestModel::Write(
                    StatementModel {
                        sql: PREPARE_DROPS_SQL@,
                        arguments: seq![SqlModel::OidArray(as_oids(results))],
                    },
                ),
            }
        }
    }

    /// What a failed statement of the check was for. A probe that fails counts
    /// as one that found nothing.
    pub open spec fn purpose(state: DropModel) -> Seq<char> {
        match state {
            DropModel::Owner => "Shiba failed to inspect its extension owner before DROP OWNED"@,
            DropModel::Slot => "Shiba failed to inspect its logical slot before DROP EXTENSION"@,
            DropModel::Catalog { .. } => "Shiba failed to inspect its catalog before DROP EXTENSION"@,
            DropModel::Clean { .. } => "Shiba failed to inspect worker state before DROP EXTENSION"@,
            DropModel::LockAll => "Shiba failed to serialize indirect DROP with dataflow execution"@,
            DropModel::Resolve { .. } => "Shiba failed to resolve a result table before DROP"@,
            DropModel::Source { .. } => "Shiba failed to inspect source dependencies before DROP"@,
            DropModel::Result { .. } => "Shiba failed to inspect a result table before DROP"@,
            DropModel::Prepare => "Shiba failed to quiesce result DAGs before DROP"@,
            DropModel::Cascade | DropModel::Installed => "Shiba failed to probe its catalog before DROP"@,
        }
    }

    fn purpose_text(state: &DropState) -> (purpose: &'static str)
        ensures
            purpose@ == Self::purpose(state@),
    {
        match state {
            DropState::Owner => "Shiba failed to inspect its extension owner before DROP OWNED",
            DropState::Slot => "Shiba failed to inspect its logical slot before DROP EXTENSION",
            DropState::Catalog { .. } => "Shiba failed to inspect its catalog before DROP EXTENSION",
            DropState::Clean { .. } => "Shiba failed to inspect worker state before DROP EXTENSION",
            DropState::LockAll => "Shiba failed to serialize indirect DROP with dataflow execution",
            DropState::Resolve { .. } => "Shiba failed to resolve a result table before DROP",
            DropState::Source { .. } => "Shiba failed to inspect source dependencies before DROP",
            DropState::Result { .. } => "Shiba failed to inspect a result table before DROP",
            DropState::Prepare => "Shiba failed to quiesce result DAGs before DROP",
            DropState::Cascade | DropState::Installed => "Shiba failed to probe its catalog before DROP",
        }
    }

    /// The message of a statement that failed.
    pub fn failure(state: &DropState, error: &str) -> (message: String)
        ensures
            message@ == failed(Self::purpose(state@), error@),
    {
        explain(Self::purpose_text(state), error)
    }

    /// The `boolean` that a statement of the check answers.
    pub open spec fn boolean_of(state: DropModel, rows: Seq<Row>) -> Result<
        Option<bool>,
        Seq<char>,
    > {
        match session::boolean_answer(rows, 1) {
            Err(message) => Err(failed(Self::purpose(state), message)),
            Ok(answer) => Ok(answer),
        }
    }

    /// The `integer` that a statement of the check answers.
    pub open spec fn integer_of(state: DropModel, rows: Seq<Row>) -> Result<
        Option<i32>,
        Seq<char>,
    > {
        match session::integer_answer(rows, 1) {
            Err(message) => Err(failed(Self::purpose(state), message)),
            Ok(answer) => Ok(answer),
        }
    }

    /// What the check does with a reply.
    pub open spec fn resumes(self, state: DropModel, reply: Reply) -> Result<DropCourse, Seq<char>> {
        match (state, reply) {
            (DropModel::Owner, Reply::Rows(rows)) => text::guarded(
                ddl::owner_guarded(session::oid(rows@, 1), self.roles@),
                self.extension(),
            ),
            (DropModel::Slot, Reply::Rows(rows)) => match Self::boolean_of(state, rows@) {
                Err(message) => Err(message),
                Ok(slot) => Ok(
                    DropCourse::Ask {
                        state: DropModel::Catalog { slot },
                        request: RequestModel::Read(plain(LIFECYCLE_CATALOG_SQL@)),
                    },
                ),
            },
            (DropModel::Catalog { slot }, Reply::Rows(rows)) => match Self::boolean_of(state, rows@) {
                Err(message) => Err(message),
                Ok(catalog) => if catalog == Some(true) {
                    Ok(
                        DropCourse::Ask {
                            state: DropModel::Clean { slot, catalog },
                            request: RequestModel::Read(plain(LIFECYCLE_CLEAN_SQL@)),
                        },
                    )
                } else {
                    text::guarded(ddl::extension_idle(slot, catalog, None), self.cascade())
                },
            },
            (DropModel::Clean { slot, catalog }, Reply::Rows(rows)) => match Self::boolean_of(state, rows@) {
                Err(message) => Err(message),
                Ok(clean) => text::guarded(
                    ddl::extension_idle(slot, catalog, clean),
                    self.cascade(),
                ),
            },
            (DropModel::Cascade, Reply::Rows(rows)) => Ok(
                if session::boolean(rows@, 1) == Some(true) {
                    DropCourse::Ask {
                        state: DropModel::LockAll,
                        request: RequestModel::Write(plain(LOCK_ALL_SQL@)),
                    }
                } else {
                    self.installed()
                },
            ),
            (DropModel::LockAll, Reply::Rows(_)) => Ok(self.installed()),
            (DropModel::Installed, Reply::Rows(rows)) => Ok(
                if session::boolean(rows@, 1) == Some(true) {
                    self.resolves(0, Seq::empty())
                } else {
                    DropCourse::Clear
                },
            ),
            (DropModel::Resolve { index, found }, Reply::Rows(rows)) => match Self::integer_of(state, rows@) {
                Err(message) => Err(message),
                Ok(Some(oid)) => Ok(self.resolves(index + 1, found.push(oid as i64))),
                Ok(None) => Ok(self.resolves(index + 1, found)),
            },
            (DropModel::Source { index, oids }, Reply::Rows(rows)) => match Self::boolean_of(state, rows@) {
                Err(message) => Err(message),
                Ok(source) => text::guarded(
                    ddl::source_guarded(oids[index], source),
                    self.sources(index + 1, oids),
                ),
            },
            (
                DropModel::Result { index, oids, flags },
                Reply::Rows(rows),
            ) => match Self::boolean_of(state, rows@) {
                Err(message) => Err(message),
                Ok(result) => Ok(self.results(index + 1, oids, flags.push(result))),
            },
            (DropModel::Prepare, Reply::Rows(_)) => Ok(DropCourse::Clear),
            _ => Err(MISPLACED@),
        }
    }

    fn check_extension(&self) -> (progress: Progress<DropState, ()>)
        ensures
            course(progress) == self.extension(),
            progress matches Progress::Ask { state, .. } ==> self.waits(state),
    {
        if self.plan.guard_extension && self.drops_shiba {
            return Progress::Ask {
                state: DropState::Slot,
                request: Request::Read(Statement::new(SLOT_EXISTS_SQL.to_owned())),
            };
        }
        self.check_cascade()
    }

    fn check_cascade(&self) -> (progress: Progress<DropState, ()>)
        ensures
            course(progress) == self.cascade(),
            progress matches Progress::Ask { state, .. } ==> self.waits(state),
    {
        if self.plan.lock_all {
            return Progress::Ask {
                state: DropState::Cascade,
                request: Request::Probe(Statement::new(CATALOG_EXISTS_SQL.to_owned())),
            };
        }
        self.check_installed()
    }

    fn check_installed(&self) -> (progress: Progress<DropState, ()>)
        ensures
            course(progress) == self.installed(),
            progress matches Progress::Ask { state, .. } ==> self.waits(state),
    {
        if self.plan.inspect_tables {
            return Progress::Ask {
                state: DropState::Installed,
                request: Request::Probe(Statement::new(CATALOG_EXISTS_SQL.to_owned())),
            };
        }
        Progress::Done(())
    }

    fn resolve(&self, index: usize, found: Vec<i64>) -> (progress: Progress<DropState, ()>)
        ensures
            course(progress) == self.resolves(index as int, found@),
            progress matches Progress::Ask { state, .. } ==> self.waits(state),
    {
        if index < self.tables.len() {
            let statement = Statement::new(RESOLVE_RELATION_SQL.to_owned()).text(
                self.tables[index].as_str(),
            );
            assert(statement@.arguments =~= seq![
                SqlModel::Text(Some(self.tables[index as int]@)),
            ]);
            return Progress::Ask {
                state: DropState::Resolve { index, found },
                request: Request::Read(statement),
            };
        }
        self.check_sources(0, locking_order(&found))
    }

    fn check_sources(&self, index: usize, oids: Vec<i64>) -> (progress: Progress<DropState, ()>)
        ensures
            course(progress) == self.sources(index as int, oids@),
            progress matches Progress::Ask { state, .. } ==> self.waits(state),
    {
        if index < oids.len() {
            return Progress::Ask {
                request: Request::Read(about_one(IS_SOURCE_SQL, oids[index])),
                state: DropState::Source { index, oids },
            };
        }
        let flags: Vec<Option<bool>> = Vec::new();
        assert(flags@ =~= Seq::<Option<bool>>::empty());
        self.check_results(0, oids, flags)
    }

    fn check_results(&self, index: usize, oids: Vec<i64>, flags: Vec<Option<bool>>) -> (progress:
        Progress<DropState, ()>)
        requires
            index <= oids.len(),
            flags.len() == index,
        ensures
            course(progress) == self.results(index as int, oids@, flags@),
            progress matches Progress::Ask { state, .. } ==> self.waits(state),
    {
        if index < oids.len() {
            return Progress::Ask {
                request: Request::Read(about_one(IS_RESULT_SQL, oids[index])),
                state: DropState::Result { index, oids, flags },
            };
        }
        let results = dropped_results(&oids, &flags);
        if results.len() == 0 {
            return Progress::Done(());
        }
        let statement = Statement::new(PREPARE_DROPS_SQL.to_owned()).with(
            SqlValue::OidArray(narrow(&results)),
        );
        assert(statement@.arguments =~= seq![SqlModel::OidArray(as_oids(results@))]);
        Progress::Ask { state: DropState::Prepare, request: Request::Write(statement) }
    }

    /// Opens the check.
    pub fn open(&self) -> (progress: Progress<DropState, ()>)
        ensures
            course(progress) == self.opening(),
            progress matches Progress::Ask { state, .. } ==> self.waits(state),
    {
        if self.plan.guard_owner {
            return Progress::Ask {
                state: DropState::Owner,
                request: Request::Read(Statement::new(EXTENSION_OWNER_SQL.to_owned())),
            };
        }
        self.check_extension()
    }

    /// Goes on with the reply to the last request.
    pub fn resume(&self, state: DropState, reply: Reply) -> (outcome: Result<
        Progress<DropState, ()>,
        String,
    >)
        requires
            self.waits(state),
        ensures
            follows(outcome, self.resumes(state@, reply)),
            outcome matches Ok(Progress::Ask { state, .. }) ==> self.waits(state),
    {
        let rows = match reply {
            Reply::Rows(rows) => rows,
            _ => return fail(MISPLACED),
        };
        let purpose = Self::purpose_text(&state);
        match state {
            DropState::Owner => {
                guard_drop_owned(first_oid(&rows, 1), self.roles)?;
                Ok(self.check_extension())
            },
            DropState::Slot => {
                let slot = boolean(purpose, &rows)?;
                Ok(
                    Progress::Ask {
                        state: DropState::Catalog { slot },
                        request: Request::Read(Statement::new(LIFECYCLE_CATALOG_SQL.to_owned())),
                    },
                )
            },
            DropState::Catalog { slot } => {
                let catalog = boolean(purpose, &rows)?;
                if let Some(true) = catalog {
                    return Ok(
                        Progress::Ask {
                            state: DropState::Clean { slot, catalog },
                            request: Request::Read(Statement::new(LIFECYCLE_CLEAN_SQL.to_owned())),
                        },
                    );
                }
                ensure_shiba_slot_inactive(slot, catalog, None)?;
                Ok(self.check_cascade())
            },
            DropState::Clean { slot, catalog } => {
                ensure_shiba_slot_inactive(slot, catalog, boolean(purpose, &rows)?)?;
                Ok(self.check_cascade())
            },
            DropState::Cascade => {
                if let Some(true) = first_boolean(&rows, 1) {
                    return Ok(
                        Progress::Ask {
                            state: DropState::LockAll,
                            request: Request::Write(Statement::new(LOCK_ALL_SQL.to_owned())),
                        },
                    );
                }
                Ok(self.check_installed())
            },
            DropState::LockAll => Ok(self.check_installed()),
            DropState::Installed => {
                if let Some(true) = first_boolean(&rows, 1) {
                    let found: Vec<i64> = Vec::new();
                    assert(found@ =~= Seq::<i64>::empty());
                    return Ok(self.resolve(0, found));
                }
                Ok(Progress::Done(()))
            },
            DropState::Resolve { index, found } => {
                let mut found = found;
                if let Some(oid) = integer(purpose, &rows)? {
                    found.push(oid as i64);
                }
                Ok(self.resolve(index + 1, found))
            },
            DropState::Source { index, oids } => {
                guard_source(oids[index], boolean(purpose, &rows)?)?;
                Ok(self.check_sources(index + 1, oids))
            },
            DropState::Result { index, oids, flags } => {
                let mut flags = flags;
                flags.push(boolean(purpose, &rows)?);
                Ok(self.check_results(index + 1, oids, flags))
            },
            DropState::Prepare => Ok(Progress::Done(())),
        }
    }
}

/// No table is prepared for a drop before every table of the statement was
/// seen not to be a source.
pub proof fn sources_are_checked_before_results(check: DropCheck, state: DropModel, reply: Reply)
    ensures
        check.resumes(state, reply) matches Ok(
            DropCourse::Ask { state: DropModel::Result { index, oids, .. }, .. },
        ) ==> (state matches DropModel::Result { oids: same, .. } && same == oids) || (
        state matches DropModel::Source { index: last, oids: same } && same == oids && last + 1
            >= oids.len() && index == 0 && (reply matches Reply::Rows(rows) && session::boolean(
            rows@,
            1,
        ) != Some(true))),
{
}

} // verus!
