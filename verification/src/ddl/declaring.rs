//! A utility statement from the reserved schema's point of view: what is not a
//! declaration is handed on, and a declaration is registered around its run.

use vstd::prelude::*;

use crate::ddl::{
    self, plan_declaration, BEGIN_REGISTRATION_SQL, LOCK_SOURCES_SQL, REGISTER_SQL,
};
use crate::session::MISPLACED;
use crate::sql::{SqlModel, SqlValue, Statement, StatementModel};
use crate::text::{self, fail};

verus! {

/// What a utility statement asks of its host.
#[derive(Clone, Debug, PartialEq, Eq)]
pub enum UtilityRequest {
    /// Runs a statement of the extension.
    Write(Statement),
    /// Makes the statement create its relation without rows.
    Suppress,
    /// Hands the statement to the next hook.
    Run,
    /// The relation that the statement created.
    Resolve,
    /// The checked plan of the dataflow, as JSON text.
    Finish,
}

/// A request as a mathematical value.
#[verifier::ext_equal]
pub enum UtilityModel {
    Write(StatementModel),
    Suppress,
    Run,
    Resolve,
    Finish,
}

impl View for UtilityRequest {
    type V = UtilityModel;

    open spec fn view(&self) -> UtilityModel {
        match self {
            UtilityRequest::Write(statement) => UtilityModel::Write(statement@),
            UtilityRequest::Suppress => UtilityModel::Suppress,
            UtilityRequest::Run => UtilityModel::Run,
            UtilityRequest::Resolve => UtilityModel::Resolve,
            UtilityRequest::Finish => UtilityModel::Finish,
        }
    }
}

/// What the host answers.
#[derive(Clone, Debug, PartialEq, Eq)]
pub enum UtilityReply {
    Done,
    Relation(Option<u32>),
    Plan(String),
    /// Why the plan of the dataflow is no sound plan.
    Rejected(String),
}

/// What a utility statement waits for.
#[derive(Clone, Copy, Debug, PartialEq, Eq, Structural)]
pub enum DeclareState {
    Beginning,
    Locking,
    Suppressing,
    Running { declares: bool },
    Resolving,
    Finishing { result_oid: u32 },
    Registering,
}

/// A request, or the end of the statement.
#[derive(Clone, Debug, PartialEq, Eq)]
pub enum DeclareProgress {
    Ask { state: DeclareState, request: UtilityRequest },
    Done,
}

/// A request, or the end, as a mathematical value.
#[verifier::ext_equal]
pub enum DeclareModel {
    Ask { state: DeclareState, request: UtilityModel },
    Done,
}

impl View for DeclareProgress {
    type V = DeclareModel;

    open spec fn view(&self) -> DeclareModel {
        match self {
            DeclareProgress::Ask { state, request } => DeclareModel::Ask {
                state: *state,
                request: request@,
            },
            DeclareProgress::Done => DeclareModel::Done,
        }
    }
}

/// A utility statement as far as declarations are concerned.
pub struct DeclarePlan {
    /// Whether it creates a table in the reserved schema.
    pub declaration: bool,
    /// The sources of its query, where it is a `CREATE TABLE AS` over one, or
    /// why the query cannot be executed.
    pub inspection: Option<Result<Vec<u32>, String>>,
    pub creating_extension: bool,
}

/// The first statement of a registration.
pub open spec fn begin_query() -> StatementModel {
    StatementModel { sql: BEGIN_REGISTRATION_SQL@, arguments: Seq::empty() }
}

/// Locks the sources of a declaration.
pub open spec fn lock_query(sources: Seq<u32>) -> StatementModel {
    StatementModel { sql: LOCK_SOURCES_SQL@, arguments: seq![SqlModel::OidArray(sources)] }
}

/// Registers a result and its plan.
pub open spec fn register_query(result_oid: u32, plan: Seq<char>) -> StatementModel {
    StatementModel {
        sql: REGISTER_SQL@,
        arguments: seq![SqlModel::Oid(result_oid), SqlModel::Text(Some(plan))],
    }
}

fn asked(state: DeclareState, request: UtilityRequest) -> (progress: DeclareProgress)
    ensures
        progress@ == (DeclareModel::Ask { state, request: request@ }),
{
    DeclareProgress::Ask { state, request }
}

fn copied(oids: &Vec<u32>) -> (list: Vec<u32>)
    ensures
        list@ == oids@,
{
    let mut list: Vec<u32> = Vec::new();
    let mut index: usize = 0;
    while index < oids.len()
        invariant
            index <= oids.len(),
            list@ == oids@.take(index as int),
        decreases oids.len() - index,
    {
        list.push(oids[index]);
        index = index + 1;
        assert(list@ =~= oids@.take(index as int));
    }
    assert(list@ =~= oids@);
    list
}

impl DeclarePlan {
    /// Whether the statement declares a dataflow.
    pub open spec fn declares(self) -> bool {
        self.declaration && self.inspection is Some
    }

    /// Whether a state is one that this statement waits in.
    pub open spec fn waits(self, state: DeclareState) -> bool {
        match state {
            DeclareState::Running { declares: false } => !self.declares(),
            _ => self.declares() && self.inspection->0 is Ok,
        }
    }

    /// The first request.
    pub open spec fn opening(self) -> Result<DeclareModel, Seq<char>> {
        match ddl::declared(self.declaration, self.inspection is Some, self.creating_extension) {
            Err(message) => Err(message),
            Ok(false) => Ok(
                DeclareModel::Ask {
                    state: DeclareState::Running { declares: false },
                    request: UtilityModel::Run,
                },
            ),
            Ok(true) => match self.inspection->0 {
                Err(error) => Err("Shiba cannot execute this dataflow declaration: "@ + error@),
                Ok(_) => Ok(
                    DeclareModel::Ask {
                        state: DeclareState::Beginning,
                        request: UtilityModel::Write(begin_query()),
                    },
                ),
            },
        }
    }

    /// What the statement does with a reply.
    pub open spec fn resumes(self, state: DeclareState, reply: UtilityReply) -> Result<
        DeclareModel,
        Seq<char>,
    > {
        match (state, reply) {
            (DeclareState::Beginning, UtilityReply::Done) => Ok(
                DeclareModel::Ask {
                    state: DeclareState::Locking,
                    request: UtilityModel::Write(lock_query(self.inspection->0->Ok_0@)),
                },
            ),
            (DeclareState::Locking, UtilityReply::Done) => Ok(
                DeclareModel::Ask {
                    state: DeclareState::Suppressing,
                    request: UtilityModel::Suppress,
                },
            ),
            (DeclareState::Suppressing, UtilityReply::Done) => Ok(
                DeclareModel::Ask {
                    state: DeclareState::Running { declares: true },
                    request: UtilityModel::Run,
                },
            ),
            (DeclareState::Running { declares }, UtilityReply::Done) => Ok(
                if declares {
                    DeclareModel::Ask {
                        state: DeclareState::Resolving,
                        request: UtilityModel::Resolve,
                    }
                } else {
                    DeclareModel::Done
                },
            ),
            (DeclareState::Resolving, UtilityReply::Relation(relation)) => match relation {
                None => Err("Shiba could not resolve the new CTAS result relation"@),
                Some(result_oid) => Ok(
                    DeclareModel::Ask {
                        state: DeclareState::Finishing { result_oid },
                        request: UtilityModel::Finish,
                    },
                ),
            },
            (DeclareState::Finishing { .. }, UtilityReply::Rejected(error)) => Err(
                "Shiba rejected this dataflow declaration: "@ + error@,
            ),
            (DeclareState::Finishing { result_oid }, UtilityReply::Plan(plan)) => Ok(
                DeclareModel::Ask {
                    state: DeclareState::Registering,
                    request: UtilityModel::Write(register_query(result_oid, plan@)),
                },
            ),
            (DeclareState::Registering, UtilityReply::Done) => Ok(DeclareModel::Done),
            _ => Err(MISPLACED@),
        }
    }

    /// Opens the statement.
    pub fn open(&self) -> (outcome: Result<DeclareProgress, String>)
        ensures
            text::agrees_view(outcome, self.opening()),
            outcome matches Ok(DeclareProgress::Ask { state, .. }) ==> self.waits(state),
    {
        if !plan_declaration(
            self.declaration,
            self.inspection.is_some(),
            self.creating_extension,
        )? {
            return Ok(asked(DeclareState::Running { declares: false }, UtilityRequest::Run));
        }
        match &self.inspection {
            Some(Err(error)) => Err(
                "Shiba cannot execute this dataflow declaration: ".to_owned().concat(
                    error.as_str(),
                ),
            ),
            _ => {
                let statement = Statement::new(BEGIN_REGISTRATION_SQL.to_owned());
                Ok(asked(DeclareState::Beginning, UtilityRequest::Write(statement)))
            },
        }
    }

    fn lock(&self) -> (statement: Statement)
        requires
            self.declares(),
            self.inspection->0 is Ok,
        ensures
            statement@ == lock_query(self.inspection->0->Ok_0@),
    {
        let sources = match &self.inspection {
            Some(Ok(sources)) => copied(sources),
            _ => Vec::new(),
        };
        let statement = Statement::new(LOCK_SOURCES_SQL.to_owned()).with(
            SqlValue::OidArray(sources),
        );
        assert(statement@.arguments =~= seq![SqlModel::OidArray(self.inspection->0->Ok_0@)]);
        statement
    }

    /// Goes on with the reply to the last request.
    pub fn resume(&self, state: DeclareState, reply: UtilityReply) -> (outcome: Result<
        DeclareProgress,
        String,
    >)
        requires
            self.waits(state),
        ensures
            text::agrees_view(outcome, self.resumes(state, reply)),
            outcome matches Ok(DeclareProgress::Ask { state, .. }) ==> self.waits(state),
    {
        match (state, reply) {
            (DeclareState::Beginning, UtilityReply::Done) => Ok(
                asked(DeclareState::Locking, UtilityRequest::Write(self.lock())),
            ),
            (DeclareState::Locking, UtilityReply::Done) => Ok(
                asked(DeclareState::Suppressing, UtilityRequest::Suppress),
            ),
            (DeclareState::Suppressing, UtilityReply::Done) => Ok(
                asked(DeclareState::Running { declares: true }, UtilityRequest::Run),
            ),
            (DeclareState::Running { declares }, UtilityReply::Done) => {
                if declares {
                    Ok(asked(DeclareState::Resolving, UtilityRequest::Resolve))
                } else {
                    Ok(DeclareProgress::Done)
                }
            },
            (DeclareState::Resolving, UtilityReply::Relation(relation)) => match relation {
                None => fail("Shiba could not resolve the new CTAS result relation"),
                Some(result_oid) => Ok(
                    asked(DeclareState::Finishing { result_oid }, UtilityRequest::Finish),
                ),
            },
            (DeclareState::Finishing { .. }, UtilityReply::Rejected(error)) => Err(
                "Shiba rejected this dataflow declaration: ".to_owned().concat(error.as_str()),
            ),
            (DeclareState::Finishing { result_oid }, UtilityReply::Plan(plan)) => {
                let statement = Statement::new(REGISTER_SQL.to_owned()).oid(result_oid).text(
                    plan.as_str(),
                );
                assert(statement@.arguments =~= register_query(result_oid, plan@).arguments);
                Ok(asked(DeclareState::Registering, UtilityRequest::Write(statement)))
            },
            (DeclareState::Registering, UtilityReply::Done) => Ok(DeclareProgress::Done),
            _ => fail(MISPLACED),
        }
    }

    /// What a failed statement of the extension was for.
    pub open spec fn purpose(state: DeclareState) -> Seq<char> {
        match state {
            DeclareState::Beginning => "Shiba failed to enter database registration lifecycle"@,
            DeclareState::Locking => "Shiba failed to lock the source table for activation"@,
            DeclareState::Registering => "Shiba failed to register the dataflow"@,
            _ => "Shiba failed to run the utility statement"@,
        }
    }

    /// The message of a statement that failed.
    pub fn failure(state: DeclareState, error: &str) -> (message: String)
        ensures
            message@ == Self::purpose(state) + ": "@ + error@,
    {
        let mut message = match state {
            DeclareState::Beginning => "Shiba failed to enter database registration lifecycle",
            DeclareState::Locking => "Shiba failed to lock the source table for activation",
            DeclareState::Registering => "Shiba failed to register the dataflow",
            _ => "Shiba failed to run the utility statement",
        }.to_owned();
        message.append(": ");
        message.append(error);
        message
    }

    /// How many requests a statement still makes from a state on.
    pub open spec fn requests_left(state: DeclareState) -> int {
        match state {
            DeclareState::Beginning => 7,
            DeclareState::Locking => 6,
            DeclareState::Suppressing => 5,
            DeclareState::Running { declares } => if declares {
                4
            } else {
                1
            },
            DeclareState::Resolving => 3,
            DeclareState::Finishing { .. } => 2,
            DeclareState::Registering => 1,
        }
    }
}

/// A declaration is registered around its run: every reply leads to the one
/// request that follows it or to an error, so that the sources are locked and
/// the rows suppressed before the relation is created, and only a registered
/// result ends it.
pub proof fn declaration_is_registered_around_its_run(
    plan: DeclarePlan,
    state: DeclareState,
    reply: UtilityReply,
)
    requires
        plan.waits(state),
        plan.resumes(state, reply) is Ok,
    ensures
        match plan.resumes(state, reply)->Ok_0 {
            DeclareModel::Ask { state: next, request } => {
                &&& plan.declares()
                &&& DeclarePlan::requests_left(next) + 1 == DeclarePlan::requests_left(state)
                &&& request is Run ==> state is Suppressing
                &&& request is Suppress ==> state is Locking
            },
            DeclareModel::Done => if plan.declares() {
                state is Registering
            } else {
                state is Running
            },
        },
{
}

/// A statement that declares no dataflow is only handed on.
pub proof fn other_statements_are_handed_on(plan: DeclarePlan)
    requires
        !plan.declares(),
        !plan.declaration || plan.creating_extension,
    ensures
        plan.opening() == Ok::<DeclareModel, Seq<char>>(
            DeclareModel::Ask {
                state: DeclareState::Running { declares: false },
                request: UtilityModel::Run,
            },
        ),
        plan.resumes(DeclareState::Running { declares: false }, UtilityReply::Done) == Ok::<
            DeclareModel,
            Seq<char>,
        >(DeclareModel::Done),
{
}

} // verus!
