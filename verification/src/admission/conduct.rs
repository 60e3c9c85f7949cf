//! How a batch is admitted: what is asked behind each answer.

use vstd::prelude::*;

use crate::admission;
use crate::admission::admitting::{AdmitPlan, AdmitState};
use crate::session::{self, ProgressModel, Reply, RequestModel};

verus! {

/// The transaction is resolved, its generation is locked before it is, each
/// source is resolved and then typed in turn, and the batch is classified once
/// all of them were.
pub proof fn admission_is_conducted(plan: AdmitPlan, state: AdmitState, reply: Reply)
    requires
        plan.waits(state),
    ensures
        plan.opening() matches ProgressModel::Ask {
            state: AdmitState::Resolving,
            request: RequestModel::Read(statement),
        } && statement == admission::transaction_query(plan.ingress_txn_id),
        plan.resumes(state, reply) matches Ok(ProgressModel::Ask { state: next, request }) ==> match (
            state,
            next,
        ) {
            (AdmitState::Resolving, AdmitState::Guarding { slot_generation }) => {
                &&& reply matches Reply::Rows(rows) && session::bigint(rows@, 1) == Some(
                    slot_generation,
                )
                &&& request == RequestModel::Lock(admission::generation_query(slot_generation))
            },
            (
                AdmitState::Guarding { slot_generation },
                AdmitState::Heading { slot_generation: same },
            ) => {
                &&& same == slot_generation
                &&& reply matches Reply::Rows(rows) && rows@.len() as usize == 1
                &&& request == RequestModel::Lock(admission::header_query(plan.ingress_txn_id))
            },
            (AdmitState::Heading { .. }, AdmitState::Sourcing { index, .. }) => index == 0 && request
                == RequestModel::Read(admission::source_query(plan.sources[0].source_oid)),
            (AdmitState::Heading { .. }, AdmitState::Classifying { .. }) => plan.sources@.len() == 0
                && request == RequestModel::Read(
                admission::classify_query(plan.ingress_txn_id, plan.encoded@),
            ),
            (
                AdmitState::Sourcing { header, index },
                AdmitState::Typing { header: same, index: typed },
            ) => same == header && typed == index && request is Read,
            (
                AdmitState::Typing { header, index },
                AdmitState::Sourcing { header: same, index: following },
            ) => {
                &&& same == header && following == index + 1
                &&& reply matches Reply::Rows(rows) && (session::bigint(rows@, 1) matches Some(
                    counted,
                ) && counted == plan.sources[index as int].expected)
                &&& request == RequestModel::Read(
                    admission::source_query(plan.sources[following as int].source_oid),
                )
            },
            (AdmitState::Typing { header, index }, AdmitState::Classifying { header: same }) => {
                &&& same == header && index + 1 == plan.sources@.len()
                &&& reply matches Reply::Rows(rows) && (session::bigint(rows@, 1) matches Some(
                    counted,
                ) && counted == plan.sources[index as int].expected)
                &&& request == RequestModel::Read(
                    admission::classify_query(plan.ingress_txn_id, plan.encoded@),
                )
            },
            (AdmitState::Classifying { header }, AdmitState::Writing { replay, allocation }) => request
                == RequestModel::Write(
                admission::write_query(
                    plan.ingress_txn_id,
                    plan.encoded@,
                    header,
                    replay,
                    allocation,
                ),
            ),
            _ => false,
        },
        plan.resumes(state, reply) matches Ok(ProgressModel::Done(_)) ==> state is Classifying
            || state is Writing,
{
}

} // verus!
