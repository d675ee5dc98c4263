//! What the two protocols achieve against a store that keeps its promises.
//!
//! `posted` and `statement_of` say in one step what a posting and a reading
//! do to the store and answer to the caller. `post_run` and `read_run` play
//! the protocols request by request. The theorems of this module show that a
//! run does what the one-step description says, and that a posting is all or
//! nothing.

use vstd::prelude::*;
use crate::account::ContaView;
use crate::error::LedgerError;
use crate::payload::{movement_of, rejection, PayloadView};
use crate::limit::within_limit;
use crate::poster::{
    post_begin, post_resume, settled, PostProgressView, PostRequestView, PostStateView,
    StoreReplyView,
};
use crate::statement::{first_up_to, read_begin, read_resume, ExtratoView, ReadProgressView, RECENT_MAX};
use crate::store::StoreModel;

verus! {

/// A posting in one step: the store afterwards, and the answer.
///
/// A faulty payload, an unknown account, a movement that breaks the balance
/// rule and a balance that no row can hold each leave the store as it was.
/// Otherwise the account gets the new balance and the movement, and the answer
/// is the new balance with the limit.
pub open spec fn posted(store: StoreModel, id: int, payload: PayloadView, stamp: Seq<char>) -> (
    StoreModel,
    Result<ContaView, LedgerError>,
) {
    match rejection(payload) {
        Some(fault) => (store, Err(LedgerError::Validation(fault))),
        None => match store.row(id) {
            None => (store, Err(LedgerError::NotFound)),
            Some(conta) => match settled(conta, movement_of(payload).amount) {
                Err(error) => (store, Err(error)),
                Ok(saldo) => (
                    store.committed(id, saldo, movement_of(payload), stamp),
                    Ok(ContaView { saldo, limite: conta.limite }),
                ),
            },
        },
    }
}

/// Plays a posting from `progress` on: each request is served by the store,
/// unless it is the one numbered `fault`, which fails and changes nothing. A
/// posting that asks for more than `steps` requests is cut off as a failure.
pub open spec fn post_drive(
    store: StoreModel,
    progress: PostProgressView,
    stamp: Seq<char>,
    fault: Option<nat>,
    steps: nat,
) -> (StoreModel, Result<ContaView, LedgerError>)
    decreases steps,
{
    match progress {
        PostProgressView::Done { outcome } => (store, outcome),
        PostProgressView::Ask { state, request } => {
            if steps == 0 {
                (store, Err(LedgerError::Store))
            } else {
                let (next, reply) = if fault == Some(0nat) {
                    (store, StoreReplyView::Failed)
                } else {
                    store.serve_post(request, stamp)
                };
                let later = match fault {
                    Some(n) if n > 0 => Some((n - 1) as nat),
                    _ => None,
                };
                post_drive(next, post_resume(state, reply), stamp, later, (steps - 1) as nat)
            }
        },
    }
}

/// A whole posting, played request by request against the store.
pub open spec fn post_run(
    store: StoreModel,
    id: int,
    payload: PayloadView,
    stamp: Seq<char>,
    fault: Option<nat>,
) -> (StoreModel, Result<ContaView, LedgerError>) {
    post_drive(store, post_begin(id, payload), stamp, fault, 2)
}

/// A reading in one step: the statement of account `id` when the store's clock
/// shows `now`.
pub open spec fn statement_of(store: StoreModel, id: int, now: Seq<char>) -> Result<
    ExtratoView,
    LedgerError,
> {
    match store.head(id, now) {
        None => Err(LedgerError::NotFound),
        Some(saldo) => Ok(
            ExtratoView { saldo, ultimas_transacoes: store.recent(id, RECENT_MAX as nat) },
        ),
    }
}

/// Plays a reading from `progress` on, each request served by the store.
pub open spec fn read_drive(
    store: StoreModel,
    progress: ReadProgressView,
    now: Seq<char>,
    steps: nat,
) -> Result<ExtratoView, LedgerError>
    decreases steps,
{
    match progress {
        ReadProgressView::Done { outcome } => outcome,
        ReadProgressView::Ask { state, request } => {
            if steps == 0 {
                Err(LedgerError::Store)
            } else {
                read_drive(
                    store,
                    read_resume(state, store.serve_read(request, now)),
                    now,
                    (steps - 1) as nat,
                )
            }
        },
    }
}

/// A whole reading, played request by request against the store.
pub open spec fn read_run(store: StoreModel, id: int, now: Seq<char>) -> Result<
    ExtratoView,
    LedgerError,
> {
    read_drive(store, read_begin(id), now, 2)
}

/// The balance rule holds at every step of a posting: from a state that a
/// posting reaches, whatever the store replies, the next state is again such a
/// state, a write that is asked for sets a balance within the limit of the row
/// that was read, and a balance answered at the end is within its limit.
pub proof fn theorem_every_step_keeps_the_rule(state: PostStateView, reply: StoreReplyView)
    requires
        state.wf(),
    ensures
        (match post_resume(state, reply) {
            PostProgressView::Ask { state: next, request } => {
                &&& next.wf()
                &&& request matches PostRequestView::Commit { saldo, movement, .. }
                &&& reply matches StoreReplyView::Row(Some(conta))
                &&& within_limit(saldo, conta.limite)
                &&& saldo == conta.saldo + movement.amount
            },
            PostProgressView::Done { outcome } => outcome matches Ok(conta) ==> conta.sound(),
        }),
{
}

/// A posting starts in a state that a posting reaches, or ends at once.
pub proof fn theorem_first_step_keeps_the_rule(id: int, payload: PayloadView)
    ensures
        (match post_begin(id, payload) {
            PostProgressView::Ask { state, request } => state.wf() && request
                == (PostRequestView::Lock { id }),
            PostProgressView::Done { outcome } => outcome is Err,
        }),
{
}

/// Played against a store that serves every request, the posting protocol does
/// to the store exactly what `posted` says, and answers what it says.
pub proof fn theorem_post_run_is_posted(
    store: StoreModel,
    id: int,
    payload: PayloadView,
    stamp: Seq<char>,
)
    ensures
        post_run(store, id, payload, stamp, None) == posted(store, id, payload, stamp),
{
    reveal_with_fuel(post_drive, 3);
}

/// All or nothing: whichever request of a posting fails, the store is left as
/// it was, and the answer is a store failure. A fault numbered beyond the
/// requests that the posting makes changes nothing of its course.
pub proof fn theorem_post_all_or_nothing(
    store: StoreModel,
    id: int,
    payload: PayloadView,
    stamp: Seq<char>,
    fault: nat,
)
    ensures
        ({
            let (after, outcome) = post_run(store, id, payload, stamp, Some(fault));
            let (whole, answer) = posted(store, id, payload, stamp);
            if fault == 0 && rejection(payload) is None {
                after == store && outcome == Err::<ContaView, LedgerError>(LedgerError::Store)
            } else if fault == 1 && answer is Ok {
                after == store && outcome == Err::<ContaView, LedgerError>(LedgerError::Store)
            } else {
                after == whole && outcome == answer
            }
        }),
{
    reveal_with_fuel(post_drive, 3);
}

/// A posting changes the store only by committing: whenever the answer is an
/// error, the store is as it was.
pub proof fn theorem_refused_posting_changes_nothing(
    store: StoreModel,
    id: int,
    payload: PayloadView,
    stamp: Seq<char>,
    fault: Option<nat>,
)
    ensures
        post_run(store, id, payload, stamp, fault).1 is Err ==> post_run(
            store,
            id,
            payload,
            stamp,
            fault,
        ).0 == store,
{
    reveal_with_fuel(post_drive, 3);
}

/// Played against the store, the reading protocol answers exactly the
/// statement that `statement_of` describes.
pub proof fn theorem_read_run_is_statement(store: StoreModel, id: int, now: Seq<char>)
    ensures
        read_run(store, id, now) == statement_of(store, id, now),
{
    reveal_with_fuel(read_drive, 3);
    if store.has(id) {
        let rows = store.recent(id, RECENT_MAX as nat);
        assert(first_up_to(rows, RECENT_MAX as nat) == rows);
    }
}

} // verus!
