//! Posting a movement: the protocol between the poster and the store.
//!
//! The poster never talks to the store itself. It says which request comes
//! next, is handed the store's reply, and decides again. One posting takes at
//! most two requests, both inside one transaction of the store: a locking read
//! of the account row, and a write that sets the balance, appends the movement
//! and commits. While the row is locked no other posting on the same account
//! gets past its own locking read.

use vstd::prelude::*;
use crate::account::{Conta, ContaView};
use crate::error::LedgerError;
use crate::limit::{check, within_limit};
use crate::payload::{
    description_fits, kind_of, movement_of, rejection, validate, Movement, MovementView, Payload,
    PayloadView,
};

verus! {

/// Where a posting stands between two requests. A value of this type comes
/// from `begin` or `resume` only, so the movement it carries has passed
/// validation and the balance it carries respects the limit.
#[derive(Debug, PartialEq, Eq)]
pub struct PostState {
    step: Step,
}

#[derive(Debug, PartialEq, Eq)]
enum Step {
    /// The locking read of account `id` was asked for.
    AwaitingRow { id: i32, movement: Movement },
    /// The write was asked for; `conta` is what it leaves in the row.
    AwaitingCommit { conta: Conta },
}

/// What the poster asks of the store.
#[derive(Debug, PartialEq, Eq)]
pub enum PostRequest {
    /// Open a transaction and read the row of account `id`, locking it.
    Lock { id: i32 },
    /// Set the balance of account `id` to `saldo`, append the movement to its
    /// history, and commit.
    Commit { id: i32, saldo: i64, movement: Movement },
}

/// What the store answers.
#[derive(Clone, Copy, Debug, PartialEq, Eq)]
pub enum StoreReply {
    /// The locked row, or nothing where the account does not exist.
    Row(Option<Conta>),
    /// The write was committed.
    Committed,
    /// The request failed.
    Failed,
}

/// The poster's decision: one more request, or the end. At the end of a
/// posting that did not succeed the transaction, if one is open, is rolled back.
#[derive(Debug, PartialEq, Eq)]
pub enum PostProgress {
    /// Hand `request` to the store, and come back with its reply and `state`.
    Ask { state: PostState, request: PostRequest },
    /// The posting is over: the new balance and the limit, or the error.
    Done { outcome: Result<Conta, LedgerError> },
}

/// Where a posting stands, as a mathematical value.
pub enum PostStateView {
    /// The locking read of account `id` was asked for.
    AwaitingRow { id: int, movement: MovementView },
    /// The write was asked for; `conta` is what it leaves in the row.
    AwaitingCommit { conta: ContaView },
}

impl PostStateView {
    /// What holds of every state that a posting reaches: the movement has
    /// passed validation, and the balance to be written respects the limit.
    pub open spec fn wf(self) -> bool {
        match self {
            PostStateView::AwaitingRow { movement, .. } => movement.wf(),
            PostStateView::AwaitingCommit { conta } => conta.sound(),
        }
    }
}

/// A request of a posting, as a mathematical value.
pub enum PostRequestView {
    Lock { id: int },
    Commit { id: int, saldo: int, movement: MovementView },
}

/// A reply of the store, as a mathematical value.
pub enum StoreReplyView {
    Row(Option<ContaView>),
    Committed,
    Failed,
}

/// A decision of the poster, as a mathematical value.
pub enum PostProgressView {
    Ask { state: PostStateView, request: PostRequestView },
    Done { outcome: Result<ContaView, LedgerError> },
}

impl View for PostState {
    type V = PostStateView;

    closed spec fn view(&self) -> PostStateView {
        match self.step {
            Step::AwaitingRow { id, movement } => PostStateView::AwaitingRow {
                id: id as int,
                movement: movement@,
            },
            Step::AwaitingCommit { conta } => PostStateView::AwaitingCommit { conta: conta@ },
        }
    }
}

impl PostState {
    #[verifier::type_invariant]
    spec fn reached(self) -> bool {
        self@.wf()
    }
}

impl View for PostRequest {
    type V = PostRequestView;

    open spec fn view(&self) -> PostRequestView {
        match *self {
            PostRequest::Lock { id } => PostRequestView::Lock { id: id as int },
            PostRequest::Commit { id, saldo, movement } => PostRequestView::Commit {
                id: id as int,
                saldo: saldo as int,
                movement: movement@,
            },
        }
    }
}

impl View for StoreReply {
    type V = StoreReplyView;

    open spec fn view(&self) -> StoreReplyView {
        match *self {
            StoreReply::Row(Some(conta)) => StoreReplyView::Row(Some(conta@)),
            StoreReply::Row(None) => StoreReplyView::Row(None),
            StoreReply::Committed => StoreReplyView::Committed,
            StoreReply::Failed => StoreReplyView::Failed,
        }
    }
}

impl View for PostProgress {
    type V = PostProgressView;

    open spec fn view(&self) -> PostProgressView {
        match *self {
            PostProgress::Ask { state, request } => PostProgressView::Ask {
                state: state@,
                request: request@,
            },
            PostProgress::Done { outcome: Ok(conta) } => PostProgressView::Done {
                outcome: Ok(conta@),
            },
            PostProgress::Done { outcome: Err(error) } => PostProgressView::Done {
                outcome: Err(error),
            },
        }
    }
}

/// What becomes of a balance when `amount` is added to it under the balance
/// rule: the new balance, a violation of the limit, or, where the limit would
/// allow a balance that no row can hold, a failure of the store.
pub open spec fn settled(conta: ContaView, amount: int) -> Result<int, LedgerError> {
    let candidate = conta.saldo + amount;
    if !within_limit(candidate, conta.limite) {
        Err(LedgerError::InvariantViolation)
    } else if candidate < i64::MIN || candidate > i64::MAX {
        Err(LedgerError::Store)
    } else {
        Ok(candidate)
    }
}

/// The first decision of a posting.
pub open spec fn post_begin(id: int, payload: PayloadView) -> PostProgressView {
    match rejection(payload) {
        Some(fault) => PostProgressView::Done { outcome: Err(LedgerError::Validation(fault)) },
        None => PostProgressView::Ask {
            state: PostStateView::AwaitingRow { id, movement: movement_of(payload) },
            request: PostRequestView::Lock { id },
        },
    }
}

/// The decision that follows a reply of the store.
pub open spec fn post_resume(state: PostStateView, reply: StoreReplyView) -> PostProgressView {
    match (state, reply) {
        (PostStateView::AwaitingRow { id, movement }, StoreReplyView::Row(Some(conta))) => {
            match settled(conta, movement.amount) {
                Ok(saldo) => PostProgressView::Ask {
                    state: PostStateView::AwaitingCommit {
                        conta: ContaView { saldo, limite: conta.limite },
                    },
                    request: PostRequestView::Commit { id, saldo, movement },
                },
                Err(error) => PostProgressView::Done { outcome: Err(error) },
            }
        },
        (PostStateView::AwaitingRow { .. }, StoreReplyView::Row(None)) => PostProgressView::Done {
            outcome: Err(LedgerError::NotFound),
        },
        (PostStateView::AwaitingCommit { conta }, StoreReplyView::Committed) => {
            PostProgressView::Done { outcome: Ok(conta) }
        },
        _ => PostProgressView::Done { outcome: Err(LedgerError::Store) },
    }
}

/// The posting ended at once because its payload was refused.
pub open spec fn invalid(progress: PostProgress) -> bool {
    progress matches PostProgress::Done { outcome: Err(LedgerError::Validation(_)) }
}

/// Adds a signed amount to an account's balance under the balance rule. The
/// rule is evaluated once, on the exact sum.
pub fn settle(conta: Conta, amount: i64) -> (result: Result<i64, LedgerError>)
    ensures
        (match result {
            Ok(saldo) => settled(conta@, amount as int) == Ok::<int, LedgerError>(saldo as int),
            Err(error) => settled(conta@, amount as int) == Err::<int, LedgerError>(error),
        }),
{
    match conta.saldo.checked_add(amount) {
        Some(candidate) => {
            if check(candidate, conta.limite) {
                Ok(candidate)
            } else {
                Err(LedgerError::InvariantViolation)
            }
        },
        None => {
            if amount < 0 {
                Err(LedgerError::InvariantViolation)
            } else {
                Err(LedgerError::Store)
            }
        },
    }
}

/// Starts a posting on account `id`. A payload with a fault ends it at once,
/// before anything is asked of the store; any other payload leads to the
/// locking read of the account row.
pub fn begin(id: i32, payload: Payload) -> (progress: PostProgress)
    ensures
        progress@ == post_begin(id as int, payload@),
        progress is Ask <==> rejection(payload@) is None,
        (progress matches PostProgress::Ask { state, .. } ==> state@.wf()),
        (payload@.descricao matches Some(text) ==> !description_fits(text)) ==> invalid(progress),
        kind_of(payload@.tipo) is None ==> invalid(progress),
{
    match validate(payload) {
        Ok(movement) => PostProgress::Ask {
            state: PostState { step: Step::AwaitingRow { id, movement } },
            request: PostRequest::Lock { id },
        },
        Err(fault) => PostProgress::Done { outcome: Err(LedgerError::Validation(fault)) },
    }
}

/// Takes a posting one step further with the store's reply.
///
/// After the locking read: an absent row ends the posting as not found; a row
/// on which the movement breaks the balance rule ends it as a violation; any
/// other row leads to the write of the new balance. After the write: the
/// commit ends the posting with the new balance and the limit. A failure of
/// the store, or a reply that answers another request, ends it as a store
/// failure.
pub fn resume(state: PostState, reply: StoreReply) -> (progress: PostProgress)
    ensures
        progress@ == post_resume(state@, reply@),
        state@.wf(),
        (progress matches PostProgress::Ask { state: next, .. } ==> next@.wf()),
        (progress matches PostProgress::Ask {
            request: PostRequest::Commit { saldo, movement, .. },
            ..
        } ==> reply matches StoreReply::Row(Some(conta)) && within_limit(
            saldo as int,
            conta.limite as int,
        ) && movement@.wf()),
        (progress matches PostProgress::Done { outcome: Ok(conta) } ==> conta@.sound()),
{
    proof {
        use_type_invariant(&state);
    }
    match state.step {
        Step::AwaitingRow { id, movement } => match reply {
            StoreReply::Row(Some(conta)) => match settle(conta, movement.amount) {
                Ok(saldo) => PostProgress::Ask {
                    state: PostState {
                        step: Step::AwaitingCommit { conta: Conta { saldo, limite: conta.limite } },
                    },
                    request: PostRequest::Commit { id, saldo, movement },
                },
                Err(error) => PostProgress::Done { outcome: Err(error) },
            },
            StoreReply::Row(None) => PostProgress::Done { outcome: Err(LedgerError::NotFound) },
            _ => PostProgress::Done { outcome: Err(LedgerError::Store) },
        },
        Step::AwaitingCommit { conta } => match reply {
            StoreReply::Committed => PostProgress::Done { outcome: Ok(conta) },
            _ => PostProgress::Done { outcome: Err(LedgerError::Store) },
        },
    }
}

} // verus!
