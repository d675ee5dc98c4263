//! Reading a statement: the balance of an account as of now, and its latest
//! movements.
//!
//! Like a posting, a reading is a protocol with the store: first the account
//! row together with the store's clock, then the latest movements. Nothing is
//! locked and nothing is written.

use vstd::prelude::*;
use crate::account::{views_of, Transacao, TransacaoView};
use crate::error::LedgerError;

verus! {

/// The most movements that a statement lists.
pub const RECENT_MAX: usize = 10;

/// The head of a statement: the balance, the limit, and the time of the reading.
#[derive(Debug, PartialEq, Eq)]
pub struct Saldo {
    pub total: i64,
    /// The store's clock at the reading, as the store formats it.
    pub data_extrato: String,
    pub limite: i64,
}

/// A statement: its head and the latest movements, newest first.
#[derive(Debug, PartialEq, Eq)]
pub struct Extrato {
    pub saldo: Saldo,
    pub ultimas_transacoes: Vec<Transacao>,
}

/// The head of a statement, as a mathematical value.
pub struct SaldoView {
    pub total: int,
    pub data_extrato: Seq<char>,
    pub limite: int,
}

/// A statement, as a mathematical value.
pub struct ExtratoView {
    pub saldo: SaldoView,
    pub ultimas_transacoes: Seq<TransacaoView>,
}

impl View for Saldo {
    type V = SaldoView;

    open spec fn view(&self) -> SaldoView {
        SaldoView {
            total: self.total as int,
            data_extrato: self.data_extrato@,
            limite: self.limite as int,
        }
    }
}

impl View for Extrato {
    type V = ExtratoView;

    open spec fn view(&self) -> ExtratoView {
        ExtratoView {
            saldo: self.saldo@,
            ultimas_transacoes: views_of(self.ultimas_transacoes@),
        }
    }
}

/// Where a reading stands between two requests.
#[derive(Debug, PartialEq, Eq)]
pub enum ReadState {
    /// The row of account `id` was asked for.
    AwaitingAccount { id: i32 },
    /// The latest movements were asked for; `saldo` is the head already read.
    AwaitingRecent { saldo: Saldo },
}

/// What a reading asks of the store.
#[derive(Clone, Copy, Debug, PartialEq, Eq)]
pub enum ReadRequest {
    /// The row of account `id`, with the store's clock.
    Account { id: i32 },
    /// The latest movements of account `id`, newest first, `limit` at most.
    Recent { id: i32, limit: usize },
}

/// What the store answers to a reading.
#[derive(Debug, PartialEq, Eq)]
pub enum ReadReply {
    /// The row and the clock, or nothing where the account does not exist.
    Account(Option<Saldo>),
    /// The movements asked for.
    Recent(Vec<Transacao>),
    /// The request failed.
    Failed,
}

/// The reading's decision: one more request, or the end.
#[derive(Debug, PartialEq, Eq)]
pub enum ReadProgress {
    /// Hand `request` to the store, and come back with its reply and `state`.
    Ask { state: ReadState, request: ReadRequest },
    /// The reading is over: the statement, or the error.
    Done { outcome: Result<Extrato, LedgerError> },
}

/// Where a reading stands, as a mathematical value.
pub enum ReadStateView {
    AwaitingAccount { id: int },
    AwaitingRecent { saldo: SaldoView },
}

/// A request of a reading, as a mathematical value.
pub enum ReadRequestView {
    Account { id: int },
    Recent { id: int, limit: nat },
}

/// A reply of the store to a reading, as a mathematical value.
pub enum ReadReplyView {
    Account(Option<SaldoView>),
    Recent(Seq<TransacaoView>),
    Failed,
}

/// A decision of a reading, as a mathematical value.
pub enum ReadProgressView {
    Ask { state: ReadStateView, request: ReadRequestView },
    Done { outcome: Result<ExtratoView, LedgerError> },
}

impl View for ReadState {
    type V = ReadStateView;

    open spec fn view(&self) -> ReadStateView {
        match *self {
            ReadState::AwaitingAccount { id } => ReadStateView::AwaitingAccount { id: id as int },
            ReadState::AwaitingRecent { saldo } => ReadStateView::AwaitingRecent { saldo: saldo@ },
        }
    }
}

impl View for ReadRequest {
    type V = ReadRequestView;

    open spec fn view(&self) -> ReadRequestView {
        match *self {
            ReadRequest::Account { id } => ReadRequestView::Account { id: id as int },
            ReadRequest::Recent { id, limit } => ReadRequestView::Recent {
                id: id as int,
                limit: limit as nat,
            },
        }
    }
}

impl View for ReadReply {
    type V = ReadReplyView;

    open spec fn view(&self) -> ReadReplyView {
        match *self {
            ReadReply::Account(Some(saldo)) => ReadReplyView::Account(Some(saldo@)),
            ReadReply::Account(None) => ReadReplyView::Account(None),
            ReadReply::Recent(rows) => ReadReplyView::Recent(views_of(rows@)),
            ReadReply::Failed => ReadReplyView::Failed,
        }
    }
}

impl View for ReadProgress {
    type V = ReadProgressView;

    open spec fn view(&self) -> ReadProgressView {
        match *self {
            ReadProgress::Ask { state, request } => ReadProgressView::Ask {
                state: state@,
                request: request@,
            },
            ReadProgress::Done { outcome: Ok(extrato) } => ReadProgressView::Done {
                outcome: Ok(extrato@),
            },
            ReadProgress::Done { outcome: Err(error) } => ReadProgressView::Done {
                outcome: Err(error),
            },
        }
    }
}

/// The first `limit` items of a list, or all of it where it has no more.
pub open spec fn first_up_to<T>(rows: Seq<T>, limit: nat) -> Seq<T> {
    if rows.len() <= limit {
        rows
    } else {
        rows.take(limit as int)
    }
}

/// The first decision of a reading.
pub open spec fn read_begin(id: int) -> ReadProgressView {
    ReadProgressView::Ask {
        state: ReadStateView::AwaitingAccount { id },
        request: ReadRequestView::Account { id },
    }
}

/// The decision that follows a reply of the store.
pub open spec fn read_resume(state: ReadStateView, reply: ReadReplyView) -> ReadProgressView {
    match (state, reply) {
        (ReadStateView::AwaitingAccount { id }, ReadReplyView::Account(Some(saldo))) => {
            ReadProgressView::Ask {
                state: ReadStateView::AwaitingRecent { saldo },
                request: ReadRequestView::Recent { id, limit: RECENT_MAX as nat },
            }
        },
        (ReadStateView::AwaitingAccount { .. }, ReadReplyView::Account(None)) => {
            ReadProgressView::Done { outcome: Err(LedgerError::NotFound) }
        },
        (ReadStateView::AwaitingRecent { saldo }, ReadReplyView::Recent(rows)) => {
            ReadProgressView::Done {
                outcome: Ok(
                    ExtratoView {
                        saldo,
                        ultimas_transacoes: first_up_to(rows, RECENT_MAX as nat),
                    },
                ),
            }
        },
        _ => ReadProgressView::Done { outcome: Err(LedgerError::Store) },
    }
}

/// Starts a reading of account `id` with the request for its row.
pub fn begin(id: i32) -> (progress: ReadProgress)
    ensures
        progress@ == read_begin(id as int),
{
    ReadProgress::Ask { state: ReadState::AwaitingAccount { id }, request: ReadRequest::Account { id } }
}

/// Takes a reading one step further with the store's reply.
///
/// After the row was asked for: an absent row ends the reading as not found,
/// and the movements are never asked for; a row leads to the request for the
/// latest movements. After that request: the statement is the head read
/// before and the movements received, cut after the tenth. A failure of the
/// store, or a reply that answers another request, ends the reading as a store
/// failure.
pub fn resume(state: ReadState, reply: ReadReply) -> (progress: ReadProgress)
    ensures
        progress@ == read_resume(state@, reply@),
        (progress matches ReadProgress::Done { outcome: Ok(extrato) }
            ==> extrato.ultimas_transacoes.len() <= RECENT_MAX),
{
    match state {
        ReadState::AwaitingAccount { id } => match reply {
            ReadReply::Account(Some(saldo)) => ReadProgress::Ask {
                state: ReadState::AwaitingRecent { saldo },
                request: ReadRequest::Recent { id, limit: RECENT_MAX },
            },
            ReadReply::Account(None) => ReadProgress::Done { outcome: Err(LedgerError::NotFound) },
            _ => ReadProgress::Done { outcome: Err(LedgerError::Store) },
        },
        ReadState::AwaitingRecent { saldo } => match reply {
            ReadReply::Recent(rows) => {
                let mut rows = rows;
                let ghost received = rows@;
                rows.truncate(RECENT_MAX);
                assert(views_of(rows@) =~= first_up_to(views_of(received), RECENT_MAX as nat));
                ReadProgress::Done { outcome: Ok(Extrato { saldo, ultimas_transacoes: rows }) }
            },
            _ => ReadProgress::Done { outcome: Err(LedgerError::Store) },
        },
    }
}

} // verus!
