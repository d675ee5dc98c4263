//! A mathematical model of the account store: what a store that keeps its
//! promises holds, and how it answers.
//!
//! Nothing here runs. The model gives the requests of the two protocols a
//! meaning, so that what they achieve together can be stated and proved.

use vstd::prelude::*;
use crate::account::{ContaView, TransacaoView};
use crate::payload::MovementView;
use crate::poster::{PostRequestView, StoreReplyView};
use crate::statement::{first_up_to, ReadReplyView, ReadRequestView, SaldoView};

verus! {

/// One account of the model: its balance, its credit limit, and the movements
/// committed on it, oldest first.
pub struct AccountModel {
    pub saldo: int,
    pub limite: int,
    pub history: Seq<TransacaoView>,
}

impl AccountModel {
    /// The balance and the limit, as a locking read shows them.
    pub open spec fn conta(self) -> ContaView {
        ContaView { saldo: self.saldo, limite: self.limite }
    }
}

/// The store of the model: accounts by identifier.
pub struct StoreModel {
    pub accounts: Map<int, AccountModel>,
}

impl StoreModel {
    /// Whether the store holds an account under `id`.
    pub open spec fn has(self, id: int) -> bool {
        self.accounts.dom().contains(id)
    }

    /// The answer to a read of the account row `id`.
    pub open spec fn row(self, id: int) -> Option<ContaView> {
        if self.has(id) {
            Some(self.accounts[id].conta())
        } else {
            None
        }
    }

    /// The store after the balance of account `id` was set to `saldo` and the
    /// movement was appended to its history, stamped by the store with `stamp`.
    pub open spec fn committed(self, id: int, saldo: int, movement: MovementView, stamp: Seq<char>) -> StoreModel
        recommends
            self.has(id),
    {
        let before = self.accounts[id];
        let kept = TransacaoView {
            valor: movement.amount,
            tipo: movement.tipo,
            descricao: movement.descricao,
            realizada_em: stamp,
        };
        StoreModel {
            accounts: self.accounts.insert(
                id,
                AccountModel { saldo, limite: before.limite, history: before.history.push(kept) },
            ),
        }
    }

    /// The latest movements of account `id`, newest first, `limit` of them at
    /// most; none where the account does not exist.
    pub open spec fn recent(self, id: int, limit: nat) -> Seq<TransacaoView> {
        if self.has(id) {
            first_up_to(self.accounts[id].history.reverse(), limit)
        } else {
            Seq::empty()
        }
    }

    /// The head of a statement of account `id` read when the store's clock
    /// shows `now`.
    pub open spec fn head(self, id: int, now: Seq<char>) -> Option<SaldoView> {
        if self.has(id) {
            Some(
                SaldoView {
                    total: self.accounts[id].saldo,
                    data_extrato: now,
                    limite: self.accounts[id].limite,
                },
            )
        } else {
            None
        }
    }

    /// How the store serves a request of a posting: what it holds afterwards
    /// and what it answers. A committed movement is stamped with `stamp`. A
    /// write to an account that does not exist fails and changes nothing.
    pub open spec fn serve_post(self, request: PostRequestView, stamp: Seq<char>) -> (
        StoreModel,
        StoreReplyView,
    ) {
        match request {
            PostRequestView::Lock { id } => (self, StoreReplyView::Row(self.row(id))),
            PostRequestView::Commit { id, saldo, movement } => {
                if self.has(id) {
                    (self.committed(id, saldo, movement, stamp), StoreReplyView::Committed)
                } else {
                    (self, StoreReplyView::Failed)
                }
            },
        }
    }

    /// How the store answers a request of a reading when its clock shows `now`.
    pub open spec fn serve_read(self, request: ReadRequestView, now: Seq<char>) -> ReadReplyView {
        match request {
            ReadRequestView::Account { id } => ReadReplyView::Account(self.head(id, now)),
            ReadRequestView::Recent { id, limit } => ReadReplyView::Recent(self.recent(id, limit)),
        }
    }

    /// Every account respects its credit limit.
    pub open spec fn sound(self) -> bool {
        forall|id: int| #[trigger] self.has(id) ==> self.accounts[id].conta().sound()
    }
}

} // verus!
