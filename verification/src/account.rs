//! The rows that the store keeps and hands out.

use vstd::prelude::*;
use crate::limit::within_limit;

verus! {

/// An account's balance and credit limit, as read from its row and as answered
/// after a movement.
#[derive(Clone, Copy, Debug, PartialEq, Eq, Structural)]
pub struct Conta {
    pub saldo: i64,
    pub limite: i64,
}

/// Balance and credit limit over the integers.
pub struct ContaView {
    pub saldo: int,
    pub limite: int,
}

impl View for Conta {
    type V = ContaView;

    open spec fn view(&self) -> ContaView {
        ContaView { saldo: self.saldo as int, limite: self.limite as int }
    }
}

impl ContaView {
    /// The account respects its credit limit.
    pub open spec fn sound(self) -> bool {
        within_limit(self.saldo, self.limite)
    }

    /// The balance and the limit are numbers that a row can hold.
    pub open spec fn storable(self) -> bool {
        &&& i64::MIN <= self.saldo <= i64::MAX
        &&& i64::MIN <= self.limite <= i64::MAX
    }
}

/// A movement as the store keeps it, with the time at which it was committed.
#[derive(Debug, PartialEq, Eq)]
pub struct Transacao {
    /// The signed amount: positive for a credit, negative for a debit.
    pub valor: i64,
    pub tipo: String,
    pub descricao: String,
    /// The time of the commit, as the store formats it.
    pub realizada_em: String,
}

/// A kept movement as a mathematical value.
pub struct TransacaoView {
    pub valor: int,
    pub tipo: Seq<char>,
    pub descricao: Seq<char>,
    pub realizada_em: Seq<char>,
}

impl View for Transacao {
    type V = TransacaoView;

    open spec fn view(&self) -> TransacaoView {
        TransacaoView {
            valor: self.valor as int,
            tipo: self.tipo@,
            descricao: self.descricao@,
            realizada_em: self.realizada_em@,
        }
    }
}

/// The views of a list of kept movements, in the same order.
pub open spec fn views_of(rows: Seq<Transacao>) -> Seq<TransacaoView> {
    Seq::new(rows.len(), |i: int| rows[i]@)
}

} // verus!
