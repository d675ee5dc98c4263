//! What a caller sends to post a movement, and the test it has to pass before
//! the store is touched.

use vstd::prelude::*;
use vstd::string::StrSliceExecFns;
use crate::error::Rejection;

verus! {

/// The longest description that is accepted, in characters.
pub const DESCRIPTION_MAX: usize = 10;

/// The body of a request to post a movement, as it arrives.
#[derive(Debug, PartialEq, Eq)]
pub struct Payload {
    /// The magnitude of the movement.
    pub valor: i64,
    /// `"c"` for a credit, `"d"` for a debit.
    pub tipo: String,
    /// A short label.
    pub descricao: Option<String>,
}

/// A payload as a mathematical value.
pub struct PayloadView {
    pub valor: int,
    pub tipo: Seq<char>,
    pub descricao: Option<Seq<char>>,
}

impl View for Payload {
    type V = PayloadView;

    open spec fn view(&self) -> PayloadView {
        PayloadView {
            valor: self.valor as int,
            tipo: self.tipo@,
            descricao: match self.descricao {
                Some(text) => Some(text@),
                None => None,
            },
        }
    }
}

/// The two kinds of movement.
#[derive(Clone, Copy, Debug, PartialEq, Eq, Structural)]
pub enum Kind {
    Credit,
    Debit,
}

/// The kind that a `tipo` text names, if it names one.
pub open spec fn kind_of(tipo: Seq<char>) -> Option<Kind> {
    if tipo.len() == 1 && tipo[0] == 'c' {
        Some(Kind::Credit)
    } else if tipo.len() == 1 && tipo[0] == 'd' {
        Some(Kind::Debit)
    } else {
        None
    }
}

/// The change that a movement of the given kind and magnitude makes to a balance.
pub open spec fn signed(kind: Kind, valor: int) -> int {
    match kind {
        Kind::Credit => valor,
        Kind::Debit => -valor,
    }
}

/// A description is acceptable when it has between one and ten characters.
pub open spec fn description_fits(text: Seq<char>) -> bool {
    1 <= text.len() <= DESCRIPTION_MAX
}

/// The first fault of a payload, if it has one. The description is looked at
/// first, then the kind, then the amount.
pub open spec fn rejection(p: PayloadView) -> Option<Rejection> {
    if p.descricao is None {
        Some(Rejection::DescriptionMissing)
    } else if !description_fits(p.descricao->0) {
        Some(Rejection::DescriptionLength)
    } else if kind_of(p.tipo) is None {
        Some(Rejection::UnknownKind)
    } else if p.valor <= 0 {
        Some(Rejection::AmountNotPositive)
    } else {
        None
    }
}

/// A movement that passed validation. `amount` carries the sign: positive for a
/// credit, negative for a debit.
#[derive(Debug, PartialEq, Eq)]
pub struct Movement {
    pub amount: i64,
    pub tipo: String,
    pub descricao: String,
}

/// A movement as a mathematical value.
pub struct MovementView {
    pub amount: int,
    pub tipo: Seq<char>,
    pub descricao: Seq<char>,
}

impl View for Movement {
    type V = MovementView;

    open spec fn view(&self) -> MovementView {
        MovementView { amount: self.amount as int, tipo: self.tipo@, descricao: self.descricao@ }
    }
}

impl MovementView {
    /// What validation leaves behind: a known kind, an amount that is not zero
    /// and has the sign of its kind, and a description of acceptable length.
    pub open spec fn wf(self) -> bool {
        &&& kind_of(self.tipo) matches Some(kind)
        &&& match kind {
            Kind::Credit => self.amount > 0,
            Kind::Debit => self.amount < 0,
        }
        &&& description_fits(self.descricao)
    }
}

/// The movement that a faultless payload asks for.
pub open spec fn movement_of(p: PayloadView) -> MovementView {
    MovementView {
        amount: signed(kind_of(p.tipo)->0, p.valor),
        tipo: p.tipo,
        descricao: p.descricao->0,
    }
}

/// Reads the kind out of a `tipo` text.
pub fn parse_kind(tipo: &str) -> (kind: Option<Kind>)
    ensures
        kind == kind_of(tipo@),
{
    if tipo.unicode_len() != 1 {
        return None;
    }
    let letter = tipo.get_char(0);
    if letter == 'c' {
        Some(Kind::Credit)
    } else if letter == 'd' {
        Some(Kind::Debit)
    } else {
        None
    }
}

/// Validates a payload. It is refused exactly when it has a fault, and with its
/// first fault; otherwise the movement it asks for comes back.
pub fn validate(payload: Payload) -> (checked: Result<Movement, Rejection>)
    ensures
        (match checked {
            Ok(movement) => rejection(payload@) is None && movement@ == movement_of(payload@)
                && movement@.wf(),
            Err(fault) => rejection(payload@) == Some(fault),
        }),
{
    let descricao = match payload.descricao {
        Some(text) => text,
        None => {
            return Err(Rejection::DescriptionMissing);
        },
    };
    let length: usize = descricao.as_str().unicode_len();
    if length == 0 || length > DESCRIPTION_MAX {
        return Err(Rejection::DescriptionLength);
    }
    let kind = match parse_kind(payload.tipo.as_str()) {
        Some(kind) => kind,
        None => {
            return Err(Rejection::UnknownKind);
        },
    };
    if payload.valor <= 0 {
        return Err(Rejection::AmountNotPositive);
    }
    let amount: i64 = match kind {
        Kind::Credit => payload.valor,
        Kind::Debit => -payload.valor,
    };
    Ok(Movement { amount, tipo: payload.tipo, descricao })
}

} // verus!
