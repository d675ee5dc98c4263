//! What holds of every posting and of every reading.

use vstd::prelude::*;
use crate::account::{ContaView, TransacaoView};
use crate::error::LedgerError;
use crate::ledger::{
    post_drive, post_run, posted, read_run, statement_of, theorem_post_run_is_posted,
    theorem_read_run_is_statement,
};
use crate::statement::{ExtratoView, RECENT_MAX};
use crate::payload::{description_fits, kind_of, movement_of, rejection, PayloadView};
use crate::store::StoreModel;

verus! {

/// After a posting that committed, the account respects its credit limit: the
/// balance answered is within the limit, it is a number that a row can hold,
/// and it is the balance that the store now keeps.
pub proof fn law_commit_respects_limit(
    store: StoreModel,
    id: int,
    payload: PayloadView,
    stamp: Seq<char>,
)
    ensures
        (posted(store, id, payload, stamp).1 matches Ok(conta) ==> {
            &&& conta.sound()
            &&& i64::MIN <= conta.saldo <= i64::MAX
            &&& posted(store, id, payload, stamp).0.row(id) == Some(conta)
        }),
{
}

/// A posting, committed or not, keeps the balance rule in the whole store: if
/// every account respected its limit before, every account does afterwards.
pub proof fn law_posting_keeps_store_sound(
    store: StoreModel,
    id: int,
    payload: PayloadView,
    stamp: Seq<char>,
)
    requires
        store.sound(),
    ensures
        posted(store, id, payload, stamp).0.sound(),
{
    let after = posted(store, id, payload, stamp).0;
    assert forall|other: int| #[trigger] after.has(other) implies after.accounts[other].conta().sound() by {
        if other != id || after == store {
            assert(store.has(other));
        }
    }
}

/// A posting that commits appends exactly one movement to the history of its
/// account, with the signed amount, the kind and the description of the
/// payload and the store's stamp, and keeps the limit. Every posting leaves
/// all other accounts as they were, and creates and removes none.
pub proof fn law_commit_appends_one_movement(
    store: StoreModel,
    id: int,
    payload: PayloadView,
    stamp: Seq<char>,
)
    ensures
        (posted(store, id, payload, stamp).1 is Ok ==> {
            &&& store.has(id)
            &&& posted(store, id, payload, stamp).0.accounts[id].history
                == store.accounts[id].history.push(
                TransacaoView {
                    valor: movement_of(payload).amount,
                    tipo: payload.tipo,
                    descricao: payload.descricao->0,
                    realizada_em: stamp,
                },
            )
            &&& posted(store, id, payload, stamp).0.accounts[id].limite == store.accounts[id].limite
            &&& posted(store, id, payload, stamp).0.accounts[id].saldo == store.accounts[id].saldo
                + movement_of(payload).amount
        }),
        posted(store, id, payload, stamp).1 is Err ==> posted(store, id, payload, stamp).0 == store,
        forall|other: int|
            other != id ==> posted(store, id, payload, stamp).0.accounts[other]
                == store.accounts[other],
        forall|other: int| posted(store, id, payload, stamp).0.has(other) == store.has(other),
{
}

/// A payload without a description, or with one that is empty or longer than
/// ten characters, is refused as invalid whatever its amount and kind, whatever
/// the account, and whether or not the store would have failed; the store is
/// not changed.
pub proof fn law_description_is_required(
    store: StoreModel,
    id: int,
    payload: PayloadView,
    stamp: Seq<char>,
    fault: Option<nat>,
)
    requires
        payload.descricao matches Some(text) ==> !description_fits(text),
    ensures
        post_run(store, id, payload, stamp, fault).1 matches Err(LedgerError::Validation(_)),
        post_run(store, id, payload, stamp, fault).0 == store,
        posted(store, id, payload, stamp).1 matches Err(LedgerError::Validation(_)),
{
    reveal_with_fuel(post_drive, 3);
}

/// A payload whose kind is neither `"c"` nor `"d"` is refused as invalid,
/// whatever else it holds; the store is not changed.
pub proof fn law_kind_is_required(
    store: StoreModel,
    id: int,
    payload: PayloadView,
    stamp: Seq<char>,
    fault: Option<nat>,
)
    requires
        kind_of(payload.tipo) is None,
    ensures
        post_run(store, id, payload, stamp, fault).1 matches Err(LedgerError::Validation(_)),
        post_run(store, id, payload, stamp, fault).0 == store,
        posted(store, id, payload, stamp).1 matches Err(LedgerError::Validation(_)),
{
    reveal_with_fuel(post_drive, 3);
}

/// An account that the store does not hold is reported as not found, by a
/// reading and by a posting with a faultless payload alike, and the posting
/// changes nothing.
pub proof fn law_unknown_account_is_not_found(
    store: StoreModel,
    id: int,
    payload: PayloadView,
    stamp: Seq<char>,
    now: Seq<char>,
)
    requires
        !store.has(id),
    ensures
        read_run(store, id, now) == Err::<ExtratoView, LedgerError>(
            LedgerError::NotFound,
        ),
        rejection(payload) is None ==> post_run(store, id, payload, stamp, None) == (
            store,
            Err::<ContaView, LedgerError>(LedgerError::NotFound),
        ),
{
    theorem_read_run_is_statement(store, id, now);
    theorem_post_run_is_posted(store, id, payload, stamp);
}

/// Two readings of an account with no posting between them show the same
/// balance, the same limit and the same movements, whenever they are made.
pub proof fn law_readings_agree(store: StoreModel, id: int, first: Seq<char>, second: Seq<char>)
    ensures
        (match (read_run(store, id, first), read_run(store, id, second)) {
            (Ok(one), Ok(other)) => {
                &&& one.saldo.total == other.saldo.total
                &&& one.saldo.limite == other.saldo.limite
                &&& one.ultimas_transacoes == other.ultimas_transacoes
                &&& one.saldo.data_extrato == first
                &&& other.saldo.data_extrato == second
            },
            (Err(one), Err(other)) => one == other,
            _ => false,
        }),
{
    theorem_read_run_is_statement(store, id, first);
    theorem_read_run_is_statement(store, id, second);
}

/// A statement lists the latest movements of its account, newest first: the
/// movement committed last comes first, and there are ten at most.
pub proof fn law_statement_lists_latest_first(store: StoreModel, id: int, now: Seq<char>)
    requires
        store.has(id),
    ensures
        (statement_of(store, id, now) matches Ok(extrato) && {
            let history = store.accounts[id].history;
            let listed = extrato.ultimas_transacoes;
            &&& extrato.saldo.total == store.accounts[id].saldo
            &&& extrato.saldo.limite == store.accounts[id].limite
            &&& extrato.saldo.data_extrato == now
            &&& listed.len() == if history.len() <= RECENT_MAX {
                history.len()
            } else {
                RECENT_MAX as nat
            }
            &&& forall|k: int| 0 <= k < listed.len() ==> listed[k] == history[history.len() - 1 - k]
        }),
{
}

} // verus!
