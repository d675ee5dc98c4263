//! Postings one after another.
//!
//! The store locks the row of an account for the length of a posting, so
//! postings on one account take effect in some order, one at a time, however
//! they were sent. This module describes a series of postings taking effect in
//! a given order, and proves what holds of every such order.

use vstd::prelude::*;
use crate::account::ContaView;
use crate::error::LedgerError;
use crate::laws::law_posting_keeps_store_sound;
use crate::ledger::posted;
use crate::limit::within_limit;
use crate::payload::{kind_of, movement_of, rejection, Kind, PayloadView};
use crate::store::StoreModel;

verus! {

/// One posting of a series: the account, the payload, and the stamp that the
/// store gives the movement if it commits.
pub struct Posting {
    pub id: int,
    pub payload: PayloadView,
    pub stamp: Seq<char>,
}

/// The store after the postings took effect in the order of the series.
pub open spec fn store_after(store: StoreModel, postings: Seq<Posting>) -> StoreModel
    decreases postings.len(),
{
    if postings.len() == 0 {
        store
    } else {
        let last = postings.last();
        posted(store_after(store, postings.drop_last()), last.id, last.payload, last.stamp).0
    }
}

/// The answer to the posting at position `i` of the series.
pub open spec fn answer_at(store: StoreModel, postings: Seq<Posting>, i: int) -> Result<
    ContaView,
    LedgerError,
>
    recommends
        0 <= i < postings.len(),
{
    let posting = postings[i];
    posted(store_after(store, postings.take(i)), posting.id, posting.payload, posting.stamp).1
}

/// Every posting of the series is on account `id`, has a faultless payload,
/// and is of the given kind.
pub open spec fn all_of_kind(postings: Seq<Posting>, id: int, kind: Kind) -> bool {
    forall|i: int|
        0 <= i < postings.len() ==> {
            &&& (#[trigger] postings[i]).id == id
            &&& rejection(postings[i].payload) is None
            &&& kind_of(postings[i].payload.tipo) == Some(kind)
        }
}

/// The sum of the magnitudes of the series.
pub open spec fn total(postings: Seq<Posting>) -> int
    decreases postings.len(),
{
    if postings.len() == 0 {
        0
    } else {
        total(postings.drop_last()) + postings.last().payload.valor
    }
}

/// The sum of the signed amounts of those postings of the series that are on
/// account `id` and commit.
pub open spec fn committed_sum(store: StoreModel, postings: Seq<Posting>, id: int) -> int
    decreases postings.len(),
{
    if postings.len() == 0 {
        0
    } else {
        let earlier = postings.drop_last();
        let last = postings.last();
        let answer = posted(store_after(store, earlier), last.id, last.payload, last.stamp).1;
        committed_sum(store, earlier, id) + if last.id == id && answer is Ok {
            movement_of(last.payload).amount
        } else {
            0
        }
    }
}

/// The answers to all but the last posting of a series are the answers of the
/// series without it.
proof fn lemma_answers_of_earlier(store: StoreModel, postings: Seq<Posting>)
    requires
        postings.len() > 0,
    ensures
        forall|i: int|
            0 <= i < postings.len() - 1 ==> #[trigger] answer_at(store, postings, i) == answer_at(
                store,
                postings.drop_last(),
                i,
            ),
        postings.take(postings.len() - 1) == postings.drop_last(),
{
    let earlier = postings.drop_last();
    assert(postings.take(postings.len() - 1) =~= earlier);
    assert forall|i: int| 0 <= i < postings.len() - 1 implies #[trigger] answer_at(
        store,
        postings,
        i,
    ) == answer_at(store, earlier, i) by {
        assert(postings.take(i) =~= earlier.take(i));
    }
}

/// The balance rule survives every series of postings, whatever they are and
/// on whichever accounts: a store in which every account respects its limit is
/// still such a store afterwards, and it holds the same accounts.
pub proof fn law_series_keeps_store_sound(store: StoreModel, postings: Seq<Posting>)
    requires
        store.sound(),
    ensures
        store_after(store, postings).sound(),
        forall|id: int| store_after(store, postings).has(id) == store.has(id),
    decreases postings.len(),
{
    if postings.len() > 0 {
        let earlier = postings.drop_last();
        let last = postings.last();
        law_series_keeps_store_sound(store, earlier);
        law_posting_keeps_store_sound(store_after(store, earlier), last.id, last.payload, last.stamp);
    }
}

/// No update is lost: after any series of postings, the balance of an account
/// is its balance before plus the amounts of the postings on it that
/// committed, and its limit is what it was.
pub proof fn law_no_update_is_lost(store: StoreModel, postings: Seq<Posting>, id: int)
    requires
        store.has(id),
    ensures
        store_after(store, postings).has(id),
        store_after(store, postings).accounts[id].saldo == store.accounts[id].saldo
            + committed_sum(store, postings, id),
        store_after(store, postings).accounts[id].limite == store.accounts[id].limite,
    decreases postings.len(),
{
    if postings.len() > 0 {
        law_no_update_is_lost(store, postings.drop_last(), id);
    }
}

/// Postings on two different accounts do not depend on each other: in
/// whichever order they take effect, the store ends up the same and each gets
/// the same answer.
pub proof fn law_postings_on_distinct_accounts_commute(
    store: StoreModel,
    one: Posting,
    other: Posting,
)
    requires
        one.id != other.id,
    ensures
        store_after(store, seq![one, other]) == store_after(store, seq![other, one]),
        answer_at(store, seq![one, other], 0) == answer_at(store, seq![other, one], 1),
        answer_at(store, seq![one, other], 1) == answer_at(store, seq![other, one], 0),
{
    let ahead = seq![one, other];
    let behind = seq![other, one];
    reveal_with_fuel(store_after, 3);
    assert(ahead.drop_last() =~= seq![one]);
    assert(behind.drop_last() =~= seq![other]);
    assert(seq![one].drop_last() =~= Seq::<Posting>::empty());
    assert(seq![other].drop_last() =~= Seq::<Posting>::empty());
    assert(ahead.take(0) =~= Seq::<Posting>::empty());
    assert(behind.take(0) =~= Seq::<Posting>::empty());
    assert(ahead.take(1) =~= seq![one]);
    assert(behind.take(1) =~= seq![other]);
    assert(store_after(store, ahead).accounts =~= store_after(store, behind).accounts);
}

/// Debits on one account, taking effect in any order.
///
/// All of them commit exactly when together they fit, that is when their sum
/// is no more than the balance plus the limit; the balance then goes down by
/// their sum. In any case a debit that is refused is refused for the limit,
/// and it would still not fit in what the others left: those that committed
/// are all that fit.
pub proof fn law_debits_commit_while_they_fit(store: StoreModel, postings: Seq<Posting>, id: int)
    requires
        store.row(id) matches Some(conta) && conta.sound() && conta.storable(),
        all_of_kind(postings, id, Kind::Debit),
    ensures
        ({
            let conta = store.row(id)->0;
            let left = store_after(store, postings).accounts[id].conta();
            &&& store_after(store, postings).has(id)
            &&& left.limite == conta.limite && left.sound() && left.storable()
            &&& conta.saldo - total(postings) <= left.saldo <= conta.saldo
            &&& (forall|i: int| 0 <= i < postings.len() ==> answer_at(store, postings, i) is Ok)
                <==> total(postings) <= conta.saldo + conta.limite
            &&& total(postings) <= conta.saldo + conta.limite ==> left.saldo == conta.saldo
                - total(postings)
            &&& forall|i: int|
                0 <= i < postings.len() && answer_at(store, postings, i) is Err ==> {
                    &&& #[trigger] answer_at(store, postings, i) == Err::<ContaView, LedgerError>(
                        LedgerError::InvariantViolation,
                    )
                    &&& !within_limit(left.saldo - postings[i].payload.valor, left.limite)
                }
        }),
    decreases postings.len(),
{
    if postings.len() > 0 {
        let earlier = postings.drop_last();
        let n = postings.len() - 1;
        law_debits_commit_while_they_fit(store, earlier, id);
        lemma_answers_of_earlier(store, postings);
        assert(postings[n] == postings.last());
        if forall|i: int| 0 <= i < postings.len() ==> answer_at(store, postings, i) is Ok {
            assert forall|i: int| 0 <= i < earlier.len() implies answer_at(store, earlier, i) is Ok by {
                assert(answer_at(store, postings, i) is Ok);
            }
            assert(answer_at(store, postings, n) is Ok);
        }
        assert forall|i: int| 0 <= i < n implies postings[i] == earlier[i] by {}
    }
}

/// Credits on one account, taking effect in any order: as long as the balance
/// that their sum leads to is one that a row can hold, all of them commit and
/// the balance goes up by their sum.
pub proof fn law_credits_add_up(store: StoreModel, postings: Seq<Posting>, id: int)
    requires
        store.row(id) matches Some(conta) && conta.sound() && conta.storable() && conta.saldo
            + total(postings) <= i64::MAX,
        all_of_kind(postings, id, Kind::Credit),
    ensures
        forall|i: int| 0 <= i < postings.len() ==> answer_at(store, postings, i) is Ok,
        store_after(store, postings).row(id) == Some(
            ContaView {
                saldo: store.row(id)->0.saldo + total(postings),
                limite: store.row(id)->0.limite,
            },
        ),
        total(postings) >= 0,
    decreases postings.len(),
{
    if postings.len() > 0 {
        let earlier = postings.drop_last();
        assert(postings[postings.len() - 1] == postings.last());
        lemma_total_is_not_negative(earlier, id, Kind::Credit);
        law_credits_add_up(store, earlier, id);
        lemma_answers_of_earlier(store, postings);
    }
}

/// A sum of magnitudes of faultless payloads is not negative.
proof fn lemma_total_is_not_negative(postings: Seq<Posting>, id: int, kind: Kind)
    requires
        all_of_kind(postings, id, kind),
    ensures
        total(postings) >= 0,
    decreases postings.len(),
{
    if postings.len() > 0 {
        assert(postings[postings.len() - 1] == postings.last());
        lemma_total_is_not_negative(postings.drop_last(), id, kind);
    }
}

} // verus!
