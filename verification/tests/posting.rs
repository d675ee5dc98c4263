//! Postings played against a small store kept in memory, which serves the
//! requests of the protocol one at a time, as a store with row locks does.

use std::collections::HashMap;

use account_ledger::account::{Conta, Transacao};
use account_ledger::error::{answer_status, LedgerError, Rejection};
use account_ledger::limit::check;
use account_ledger::payload::{Movement, Payload};
use account_ledger::poster::{begin, resume, settle, PostProgress, PostRequest, PostState, StoreReply};

struct Account {
    conta: Conta,
    history: Vec<Transacao>,
}

struct Store {
    accounts: HashMap<i32, Account>,
    commits: u32,
    requests: u32,
    fail_at: Option<u32>,
}

fn store_with(id: i32, saldo: i64, limite: i64) -> Store {
    let mut accounts: HashMap<i32, Account> = HashMap::new();
    accounts.insert(id, Account { conta: Conta { saldo, limite }, history: Vec::new() });
    Store { accounts, commits: 0, requests: 0, fail_at: None }
}

fn serve(store: &mut Store, request: PostRequest) -> StoreReply {
    let number: u32 = store.requests;
    store.requests += 1;
    if store.fail_at == Some(number) {
        return StoreReply::Failed;
    }
    match request {
        PostRequest::Lock { id } => StoreReply::Row(store.accounts.get(&id).map(|account| account.conta)),
        PostRequest::Commit { id, saldo, movement } => match store.accounts.get_mut(&id) {
            Some(account) => {
                store.commits += 1;
                account.conta.saldo = saldo;
                account.history.push(Transacao {
                    valor: movement.amount,
                    tipo: movement.tipo,
                    descricao: movement.descricao,
                    realizada_em: format!("2024-01-17T02:34:41.{:03}Z", store.commits),
                });
                StoreReply::Committed
            }
            None => StoreReply::Failed,
        },
    }
}

fn post(store: &mut Store, id: i32, payload: Payload) -> Result<Conta, LedgerError> {
    store.requests = 0;
    let mut progress = begin(id, payload);
    loop {
        match progress {
            PostProgress::Done { outcome } => return outcome,
            PostProgress::Ask { state, request } => {
                let reply = serve(store, request);
                progress = resume(state, reply);
            }
        }
    }
}

fn payload(valor: i64, tipo: &str, descricao: &str) -> Payload {
    Payload { valor, tipo: tipo.to_string(), descricao: Some(descricao.to_string()) }
}

fn saldo_of(store: &Store, id: i32) -> i64 {
    store.accounts[&id].conta.saldo
}

#[test]
fn debit_down_to_the_limit_then_one_more() {
    let mut store = store_with(1, 0, 1000);
    let first = post(&mut store, 1, payload(1000, "d", "test"));
    assert_eq!(first, Ok(Conta { saldo: -1000, limite: 1000 }));
    assert_eq!(saldo_of(&store, 1), -1000);
    let second = post(&mut store, 1, payload(1, "d", "x"));
    assert_eq!(second, Err(LedgerError::InvariantViolation));
    assert_eq!(saldo_of(&store, 1), -1000);
    assert_eq!(store.accounts[&1].history.len(), 1);
}

#[test]
fn posting_on_unknown_account_is_not_found() {
    let mut store = store_with(1, 0, 1000);
    let answer = post(&mut store, 999, payload(10, "c", "x"));
    assert_eq!(answer, Err(LedgerError::NotFound));
    assert_eq!(store.requests, 1);
    assert_eq!(saldo_of(&store, 1), 0);
    assert_eq!(store.commits, 0);
}

#[test]
fn two_credits_of_500_make_1000_in_either_order() {
    let mut store = store_with(1, 0, 1000);
    let one = post(&mut store, 1, payload(500, "c", "first"));
    let other = post(&mut store, 1, payload(500, "c", "second"));
    assert_eq!(one, Ok(Conta { saldo: 500, limite: 1000 }));
    assert_eq!(other, Ok(Conta { saldo: 1000, limite: 1000 }));
    assert_eq!(saldo_of(&store, 1), 1000);

    let mut again = store_with(1, 0, 1000);
    let other = post(&mut again, 1, payload(500, "c", "second"));
    let one = post(&mut again, 1, payload(500, "c", "first"));
    assert!(one.is_ok() && other.is_ok());
    assert_eq!(saldo_of(&again, 1), 1000);
    assert_eq!(again.accounts[&1].history.len(), 2);
}

#[test]
fn credits_of_different_size_add_up_in_either_order() {
    let mut store = store_with(7, -200, 300);
    assert_eq!(post(&mut store, 7, payload(150, "c", "a")), Ok(Conta { saldo: -50, limite: 300 }));
    assert_eq!(post(&mut store, 7, payload(70, "c", "b")), Ok(Conta { saldo: 20, limite: 300 }));
    let mut again = store_with(7, -200, 300);
    assert_eq!(post(&mut again, 7, payload(70, "c", "b")), Ok(Conta { saldo: -130, limite: 300 }));
    assert_eq!(post(&mut again, 7, payload(150, "c", "a")), Ok(Conta { saldo: 20, limite: 300 }));
}

#[test]
fn balance_never_goes_below_the_limit() {
    let mut store = store_with(3, 50, 100);
    let moves: Vec<(i64, &str)> = vec![
        (100, "d"),
        (60, "d"),
        (50, "d"),
        (30, "c"),
        (81, "d"),
        (80, "d"),
        (1, "d"),
        (500, "c"),
        (600, "d"),
        (1, "d"),
    ];
    let expected: Vec<Option<i64>> = vec![
        Some(-50),
        None,
        Some(-100),
        Some(-70),
        None,
        None,
        Some(-71),
        Some(429),
        None,
        Some(428),
    ];
    let mut position: usize = 0;
    for (valor, tipo) in moves {
        let answer = post(&mut store, 3, payload(valor, tipo, "move"));
        match expected[position] {
            Some(saldo) => assert_eq!(answer, Ok(Conta { saldo, limite: 100 })),
            None => assert_eq!(answer, Err(LedgerError::InvariantViolation)),
        }
        let conta = store.accounts[&3].conta;
        assert!(conta.saldo + conta.limite >= 0);
        assert!(check(conta.saldo, conta.limite));
        position += 1;
    }
    assert_eq!(store.accounts[&3].history.len(), 6);
}

#[test]
fn debits_that_sum_to_the_headroom_all_commit() {
    let amounts: Vec<i64> = vec![700, 200, 300, 50];
    let mut store = store_with(1, 250, 1000);
    for valor in &amounts {
        assert!(post(&mut store, 1, payload(*valor, "d", "debit")).is_ok());
    }
    assert_eq!(saldo_of(&store, 1), -1000);
    let mut reversed = store_with(1, 250, 1000);
    for valor in amounts.iter().rev() {
        assert!(post(&mut reversed, 1, payload(*valor, "d", "debit")).is_ok());
    }
    assert_eq!(saldo_of(&reversed, 1), -1000);
    assert_eq!(post(&mut reversed, 1, payload(1, "d", "more")), Err(LedgerError::InvariantViolation));
}

#[test]
fn two_debits_beyond_the_headroom_never_both_commit() {
    let mut store = store_with(1, 0, 1000);
    let one = post(&mut store, 1, payload(600, "d", "one"));
    let other = post(&mut store, 1, payload(401, "d", "other"));
    assert_eq!(one, Ok(Conta { saldo: -600, limite: 1000 }));
    assert_eq!(other, Err(LedgerError::InvariantViolation));
    assert_eq!(saldo_of(&store, 1), -600);

    let mut again = store_with(1, 0, 1000);
    let other = post(&mut again, 1, payload(401, "d", "other"));
    let one = post(&mut again, 1, payload(600, "d", "one"));
    assert_eq!(other, Ok(Conta { saldo: -401, limite: 1000 }));
    assert_eq!(one, Err(LedgerError::InvariantViolation));
    // the debit that was refused does not fit in what the other left
    assert!(!check(saldo_of(&again, 1) - 600, 1000));
    assert_eq!(again.accounts[&1].history.len(), 1);
}

#[test]
fn committed_movement_is_kept_with_signed_amount() {
    let mut store = store_with(1, 0, 1000);
    assert!(post(&mut store, 1, payload(30, "d", "café")).is_ok());
    assert!(post(&mut store, 1, payload(45, "c", "salario")).is_ok());
    let history = &store.accounts[&1].history;
    assert_eq!(history.len(), 2);
    assert_eq!(history[0].valor, -30);
    assert_eq!(history[0].tipo, "d");
    assert_eq!(history[0].descricao, "café");
    assert_eq!(history[1].valor, 45);
    assert_eq!(history[1].tipo, "c");
    assert_eq!(history[1].descricao, "salario");
}

#[test]
fn invalid_payload_never_reaches_the_store() {
    let mut store = store_with(1, 0, 1000);
    let answer = post(&mut store, 1, payload(10, "x", "ok"));
    assert_eq!(answer, Err(LedgerError::Validation(Rejection::UnknownKind)));
    assert_eq!(store.requests, 0);
    let answer = post(&mut store, 999, payload(10, "c", ""));
    assert_eq!(answer, Err(LedgerError::Validation(Rejection::DescriptionLength)));
    assert_eq!(store.requests, 0);
}

#[test]
fn failure_of_the_locking_read_is_a_store_error() {
    let mut store = store_with(1, 0, 1000);
    store.fail_at = Some(0);
    assert_eq!(post(&mut store, 1, payload(10, "c", "x")), Err(LedgerError::Store));
    assert_eq!(saldo_of(&store, 1), 0);
    assert_eq!(store.commits, 0);
}

#[test]
fn failure_of_the_write_is_a_store_error_and_changes_nothing() {
    let mut store = store_with(1, 0, 1000);
    store.fail_at = Some(1);
    assert_eq!(post(&mut store, 1, payload(10, "c", "x")), Err(LedgerError::Store));
    assert_eq!(saldo_of(&store, 1), 0);
    assert!(store.accounts[&1].history.is_empty());
    store.fail_at = None;
    assert_eq!(post(&mut store, 1, payload(10, "c", "x")), Ok(Conta { saldo: 10, limite: 1000 }));
}

fn asked(progress: PostProgress) -> (PostState, PostRequest) {
    match progress {
        PostProgress::Ask { state, request } => (state, request),
        PostProgress::Done { outcome } => panic!("the posting ended: {:?}", outcome),
    }
}

fn waiting_for_row(id: i32, valor: i64, tipo: &str) -> PostState {
    asked(begin(id, payload(valor, tipo, "abc"))).0
}

fn waiting_for_commit(id: i32, valor: i64, tipo: &str, row: Conta) -> PostState {
    asked(resume(waiting_for_row(id, valor, tipo), StoreReply::Row(Some(row)))).0
}

#[test]
fn begin_asks_for_the_locking_read() {
    let (_, request) = asked(begin(42, payload(5, "d", "abc")));
    assert_eq!(request, PostRequest::Lock { id: 42 });
}

#[test]
fn row_leads_to_the_write_of_the_new_balance() {
    let state = waiting_for_row(42, 5, "d");
    let (_, request) = asked(resume(state, StoreReply::Row(Some(Conta { saldo: 3, limite: 10 }))));
    assert_eq!(
        request,
        PostRequest::Commit {
            id: 42,
            saldo: -2,
            movement: Movement { amount: -5, tipo: "d".to_string(), descricao: "abc".to_string() },
        }
    );
}

#[test]
fn absent_row_ends_as_not_found() {
    let state = waiting_for_row(42, 5, "c");
    assert_eq!(
        resume(state, StoreReply::Row(None)),
        PostProgress::Done { outcome: Err(LedgerError::NotFound) }
    );
}

#[test]
fn row_without_headroom_ends_as_violation() {
    let state = waiting_for_row(42, 5, "d");
    assert_eq!(
        resume(state, StoreReply::Row(Some(Conta { saldo: -6, limite: 10 }))),
        PostProgress::Done { outcome: Err(LedgerError::InvariantViolation) }
    );
}

#[test]
fn commit_ends_with_the_new_balance_and_the_limit() {
    let state = waiting_for_commit(42, 5, "d", Conta { saldo: 3, limite: 10 });
    let progress = resume(state, StoreReply::Committed);
    assert_eq!(progress, PostProgress::Done { outcome: Ok(Conta { saldo: -2, limite: 10 }) });
}

#[test]
fn reply_to_another_request_is_a_store_error() {
    assert_eq!(
        resume(waiting_for_row(1, 5, "c"), StoreReply::Committed),
        PostProgress::Done { outcome: Err(LedgerError::Store) }
    );
    let row = Conta { saldo: 0, limite: 0 };
    assert_eq!(
        resume(waiting_for_commit(1, 5, "c", row), StoreReply::Row(Some(row))),
        PostProgress::Done { outcome: Err(LedgerError::Store) }
    );
    assert_eq!(
        resume(waiting_for_commit(1, 5, "c", row), StoreReply::Row(None)),
        PostProgress::Done { outcome: Err(LedgerError::Store) }
    );
    assert_eq!(
        resume(waiting_for_commit(1, 5, "c", row), StoreReply::Failed),
        PostProgress::Done { outcome: Err(LedgerError::Store) }
    );
    assert_eq!(
        resume(waiting_for_row(1, 5, "c"), StoreReply::Failed),
        PostProgress::Done { outcome: Err(LedgerError::Store) }
    );
}

#[test]
fn settle_adds_under_the_balance_rule() {
    assert_eq!(settle(Conta { saldo: 0, limite: 1000 }, -1000), Ok(-1000));
    assert_eq!(settle(Conta { saldo: 0, limite: 1000 }, -1001), Err(LedgerError::InvariantViolation));
    assert_eq!(settle(Conta { saldo: -1000, limite: 1000 }, 1), Ok(-999));
    assert_eq!(settle(Conta { saldo: 10, limite: 0 }, -10), Ok(0));
    assert_eq!(settle(Conta { saldo: 10, limite: 0 }, -11), Err(LedgerError::InvariantViolation));
}

#[test]
fn settle_at_the_edges_of_what_a_row_holds() {
    assert_eq!(settle(Conta { saldo: i64::MAX, limite: 0 }, 1), Err(LedgerError::Store));
    assert_eq!(settle(Conta { saldo: i64::MAX - 1, limite: 0 }, 1), Ok(i64::MAX));
    assert_eq!(settle(Conta { saldo: 1, limite: i64::MAX }, i64::MAX), Err(LedgerError::Store));
    assert_eq!(
        settle(Conta { saldo: i64::MIN, limite: i64::MAX }, -1),
        Err(LedgerError::InvariantViolation)
    );
    assert_eq!(settle(Conta { saldo: i64::MAX, limite: i64::MIN }, 1), Err(LedgerError::Store));
    assert_eq!(
        settle(Conta { saldo: 0, limite: i64::MAX }, -i64::MAX),
        Ok(-i64::MAX)
    );
    assert_eq!(
        settle(Conta { saldo: -1, limite: i64::MAX }, -i64::MAX),
        Err(LedgerError::InvariantViolation)
    );
}

#[test]
fn check_is_balance_plus_limit_not_negative() {
    assert!(check(0, 0));
    assert!(check(-1000, 1000));
    assert!(!check(-1001, 1000));
    assert!(check(5, -5));
    assert!(!check(4, -5));
    assert!(check(i64::MAX, i64::MAX));
    assert!(!check(i64::MIN, i64::MAX));
    assert!(!check(i64::MIN, i64::MIN));
    assert!(check(i64::MAX, i64::MIN + 1));
    assert!(!check(i64::MAX, i64::MIN));
}

#[test]
fn each_error_has_its_status_and_text() {
    assert_eq!(LedgerError::Validation(Rejection::DescriptionMissing).status(), 422);
    assert_eq!(LedgerError::Validation(Rejection::AmountNotPositive).status(), 422);
    assert_eq!(LedgerError::NotFound.status(), 404);
    assert_eq!(LedgerError::InvariantViolation.status(), 422);
    assert_eq!(LedgerError::Store.status(), 500);
    assert_eq!(LedgerError::Validation(Rejection::DescriptionMissing).summary(), "descricao nulo");
    assert_eq!(
        LedgerError::Validation(Rejection::DescriptionLength).summary(),
        "descricao vazio ou maior que 10"
    );
    assert_eq!(LedgerError::Validation(Rejection::UnknownKind).summary(), "Error");
    assert_eq!(LedgerError::Validation(Rejection::AmountNotPositive).summary(), "valor nao positivo");
    assert_eq!(LedgerError::NotFound.summary(), "404");
    assert_eq!(LedgerError::InvariantViolation.summary(), "422");
    assert_eq!(LedgerError::Store.summary(), "500");
}

#[test]
fn answer_status_is_200_or_the_status_of_the_error() {
    let done: Result<Conta, LedgerError> = Ok(Conta { saldo: 1, limite: 2 });
    assert_eq!(answer_status(&done), 200);
    let unknown: Result<Conta, LedgerError> = Err(LedgerError::NotFound);
    assert_eq!(answer_status(&unknown), 404);
    let refused: Result<Conta, LedgerError> = Err(LedgerError::InvariantViolation);
    assert_eq!(answer_status(&refused), 422);
    let invalid: Result<Conta, LedgerError> = Err(LedgerError::Validation(Rejection::UnknownKind));
    assert_eq!(answer_status(&invalid), 422);
    let failed: Result<Conta, LedgerError> = Err(LedgerError::Store);
    assert_eq!(answer_status(&failed), 500);
}

#[test]
fn postings_on_different_accounts_do_not_disturb_each_other() {
    let mut store = store_with(1, 0, 100);
    store.accounts.insert(2, Account { conta: Conta { saldo: 5, limite: 0 }, history: Vec::new() });
    assert_eq!(post(&mut store, 1, payload(100, "d", "one")), Ok(Conta { saldo: -100, limite: 100 }));
    assert_eq!(post(&mut store, 2, payload(5, "d", "two")), Ok(Conta { saldo: 0, limite: 0 }));
    assert_eq!(post(&mut store, 2, payload(1, "d", "two")), Err(LedgerError::InvariantViolation));
    assert_eq!(saldo_of(&store, 1), -100);
    assert_eq!(saldo_of(&store, 2), 0);
    assert_eq!(store.accounts[&1].history.len(), 1);
    assert_eq!(store.accounts[&2].history.len(), 1);
}
