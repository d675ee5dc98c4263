//! Validation of payloads.

use account_ledger::error::{LedgerError, Rejection};
use account_ledger::payload::{parse_kind, validate, Kind, Movement, Payload};
use account_ledger::poster::{begin, PostProgress};

fn payload(valor: i64, tipo: &str, descricao: Option<&str>) -> Payload {
    Payload { valor, tipo: tipo.to_string(), descricao: descricao.map(|text| text.to_string()) }
}

fn refused(valor: i64, tipo: &str, descricao: Option<&str>) -> Option<Rejection> {
    match begin(1, payload(valor, tipo, descricao)) {
        PostProgress::Done { outcome: Err(LedgerError::Validation(fault)) } => Some(fault),
        PostProgress::Done { outcome } => panic!("unexpected end: {:?}", outcome),
        PostProgress::Ask { .. } => None,
    }
}

#[test]
fn empty_description_is_refused_whatever_the_rest() {
    let rest: Vec<(i64, &str)> = vec![(1, "c"), (1, "d"), (0, "c"), (-5, "d"), (10, "x"), (i64::MAX, "c"), (i64::MIN, "")];
    for (valor, tipo) in rest {
        assert_eq!(refused(valor, tipo, Some("")), Some(Rejection::DescriptionLength));
    }
}

#[test]
fn long_description_is_refused_whatever_the_rest() {
    let rest: Vec<(i64, &str)> = vec![(1, "c"), (1, "d"), (0, "c"), (-5, "d"), (10, "x"), (i64::MAX, "c")];
    for (valor, tipo) in rest {
        assert_eq!(refused(valor, tipo, Some("12345678901")), Some(Rejection::DescriptionLength));
        assert_eq!(
            refused(valor, tipo, Some("a description far beyond ten characters")),
            Some(Rejection::DescriptionLength)
        );
    }
}

#[test]
fn missing_description_is_refused_whatever_the_rest() {
    let rest: Vec<(i64, &str)> = vec![(1, "c"), (1, "d"), (0, "c"), (10, "x")];
    for (valor, tipo) in rest {
        assert_eq!(refused(valor, tipo, None), Some(Rejection::DescriptionMissing));
    }
}

#[test]
fn description_of_one_to_ten_characters_is_accepted() {
    assert_eq!(refused(1, "c", Some("a")), None);
    assert_eq!(refused(1, "c", Some("1234567890")), None);
    assert_eq!(refused(1, "d", Some("          ")), None);
}

#[test]
fn description_length_counts_characters() {
    // ten characters, twenty bytes
    assert_eq!("çççççççççç".len(), 20);
    assert_eq!(refused(1, "c", Some("çççççççççç")), None);
    assert_eq!(refused(1, "c", Some("ççççççççççç")), Some(Rejection::DescriptionLength));
}

#[test]
fn unknown_kind_is_refused() {
    let kinds: Vec<&str> = vec!["", "x", "C", "D", "cd", "credit", "debit", "c ", " d", "ç"];
    for tipo in kinds {
        assert_eq!(refused(1, tipo, Some("ok")), Some(Rejection::UnknownKind));
        assert_eq!(refused(-1, tipo, Some("ok")), Some(Rejection::UnknownKind));
    }
}

#[test]
fn amount_must_be_positive() {
    assert_eq!(refused(0, "c", Some("ok")), Some(Rejection::AmountNotPositive));
    assert_eq!(refused(0, "d", Some("ok")), Some(Rejection::AmountNotPositive));
    assert_eq!(refused(-1, "c", Some("ok")), Some(Rejection::AmountNotPositive));
    assert_eq!(refused(i64::MIN, "d", Some("ok")), Some(Rejection::AmountNotPositive));
    assert_eq!(refused(1, "c", Some("ok")), None);
    assert_eq!(refused(i64::MAX, "d", Some("ok")), None);
}

#[test]
fn first_fault_is_reported() {
    assert_eq!(refused(0, "x", None), Some(Rejection::DescriptionMissing));
    assert_eq!(refused(0, "x", Some("")), Some(Rejection::DescriptionLength));
    assert_eq!(refused(0, "x", Some("ok")), Some(Rejection::UnknownKind));
    assert_eq!(refused(0, "c", Some("ok")), Some(Rejection::AmountNotPositive));
}

#[test]
fn validated_movement_carries_the_sign_of_its_kind() {
    assert_eq!(
        validate(payload(1000, "d", Some("test"))),
        Ok(Movement { amount: -1000, tipo: "d".to_string(), descricao: "test".to_string() })
    );
    assert_eq!(
        validate(payload(1000, "c", Some("test"))),
        Ok(Movement { amount: 1000, tipo: "c".to_string(), descricao: "test".to_string() })
    );
    assert_eq!(
        validate(payload(i64::MAX, "d", Some("all"))),
        Ok(Movement { amount: -i64::MAX, tipo: "d".to_string(), descricao: "all".to_string() })
    );
    assert_eq!(validate(payload(1, "e", Some("test"))), Err(Rejection::UnknownKind));
}

#[test]
fn kind_is_read_from_one_letter() {
    assert_eq!(parse_kind("c"), Some(Kind::Credit));
    assert_eq!(parse_kind("d"), Some(Kind::Debit));
    assert_eq!(parse_kind(""), None);
    assert_eq!(parse_kind("cc"), None);
    assert_eq!(parse_kind("e"), None);
}
