//! Trailing-default elision.

use corepc_client::encoder::{handle_defaults, EncodeError, OperationSignature};
use corepc_client::wire::WireValue;

fn s(v: &str) -> WireValue {
    WireValue::Str(v.to_string())
}

fn show(v: &[WireValue]) -> String {
    format!("{:?}", v)
}

fn set_ban_signature() -> OperationSignature {
    OperationSignature {
        method: "setban".to_string(),
        required: 2,
        defaults: vec![Some(WireValue::Int(0)), Some(WireValue::Bool(false))],
    }
}

#[test]
fn later_optional_set_fills_earlier_default() {
    let args = vec![s("10.0.0.1"), s("add"), WireValue::Null, WireValue::Bool(true)];
    let out = set_ban_signature().encode(&args).unwrap();
    assert_eq!(show(&out), show(&[s("10.0.0.1"), s("add"), WireValue::Int(0), WireValue::Bool(true)]));
}

#[test]
fn no_optional_set_gives_required_prefix() {
    let args = vec![s("10.0.0.1"), s("add"), WireValue::Null, WireValue::Null];
    let out = set_ban_signature().encode(&args).unwrap();
    assert_eq!(out.len(), 2);
    assert_eq!(show(&out), show(&[s("10.0.0.1"), s("add")]));
}

#[test]
fn trailing_unset_optionals_are_dropped() {
    let args = vec![s("x"), s("add"), WireValue::Int(60), WireValue::Null];
    let out = set_ban_signature().encode(&args).unwrap();
    assert_eq!(show(&out), show(&[s("x"), s("add"), WireValue::Int(60)]));
}

#[test]
fn set_values_are_kept_over_defaults() {
    let args = vec![s("x"), s("remove"), WireValue::Int(5), WireValue::Bool(false)];
    let out = set_ban_signature().encode(&args).unwrap();
    assert_eq!(show(&out), show(&args));
}

#[test]
fn missing_default_reports_rightmost_gap() {
    let args = vec![WireValue::Int(1), WireValue::Null, WireValue::Null, WireValue::Null, WireValue::UInt(9)];
    let defaults = vec![WireValue::Null, WireValue::Bool(false), WireValue::Null, WireValue::Null];
    let r = handle_defaults(&args, &defaults);
    assert!(matches!(r, Err(EncodeError::MissingDefault { index: 3 })));
}

#[test]
fn missing_default_after_last_set_is_harmless() {
    let args = vec![WireValue::Int(1), WireValue::Int(2), WireValue::Null];
    let defaults = vec![WireValue::Null, WireValue::Null];
    let out = handle_defaults(&args, &defaults).unwrap();
    assert_eq!(show(&out), show(&[WireValue::Int(1), WireValue::Int(2)]));
}

#[test]
fn first_set_optional_with_gap_defaults() {
    let args = vec![s("r"), WireValue::Null, WireValue::Null, WireValue::Bool(true)];
    let defaults = vec![s("d0"), WireValue::Int(4), WireValue::Null];
    let out = handle_defaults(&args, &defaults).unwrap();
    assert_eq!(show(&out), show(&[s("r"), s("d0"), WireValue::Int(4), WireValue::Bool(true)]));

    let defaults_missing = vec![s("d0"), WireValue::Null, WireValue::Null];
    let r = handle_defaults(&args, &defaults_missing);
    assert!(matches!(r, Err(EncodeError::MissingDefault { index: 2 })));
}

#[test]
fn wrong_argument_count() {
    let r = set_ban_signature().encode(&vec![s("x")]);
    assert!(matches!(r, Err(EncodeError::WrongArgumentCount { expected: 4, got: 1 })));
}

#[test]
fn encoding_is_idempotent() {
    let sig = OperationSignature {
        method: "m".to_string(),
        required: 1,
        defaults: vec![Some(s("")), Some(WireValue::Int(0)), None, None],
    };
    let cases = vec![
        vec![s("a"), WireValue::Null, WireValue::Null, WireValue::UInt(3), WireValue::Null],
        vec![s("a"), WireValue::Null, WireValue::Null, WireValue::Null, WireValue::Null],
        vec![s("a"), s("b"), WireValue::Null, WireValue::Null, WireValue::Null],
        vec![s("a"), WireValue::Null, WireValue::Int(2), WireValue::Bool(true), WireValue::Int(8)],
    ];
    for args in cases {
        let once = sig.encode(&args).unwrap();
        let padded = sig.decode_minimal(&once);
        assert_eq!(padded.len(), 5);
        let twice = sig.encode(&padded).unwrap();
        assert_eq!(show(&once), show(&twice));
    }
}

#[test]
fn empty_signature_encodes_empty_list() {
    let sig = OperationSignature { method: "getpeerinfo".to_string(), required: 0, defaults: vec![] };
    assert!(sig.encode(&vec![]).unwrap().is_empty());
}
