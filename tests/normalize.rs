//! Projection of release-specific `listbanned` replies.

use corepc_client::error::{Field, InvalidReason, NormalizeError};
use corepc_client::normalize::{normalize_banned_entry, normalize_list_banned, RawBannedEntry};
use corepc_client::profile::ProtocolVersion;
use corepc_client::{ActiveCommand, GetRpcInfo};

fn raw(reason: Option<&str>, duration: Option<i64>, remaining: Option<i64>) -> RawBannedEntry {
    RawBannedEntry {
        address: "192.0.2.6/32".to_string(),
        ban_created: 1_700_000_000,
        banned_until: 1_700_000_300,
        ban_reason: reason.map(|r| r.to_string()),
        ban_duration: duration,
        time_remaining: remaining,
    }
}

#[test]
fn duration_present_from_its_release_on() {
    let r = raw(None, Some(300), Some(299));
    let e = normalize_banned_entry(ProtocolVersion::V22, &r).unwrap();
    assert_eq!(e.ban_duration, Some(300));
    assert_eq!(e.time_remaining, Some(299));
    assert_eq!(e.ban_reason, None);

    let e = normalize_banned_entry(ProtocolVersion::V21, &r).unwrap();
    assert_eq!(e.ban_duration, None);
    assert_eq!(e.time_remaining, None);
}

#[test]
fn ban_reason_only_up_to_its_last_release() {
    let r = raw(Some("manually added"), None, None);
    let e = normalize_banned_entry(ProtocolVersion::V20, &r).unwrap();
    assert_eq!(e.ban_reason.as_deref(), Some("manually added"));
    assert_eq!(e.address, "192.0.2.6/32");
    assert_eq!(e.ban_created, 1_700_000_000);
    assert_eq!(e.banned_until, 1_700_000_300);

    let e = normalize_banned_entry(ProtocolVersion::V21, &r).unwrap();
    assert_eq!(e.ban_reason, None);
}

#[test]
fn promised_field_missing_is_an_error() {
    let r = raw(None, None, None);
    assert_eq!(
        normalize_banned_entry(ProtocolVersion::V17, &r).unwrap_err(),
        NormalizeError::MissingField(Field::BanReason)
    );
    assert_eq!(
        normalize_banned_entry(ProtocolVersion::V25, &r).unwrap_err(),
        NormalizeError::MissingField(Field::BanDuration)
    );
    let r = raw(None, Some(10), None);
    assert_eq!(
        normalize_banned_entry(ProtocolVersion::V28, &r).unwrap_err(),
        NormalizeError::MissingField(Field::TimeRemaining)
    );
}

#[test]
fn invalid_field_values_are_errors() {
    let mut r = raw(None, None, None);
    r.ban_created = -1;
    assert_eq!(
        normalize_banned_entry(ProtocolVersion::V21, &r).unwrap_err(),
        NormalizeError::InvalidField { field: Field::BanCreated, reason: InvalidReason::NegativeTimestamp }
    );
    let mut r = raw(None, None, None);
    r.banned_until = -5;
    assert_eq!(
        normalize_banned_entry(ProtocolVersion::V21, &r).unwrap_err(),
        NormalizeError::InvalidField { field: Field::BannedUntil, reason: InvalidReason::NegativeTimestamp }
    );
    let mut r = raw(None, None, None);
    r.address = String::new();
    assert_eq!(
        normalize_banned_entry(ProtocolVersion::V21, &r).unwrap_err(),
        NormalizeError::InvalidField { field: Field::Address, reason: InvalidReason::Empty }
    );
}

#[test]
fn list_banned_empty_and_entries() {
    let l = normalize_list_banned(ProtocolVersion::V23, &vec![]).unwrap();
    assert!(l.0.is_empty());

    let l = normalize_list_banned(
        ProtocolVersion::V23,
        &vec![raw(None, Some(300), Some(200)), raw(Some("x"), Some(60), Some(1))],
    )
    .unwrap();
    assert_eq!(l.0.len(), 2);
    assert_eq!(l.0[1].ban_duration, Some(60));
    assert_eq!(l.0[1].ban_reason, None);
}

#[test]
fn list_banned_first_bad_entry_decides() {
    let mut bad = raw(None, Some(300), Some(200));
    bad.ban_created = -3;
    let r = normalize_list_banned(ProtocolVersion::V22, &vec![raw(None, Some(1), Some(1)), bad, raw(None, None, None)]);
    assert_eq!(
        r.unwrap_err(),
        NormalizeError::InvalidField { field: Field::BanCreated, reason: InvalidReason::NegativeTimestamp }
    );
}

#[test]
fn rpc_info_holds_commands() {
    let info = GetRpcInfo(vec![ActiveCommand { method: "getrpcinfo".to_string(), duration: 12 }]);
    assert_eq!(info.0[0].method, "getrpcinfo");
    assert_eq!(info.0[0].duration, 12);
}
