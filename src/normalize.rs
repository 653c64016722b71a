use vstd::prelude::*;

use crate::error::{Field, InvalidReason, NormalizeError};
use crate::profile::ProtocolVersion;

verus! {

/// The last release whose `listbanned` reports a ban reason.
pub const BAN_REASON_LAST_RELEASE: u64 = 20;

/// The first release whose `listbanned` reports ban duration and time remaining.
pub const BAN_DURATION_RELEASE: u64 = 22;

/// One entry of a `listbanned` reply as the server sends it. Which of the optional fields
/// a release fills in depends on the release.
#[derive(Debug)]
pub struct RawBannedEntry {
    pub address: String,
    pub ban_created: i64,
    pub banned_until: i64,
    pub ban_reason: Option<String>,
    pub ban_duration: Option<i64>,
    pub time_remaining: Option<i64>,
}

/// One banned subnet, the same for every release. A field that only some releases report
/// is `None` when the bound release does not report it.
#[derive(Debug)]
pub struct BannedEntry {
    pub address: String,
    /// Seconds since the epoch.
    pub ban_created: u64,
    /// Seconds since the epoch.
    pub banned_until: u64,
    pub ban_reason: Option<String>,
    /// Seconds.
    pub ban_duration: Option<i64>,
    /// Seconds.
    pub time_remaining: Option<i64>,
}

/// The banned subnets.
#[derive(Debug)]
pub struct ListBanned(pub Vec<BannedEntry>);

/// The release reports a ban reason.
pub open spec fn reports_ban_reason(v: ProtocolVersion) -> bool {
    v.release_spec() <= BAN_REASON_LAST_RELEASE
}

/// The release reports ban duration and time remaining.
pub open spec fn reports_ban_duration(v: ProtocolVersion) -> bool {
    v.release_spec() >= BAN_DURATION_RELEASE
}

/// The first problem found in a raw entry, checking the fields in declaration order, or
/// `None` when the release's promises all hold.
pub open spec fn banned_entry_error(v: ProtocolVersion, raw: RawBannedEntry) -> Option<
    NormalizeError,
> {
    if raw.address@.len() == 0 {
        Some(NormalizeError::InvalidField { field: Field::Address, reason: InvalidReason::Empty })
    } else if raw.ban_created < 0 {
        Some(
            NormalizeError::InvalidField {
                field: Field::BanCreated,
                reason: InvalidReason::NegativeTimestamp,
            },
        )
    } else if raw.banned_until < 0 {
        Some(
            NormalizeError::InvalidField {
                field: Field::BannedUntil,
                reason: InvalidReason::NegativeTimestamp,
            },
        )
    } else if reports_ban_reason(v) && raw.ban_reason is None {
        Some(NormalizeError::MissingField(Field::BanReason))
    } else if reports_ban_duration(v) && raw.ban_duration is None {
        Some(NormalizeError::MissingField(Field::BanDuration))
    } else if reports_ban_duration(v) && raw.time_remaining is None {
        Some(NormalizeError::MissingField(Field::TimeRemaining))
    } else {
        None
    }
}

/// `e` is the canonical form of `raw` under release `v`: the fields every release reports
/// are copied, and a version-dependent field is the reported value when the release
/// reports it and `None` otherwise.
pub open spec fn normalized_entry(v: ProtocolVersion, raw: RawBannedEntry, e: BannedEntry) -> bool {
    &&& e.address == raw.address
    &&& e.ban_created == raw.ban_created
    &&& e.banned_until == raw.banned_until
    &&& e.ban_reason == if reports_ban_reason(v) {
        raw.ban_reason
    } else {
        None
    }
    &&& e.ban_duration == if reports_ban_duration(v) {
        raw.ban_duration
    } else {
        None
    }
    &&& e.time_remaining == if reports_ban_duration(v) {
        raw.time_remaining
    } else {
        None
    }
}

/// A version-dependent field of a successfully normalized entry is present exactly when the
/// release reports it: ban duration and time remaining from their first release on, the ban
/// reason up to its last release. No value is ever made up for a release that lacks one.
pub proof fn lemma_version_dependent_fields(v: ProtocolVersion, raw: RawBannedEntry, e: BannedEntry)
    requires
        banned_entry_error(v, raw) is None,
        normalized_entry(v, raw, e),
    ensures
        e.ban_duration is Some <==> v.release_spec() >= BAN_DURATION_RELEASE,
        e.time_remaining is Some <==> v.release_spec() >= BAN_DURATION_RELEASE,
        e.ban_reason is Some <==> v.release_spec() <= BAN_REASON_LAST_RELEASE,
        v.release_spec() >= BAN_DURATION_RELEASE ==> e.ban_duration == raw.ban_duration
            && e.time_remaining == raw.time_remaining,
{
}

/// Projects one raw `listbanned` entry of release `v` onto the canonical entry.
pub fn normalize_banned_entry(v: ProtocolVersion, raw: &RawBannedEntry) -> (r: Result<
    BannedEntry,
    NormalizeError,
>)
    ensures
        banned_entry_error(v, *raw) matches Some(e) ==> r == Err::<BannedEntry, NormalizeError>(e),
        banned_entry_error(v, *raw) is None ==> (r matches Ok(e) && normalized_entry(v, *raw, e)),
{
    if raw.address.as_str().unicode_len() == 0 {
        return Err(
            NormalizeError::InvalidField { field: Field::Address, reason: InvalidReason::Empty },
        );
    }
    if raw.ban_created < 0 {
        return Err(
            NormalizeError::InvalidField {
                field: Field::BanCreated,
                reason: InvalidReason::NegativeTimestamp,
            },
        );
    }
    if raw.banned_until < 0 {
        return Err(
            NormalizeError::InvalidField {
                field: Field::BannedUntil,
                reason: InvalidReason::NegativeTimestamp,
            },
        );
    }
    let release = v.release();
    let ban_reason = if release <= BAN_REASON_LAST_RELEASE {
        match &raw.ban_reason {
            Some(s) => Some(s.clone()),
            None => {
                return Err(NormalizeError::MissingField(Field::BanReason));
            },
        }
    } else {
        None
    };
    let (ban_duration, time_remaining) = if release >= BAN_DURATION_RELEASE {
        match (raw.ban_duration, raw.time_remaining) {
            (Some(d), Some(t)) => (Some(d), Some(t)),
            (None, _) => {
                return Err(NormalizeError::MissingField(Field::BanDuration));
            },
            (Some(_), None) => {
                return Err(NormalizeError::MissingField(Field::TimeRemaining));
            },
        }
    } else {
        (None, None)
    };
    Ok(
        BannedEntry {
            address: raw.address.clone(),
            ban_created: raw.ban_created as u64,
            banned_until: raw.banned_until as u64,
            ban_reason,
            ban_duration,
            time_remaining,
        },
    )
}

/// Projects a raw `listbanned` reply of release `v` onto the canonical list, entry by
/// entry; the first entry that fails decides the error.
pub fn normalize_list_banned(v: ProtocolVersion, raw: &Vec<RawBannedEntry>) -> (r: Result<
    ListBanned,
    NormalizeError,
>)
    ensures
        r is Ok <==> forall|i: int| 0 <= i < raw.len() ==> (#[trigger] banned_entry_error(v, raw@[i])) is None,
        r matches Ok(l) ==> l.0.len() == raw.len() && forall|i: int|
            0 <= i < raw.len() ==> #[trigger] normalized_entry(v, raw@[i], l.0@[i]),
        r matches Err(e) ==> exists|i: int|
            0 <= i < raw.len() && banned_entry_error(v, raw@[i]) == Some(e) && forall|k: int|
                0 <= k < i ==> (#[trigger] banned_entry_error(v, raw@[k])) is None,
{
    let mut out: Vec<BannedEntry> = Vec::new();
    let mut i: usize = 0;
    while i < raw.len()
        invariant
            i <= raw.len(),
            out@.len() == i,
            forall|k: int| 0 <= k < i ==> (#[trigger] banned_entry_error(v, raw@[k])) is None,
            forall|k: int| 0 <= k < i ==> #[trigger] normalized_entry(v, raw@[k], out@[k]),
        decreases raw.len() - i,
    {
        match normalize_banned_entry(v, &raw[i]) {
            Ok(e) => out.push(e),
            Err(e) => {
                assert(banned_entry_error(v, raw@[i as int]) == Some(e));
                return Err(e);
            },
        }
        i = i + 1;
    }
    Ok(ListBanned(out))
}

/// Result of `getrpcinfo`, from the release that added it on.
#[derive(Debug)]
pub struct GetRpcInfo(pub Vec<ActiveCommand>);

/// Information about an active command, returned as part of `getrpcinfo`.
#[derive(Debug)]
pub struct ActiveCommand {
    /// The name of the RPC command.
    pub method: String,
    /// The running time in microseconds.
    pub duration: u64,
}

} // verus!
