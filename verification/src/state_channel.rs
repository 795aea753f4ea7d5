//! The launcher state channel: a one-shot record that the managed
//! application leaves behind before it exits of its own accord, and that the
//! supervisor reads and clears after every child exit.
//!
//! The record is a small JSON-like text holding a reason tag and a `"ts"`
//! field with the time of writing in seconds since the epoch.  A record is a
//! stop signal only if its tag is known and its time stamp lies within the
//! last `LAUNCHER_STATE_TTL_SEC` seconds; anything else is noise.  Whatever
//! the record held, reading it clears it.

use vstd::prelude::*;
use vstd::slice::slice_subrange;
use vstd::string::StringSliceAdditionalSpecFns;
use vstd::utf8::encode_utf8;
use crate::text::{
    ByteClass, DOT, all_digits, clamp_u64, contains, decimal_digits, digits_to_u64, digits_value,
    find, find_from, first_match, first_match_from, includes, is_space, lemma_decimal_round_trip,
    lemma_first_match_from, lemma_run_end, lemma_run_end_at, matches_at, run_end, scan,
};

verus! {

/// How long a record stays valid after it was written, in seconds.
pub const LAUNCHER_STATE_TTL_SEC: u64 = 300;

/// Why the managed application chose to exit.
#[derive(Clone, Copy, Debug, PartialEq, Eq, Structural)]
pub enum ExitReason {
    /// The user closed the application.
    UserExit,
    /// The application exited so that an update can replace it.
    UpdateInProgress,
}

impl ExitReason {
    /// The tag that stands for the reason in a record.
    pub open spec fn tag(self) -> Seq<u8> {
        match self {
            ExitReason::UserExit => "user_exit".spec_bytes(),
            ExitReason::UpdateInProgress => "update_in_progress".spec_bytes(),
        }
    }

    /// The tag that stands for the reason in a record.
    pub fn as_str(&self) -> (r: &'static str)
        ensures
            r.spec_bytes() == self.tag(),
    {
        match self {
            ExitReason::UserExit => "user_exit",
            ExitReason::UpdateInProgress => "update_in_progress",
        }
    }
}

/// Why a record is not taken as a stop signal.
#[derive(Clone, Copy, Debug, PartialEq, Eq, Structural)]
pub enum Rejection {
    /// The file was there but could not be read.
    Unreadable,
    /// The record names no known reason.
    UnknownReason,
    /// The record has no `"ts"` field, or the field holds no decimal numeral.
    InvalidTimestamp,
    /// The time stamp lies after the present.
    FutureTimestamp,
    /// The time stamp is older than the time to live.
    Stale,
}

/// What a record amounts to.
#[derive(Clone, Copy, Debug, PartialEq, Eq, Structural)]
pub enum StateVerdict {
    /// The record is a stop signal with this reason.
    Accepted(ExitReason),
    /// The record is noise.
    Rejected(Rejection),
}

/// The reason that a record names: `update_in_progress` where that tag occurs
/// anywhere in it, else `user_exit` where that one does.
pub open spec fn reason_in(content: Seq<u8>) -> Option<ExitReason> {
    if contains(content, ExitReason::UpdateInProgress.tag()) {
        Some(ExitReason::UpdateInProgress)
    } else if contains(content, ExitReason::UserExit.tag()) {
        Some(ExitReason::UserExit)
    } else {
        None
    }
}

/// The whole seconds that a decimal numeral writes, held at `u64::MAX` where
/// they do not fit.  A numeral is a run of digits, optionally followed by a
/// decimal point and another run of digits; one of the two runs may be empty,
/// not both.  The fraction is dropped.
pub open spec fn numeral_floor(token: Seq<u8>) -> Option<u64> {
    let whole = run_end(token, ByteClass::Digit, 0);
    if whole == token.len() {
        if whole == 0 {
            None
        } else {
            Some(clamp_u64(digits_value(token)))
        }
    } else if token[whole] != DOT {
        None
    } else if run_end(token, ByteClass::Digit, whole + 1) != token.len() {
        None
    } else if token.len() == 1 {
        None
    } else {
        Some(clamp_u64(digits_value(token.take(whole))))
    }
}

/// The key of the time stamp field, quotes included.
pub open spec fn ts_key() -> Seq<u8> {
    "\"ts\"".spec_bytes()
}

/// The separator between a key and its value.
pub open spec fn colon() -> Seq<u8> {
    ":".spec_bytes()
}

/// The time stamp that a record holds.  It is read from behind the first
/// colon that follows the first occurrence of the key `"ts"`: white space is
/// skipped, and the longest run of digits and decimal points from there on is
/// taken as a numeral.
pub open spec fn timestamp_in(content: Seq<u8>) -> Option<u64> {
    match first_match(content, ts_key()) {
        None => None,
        Some(key_at) => match first_match_from(content, colon(), key_at + ts_key().len()) {
            None => None,
            Some(colon_at) => {
                let start = run_end(content, ByteClass::Space, colon_at + colon().len());
                let end = run_end(content, ByteClass::Numeral, start);
                numeral_floor(content.subrange(start, end))
            },
        },
    }
}

/// Why a time stamp `ts` is refused at time `now`, if it is: a record is
/// fresh from the second it was written until `LAUNCHER_STATE_TTL_SEC` seconds
/// later, both ends included.
pub open spec fn timestamp_fault(ts: u64, now: u64) -> Option<Rejection> {
    if ts > now {
        Some(Rejection::FutureTimestamp)
    } else if now - ts > LAUNCHER_STATE_TTL_SEC {
        Some(Rejection::Stale)
    } else {
        None
    }
}

/// What the record `content` amounts to at time `now`.  The tag is looked at
/// first, then the time stamp's form, then its age.
pub open spec fn verdict_on(content: Seq<u8>, now: u64) -> StateVerdict {
    match reason_in(content) {
        None => StateVerdict::Rejected(Rejection::UnknownReason),
        Some(reason) => match timestamp_in(content) {
            None => StateVerdict::Rejected(Rejection::InvalidTimestamp),
            Some(ts) => match timestamp_fault(ts, now) {
                Some(fault) => StateVerdict::Rejected(fault),
                None => StateVerdict::Accepted(reason),
            },
        },
    }
}

/// The reason that the record `content` names, if any.
pub fn detect_reason(content: &str) -> (r: Option<ExitReason>)
    ensures
        r == reason_in(content.spec_bytes()),
{
    let bytes = content.as_bytes();
    if includes(bytes, ExitReason::UpdateInProgress.as_str().as_bytes()) {
        Some(ExitReason::UpdateInProgress)
    } else if includes(bytes, ExitReason::UserExit.as_str().as_bytes()) {
        Some(ExitReason::UserExit)
    } else {
        None
    }
}

/// The whole seconds that the numeral `token` writes.
pub fn parse_numeral(token: &[u8]) -> (r: Option<u64>)
    ensures
        r == numeral_floor(token@),
{
    let whole: usize = scan(token, ByteClass::Digit, 0);
    proof {
        lemma_run_end(token@, ByteClass::Digit, 0);
    }
    if whole == token.len() {
        if whole == 0 {
            None
        } else {
            digits_to_u64(token)
        }
    } else if token[whole] != DOT {
        None
    } else if scan(token, ByteClass::Digit, whole + 1) != token.len() {
        None
    } else if token.len() == 1 {
        None
    } else {
        let digits = slice_subrange(token, 0, whole);
        digits_to_u64(digits)
    }
}

/// The time stamp that the record `content` holds, in whole seconds since the
/// epoch.  `None` where the record has no `"ts"` key, no colon behind it, or
/// no decimal numeral behind the colon; a sign in front of the number makes
/// it no numeral.
pub fn parse_launcher_state_ts(content: &str) -> (r: Option<u64>)
    ensures
        r == timestamp_in(content.spec_bytes()),
{
    let bytes = content.as_bytes();
    let key = "\"ts\"".as_bytes();
    let sep = ":".as_bytes();
    proof {
        lemma_first_match_from(bytes@, key@, 0);
    }
    let key_at: usize = match find(bytes, key) {
        None => { return None; },
        Some(i) => i,
    };
    proof {
        assert(bytes@.len() == bytes.len());
        lemma_first_match_from(bytes@, sep@, key_at + key@.len());
    }
    let colon_at: usize = match find_from(bytes, sep, key_at + key.len()) {
        None => { return None; },
        Some(i) => i,
    };
    let start: usize = scan(bytes, ByteClass::Space, colon_at + sep.len());
    let end: usize = scan(bytes, ByteClass::Numeral, start);
    parse_numeral(slice_subrange(bytes, start, end))
}

/// Why the time stamp `ts` is refused at time `now_secs`, if it is.
pub fn check_timestamp(ts: u64, now_secs: u64) -> (r: Option<Rejection>)
    ensures
        r == timestamp_fault(ts, now_secs),
        r is None <==> now_secs - LAUNCHER_STATE_TTL_SEC <= ts <= now_secs,
{
    if ts > now_secs {
        Some(Rejection::FutureTimestamp)
    } else if now_secs - ts > LAUNCHER_STATE_TTL_SEC {
        Some(Rejection::Stale)
    } else {
        None
    }
}

/// What the record `content` amounts to at time `now_secs`.
pub fn evaluate_launcher_state(content: &str, now_secs: u64) -> (r: StateVerdict)
    ensures
        r == verdict_on(content.spec_bytes(), now_secs),
{
    let reason = match detect_reason(content) {
        None => { return StateVerdict::Rejected(Rejection::UnknownReason); },
        Some(reason) => reason,
    };
    let ts: u64 = match parse_launcher_state_ts(content) {
        None => { return StateVerdict::Rejected(Rejection::InvalidTimestamp); },
        Some(ts) => ts,
    };
    match check_timestamp(ts, now_secs) {
        Some(fault) => StateVerdict::Rejected(fault),
        None => StateVerdict::Accepted(reason),
    }
}

/// The state file as the supervisor finds it after a child has exited.
#[derive(Debug, PartialEq, Eq)]
pub enum StateFile {
    /// There is no file.
    Absent,
    /// There is a file, and reading it failed.
    Unreadable,
    /// There is a file, and this is its text.
    Present(String),
}

/// What one look at the state file gave.
#[derive(Clone, Copy, Debug, PartialEq, Eq, Structural)]
pub struct StateReading {
    /// The stop signal, where the file held a valid record.
    pub reason: Option<ExitReason>,
    /// Why a file that was there gave no stop signal.
    pub diagnostic: Option<Rejection>,
}

/// What a look at `file` at time `now` gives.
pub open spec fn reading_of(file: StateFile, now: u64) -> StateReading {
    match file {
        StateFile::Absent => StateReading { reason: None, diagnostic: None },
        StateFile::Unreadable => StateReading {
            reason: None,
            diagnostic: Some(Rejection::Unreadable),
        },
        StateFile::Present(text) => match verdict_on(encode_utf8(text@), now) {
            StateVerdict::Accepted(reason) => StateReading {
                reason: Some(reason),
                diagnostic: None,
            },
            StateVerdict::Rejected(fault) => StateReading {
                reason: None,
                diagnostic: Some(fault),
            },
        },
    }
}

/// Reads the state file and clears it.  Whatever the file held, valid or not,
/// readable or not, it is gone afterwards, so that no record can be seen
/// twice.  Only a valid record gives a reason.
pub fn read_and_clear_launcher_state(file: &mut StateFile, now_secs: u64) -> (r: StateReading)
    ensures
        *final(file) == StateFile::Absent,
        r == reading_of(*old(file), now_secs),
        r.reason is Some ==> r.diagnostic is None,
        r.diagnostic is Some <==> !(*old(file) is Absent) && r.reason is None,
{
    let reading = match file {
        StateFile::Absent => StateReading { reason: None, diagnostic: None },
        StateFile::Unreadable => StateReading {
            reason: None,
            diagnostic: Some(Rejection::Unreadable),
        },
        StateFile::Present(text) => match evaluate_launcher_state(text.as_str(), now_secs) {
            StateVerdict::Accepted(reason) => StateReading {
                reason: Some(reason),
                diagnostic: None,
            },
            StateVerdict::Rejected(fault) => StateReading {
                reason: None,
                diagnostic: Some(fault),
            },
        },
    };
    *file = StateFile::Absent;
    reading
}

/// The ends of the window in which a record is fresh: a record written
/// `LAUNCHER_STATE_TTL_SEC` seconds ago is still fresh, one written a second
/// earlier is stale, and one stamped a second ahead of the clock lies in the
/// future.
pub proof fn lemma_ttl_boundary(now: u64)
    ensures
        forall|ts: u64|
            (#[trigger] timestamp_fault(ts, now)) is None <==> now - LAUNCHER_STATE_TTL_SEC <= ts
                <= now,
        now >= 300 ==> timestamp_fault((now - 300) as u64, now) is None,
        now >= 301 ==> timestamp_fault((now - 301) as u64, now) == Some(Rejection::Stale),
        now < u64::MAX ==> timestamp_fault((now + 1) as u64, now) == Some(
            Rejection::FutureTimestamp,
        ),
{
}

/// A record is a stop signal exactly when it names a known reason and holds
/// a time stamp no older than the time to live and not ahead of the clock.
pub proof fn lemma_accepted_iff_fresh(content: Seq<u8>, now: u64, reason: ExitReason)
    ensures
        verdict_on(content, now) == StateVerdict::Accepted(reason) <==> {
            &&& reason_in(content) == Some(reason)
            &&& timestamp_in(content) matches Some(ts)
            &&& now - LAUNCHER_STATE_TTL_SEC <= ts <= now
        },
{
}

/// Whether `fraction` is what a numeral may hold behind its whole part:
/// nothing, or a decimal point and digits.
pub open spec fn is_fraction(fraction: Seq<u8>) -> bool {
    fraction.len() == 0 || (fraction[0] == DOT && all_digits(fraction.skip(1)))
}

/// What is written is what is read.  Take a record in which the first `"ts"`
/// key stands behind `before` and is followed by a colon, by white space
/// `gap`, by the number `seconds` in decimal digits, by a `fraction`, and by
/// a rest `after` that does not go on with a digit or a point.  Its time stamp
/// is `seconds`: the fraction is dropped.
pub proof fn lemma_written_timestamp_is_read(
    before: Seq<u8>,
    gap: Seq<u8>,
    seconds: u64,
    fraction: Seq<u8>,
    after: Seq<u8>,
)
    requires
        first_match(
            before + ts_key() + colon() + gap + decimal_digits(seconds as nat) + fraction + after,
            ts_key(),
        ) == Some(before.len() as int),
        forall|j: int| 0 <= j < gap.len() ==> is_space(gap[j]),
        is_fraction(fraction),
        after.len() > 0 ==> !ByteClass::Numeral.holds(after[0]),
    ensures
        timestamp_in(
            before + ts_key() + colon() + gap + decimal_digits(seconds as nat) + fraction + after,
        ) == Some(seconds),
{
    let digits = decimal_digits(seconds as nat);
    let token = digits + fraction;
    let content = before + ts_key() + colon() + gap + digits + fraction + after;
    lemma_key_and_colon();
    lemma_decimal_round_trip(seconds as nat);
    let key_end: int = (before.len() + ts_key().len()) as int;
    let start: int = key_end + 1 + gap.len();
    let end: int = start + token.len();
    let whole: int = digits.len() as int;
    // The colon stands right behind the key.
    assert(content.subrange(key_end, key_end + 1) =~= colon());
    assert(matches_at(content, colon(), key_end));
    // The gap is white space, and the token is digits and points.
    assert forall|j: int| key_end + 1 <= j < start implies ByteClass::Space.holds(content[j]) by {
        assert(content[j] == gap[j - key_end - 1]);
    }
    assert forall|j: int| start <= j < end implies ByteClass::Numeral.holds(content[j]) by {
        assert(content[j] == token[j - start]);
        if j - start > whole {
            assert(token[j - start] == fraction.skip(1)[j - start - whole - 1]);
        }
    }
    lemma_run_end_at(content, ByteClass::Space, key_end + 1, start);
    lemma_run_end_at(content, ByteClass::Numeral, start, end);
    assert(content.subrange(start, end) =~= token);
    // The token is a numeral whose whole part is `digits`.
    lemma_run_end_at(token, ByteClass::Digit, 0, whole);
    assert(token.take(whole) =~= digits);
    if fraction.len() > 0 {
        assert forall|j: int| whole + 1 <= j < token.len() implies ByteClass::Digit.holds(
            token[j],
        ) by {
            assert(token[j] == fraction.skip(1)[j - whole - 1]);
        }
        lemma_run_end_at(token, ByteClass::Digit, whole + 1, token.len() as int);
    } else {
        assert(token =~= digits);
    }
}

/// The key is four bytes long and the colon is one byte, which is no white
/// space and no part of a numeral.
proof fn lemma_key_and_colon()
    ensures
        ts_key().len() == 4,
        colon().len() == 1,
        colon()[0] == 58,
{
    reveal_strlit("\"ts\"");
    reveal_strlit(":");
    vstd::string::is_ascii_spec_bytes("\"ts\"");
    vstd::string::is_ascii_spec_bytes(":");
}

} // verus!
