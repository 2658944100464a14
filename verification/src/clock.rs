//! Instants in UTC and the clock that reads them.
use vstd::prelude::*;

verus! {

/// The earliest Unix second that the calendar of the time library can hold
/// (the first second of the year -262143).
pub const MIN_UNIX_SECONDS: i64 = -8_334_601_228_800i64;

/// The latest Unix second that the calendar of the time library can hold
/// (the last second of the year 262142).
pub const MAX_UNIX_SECONDS: i64 = 8_210_266_876_799i64;

/// An instant: whole seconds since the Unix epoch and the nanoseconds past them.
pub open spec fn valid_instant(secs: int, nanos: int) -> bool {
    &&& MIN_UNIX_SECONDS <= secs <= MAX_UNIX_SECONDS
    &&& 0 <= nanos < 1_000_000_000
}

/// Whole seconds from `earlier` to `later`, rounded toward zero.
pub open spec fn whole_seconds_between(
    later_secs: int,
    later_nanos: int,
    earlier_secs: int,
    earlier_nanos: int,
) -> int {
    let total = (later_secs - earlier_secs) * 1_000_000_000 + (later_nanos - earlier_nanos);
    if total >= 0 {
        total / 1_000_000_000
    } else {
        -((-total) / 1_000_000_000)
    }
}

/// The instant (`a_secs`, `a_nanos`) is not after (`b_secs`, `b_nanos`).
pub open spec fn instant_not_after(a_secs: int, a_nanos: int, b_secs: int, b_nanos: int) -> bool {
    a_secs < b_secs || (a_secs == b_secs && a_nanos <= b_nanos)
}

/// What the time library renders for the instant with the given strftime
/// pattern.
pub uninterp spec fn formatted_instant(secs: i64, nanos: u32, pattern: Seq<char>) -> Seq<char>;

/// The strftime patterns that the booth renders instants with.
pub open spec fn known_pattern(pattern: Seq<char>) -> bool {
    pattern == "%Y-%m-%d %H:%M:%S UTC"@ || pattern == "%Y%m%d-%H%M%S"@
}

/// An instant in UTC that the time library can represent.
#[derive(Clone, Copy)]
pub struct Timestamp {
    secs: i64,
    nanos: u32,
}

impl View for Timestamp {
    type V = (i64, u32);

    closed spec fn view(&self) -> (i64, u32) {
        (self.secs, self.nanos)
    }
}

impl Timestamp {
    #[verifier::type_invariant]
    spec fn inv(self) -> bool {
        valid_instant(self.secs as int, self.nanos as int)
    }

    /// The instant `secs` seconds and `nanos` nanoseconds after the epoch,
    /// when it lies in the representable range.
    pub fn from_unix(secs: i64, nanos: u32) -> (r: Option<Timestamp>)
        ensures
            r is Some <==> valid_instant(secs as int, nanos as int),
            r matches Some(t) ==> t@ == (secs, nanos),
    {
        if MIN_UNIX_SECONDS <= secs && secs <= MAX_UNIX_SECONDS && nanos < 1_000_000_000 {
            Some(Timestamp { secs, nanos })
        } else {
            None
        }
    }

    /// Whole seconds since the epoch.
    pub fn unix_seconds(&self) -> (r: i64)
        ensures
            r == self@.0,
            valid_instant(self@.0 as int, self@.1 as int),
    {
        proof {
            use_type_invariant(self);
        }
        self.secs
    }

    /// Nanoseconds past the whole second.
    pub fn subsec_nanos(&self) -> (r: u32)
        ensures
            r == self@.1,
            valid_instant(self@.0 as int, self@.1 as int),
    {
        proof {
            use_type_invariant(self);
        }
        self.nanos
    }

    /// Whole seconds from `earlier` to `self`, rounded toward zero.
    pub fn seconds_since(&self, earlier: &Timestamp) -> (r: i64)
        ensures
            r as int == whole_seconds_between(
                self@.0 as int,
                self@.1 as int,
                earlier@.0 as int,
                earlier@.1 as int,
            ),
    {
        proof {
            use_type_invariant(self);
            use_type_invariant(earlier);
        }
        seconds_between(self.secs, self.nanos, earlier.secs, earlier.nanos)
    }

    /// The instant rendered with one of the booth's strftime patterns.
    pub fn format(&self, pattern: &str) -> (r: String)
        requires
            known_pattern(pattern@),
        ensures
            r@ == formatted_instant(self@.0, self@.1, pattern@),
    {
        proof {
            use_type_invariant(self);
        }
        format_instant(self.secs, self.nanos, pattern)
    }

    /// The current instant, as the system clock reads it; `None` when the
    /// clock reads before the epoch or beyond the representable range.
    pub fn now() -> (r: Option<Timestamp>)
        ensures
            r matches Some(t) ==> t@.0 >= 0 && valid_instant(t@.0 as int, t@.1 as int),
    {
        match system_clock_reading() {
            Some((secs, nanos)) => {
                if secs <= MAX_UNIX_SECONDS as u64 {
                    Timestamp::from_unix(secs as i64, nanos)
                } else {
                    None
                }
            },
            None => None,
        }
    }
}

/// `DateTime::signed_duration_since` followed by `TimeDelta::num_seconds`.
/// For instants without a leap second (nanoseconds below one billion) the
/// source computes the exact difference in nanoseconds and `num_seconds`
/// rounds it toward zero.
#[verifier::external_body]
fn seconds_between(later_secs: i64, later_nanos: u32, earlier_secs: i64, earlier_nanos: u32) -> (r:
    i64)
    requires
        valid_instant(later_secs as int, later_nanos as int),
        valid_instant(earlier_secs as int, earlier_nanos as int),
    ensures
        r as int == whole_seconds_between(
            later_secs as int,
            later_nanos as int,
            earlier_secs as int,
            earlier_nanos as int,
        ),
{
    let later = chrono::DateTime::from_timestamp(later_secs, later_nanos).unwrap();
    let earlier = chrono::DateTime::from_timestamp(earlier_secs, earlier_nanos).unwrap();
    later.signed_duration_since(earlier).num_seconds()
}

/// `DateTime::format` rendered with `to_string`: the instant in UTC written
/// with a strftime pattern. Only the name of the result is stated.
#[verifier::external_body]
fn format_instant(secs: i64, nanos: u32, pattern: &str) -> (r: String)
    requires
        valid_instant(secs as int, nanos as int),
        known_pattern(pattern@),
    ensures
        r@ == formatted_instant(secs, nanos, pattern@),
{
    chrono::DateTime::from_timestamp(secs, nanos).unwrap().format(pattern).to_string()
}

/// The Unix second that the system clock reads; `None` when the clock reads
/// before the epoch.
pub fn unix_seconds_now() -> (r: Option<u64>) {
    match system_clock_reading() {
        Some((secs, _)) => Some(secs),
        None => None,
    }
}

/// `SystemTime::now().duration_since(UNIX_EPOCH)`, as whole seconds and the
/// nanoseconds past them (`Duration::subsec_nanos`, always below one
/// billion), or `None` when the system clock reads before the epoch. What
/// the clock reads is not stated.
#[verifier::external_body]
fn system_clock_reading() -> (r: Option<(u64, u32)>)
    ensures
        r matches Some((_, nanos)) ==> nanos < 1_000_000_000,
{
    match std::time::SystemTime::now().duration_since(std::time::UNIX_EPOCH) {
        Ok(d) => Some((d.as_secs(), d.subsec_nanos())),
        Err(_) => None,
    }
}

} // verus!
