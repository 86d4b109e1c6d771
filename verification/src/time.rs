//! Timestamps, decimal rendering and generated identifiers.

use vstd::prelude::*;

verus! {

/// Whether chrono accepts `(secs, nanos)` as a UTC instant
/// (`DateTime::from_timestamp(secs, nanos)` is `Some`).
pub uninterp spec fn chrono_accepts(secs: i64, nanos: u32) -> bool;

/// chrono's `format(pattern)` rendering of the UTC instant `(secs, nanos)`.
pub uninterp spec fn chrono_format(secs: i64, nanos: u32, pattern: Seq<char>) -> Seq<char>;

/// chrono's `to_rfc3339` rendering of the UTC instant `(secs, nanos)`.
pub uninterp spec fn chrono_rfc3339(secs: i64, nanos: u32) -> Seq<char>;

/// The largest magnitude of seconds any accepted instant can have (years stay within ±262143).
pub open spec fn secs_bound() -> int {
    9_000_000_000_000
}

/// A UTC instant: whole seconds since the Unix epoch and the sub-second nanoseconds.
#[derive(Debug, Clone, Copy, PartialEq, Eq)]
pub struct Timestamp {
    secs: i64,
    nanos: u32,
}

/// The strftime patterns this library renders timestamps with.
pub open spec fn known_pattern(p: Seq<char>) -> bool {
    p == "%H:%M:%S%.3f"@ || p == "%Y-%m-%d %H:%M:%S%.3f"@ || p == "%Y-%m-%dT%H:%M:%S%.3fZ"@
        || p == "%H:%M:%S"@ || p == "%Y-%m-%d %H:%M:%S"@
}

impl Timestamp {
    #[verifier::type_invariant]
    spec fn well_formed(self) -> bool {
        &&& chrono_accepts(self.secs, self.nanos)
        &&& -secs_bound() < self.secs < secs_bound()
        &&& self.nanos < 2_000_000_000
    }

    /// Seconds since the epoch.
    pub closed spec fn spec_secs(self) -> i64 {
        self.secs
    }

    /// Sub-second nanoseconds.
    pub closed spec fn spec_nanos(self) -> u32 {
        self.nanos
    }

    /// Milliseconds since the epoch, as chrono's `timestamp_millis` computes them.
    pub open spec fn spec_millis(self) -> int {
        self.spec_secs() * 1000 + self.spec_nanos() / 1_000_000
    }

    pub fn secs(&self) -> (r: i64)
        ensures
            r == self.spec_secs(),
    {
        self.secs
    }

    pub fn nanos(&self) -> (r: u32)
        ensures
            r == self.spec_nanos(),
    {
        self.nanos
    }

    /// Milliseconds since the epoch.
    pub fn timestamp_millis(&self) -> (r: i64)
        ensures
            r == self.spec_millis(),
    {
        proof {
            use_type_invariant(self);
        }
        self.secs * 1000 + (self.nanos / 1_000_000) as i64
    }

    /// The instant `(secs, nanos)`, where chrono accepts it.
    pub fn from_parts(secs: i64, nanos: u32) -> (r: Option<Timestamp>)
        ensures
            r is Some <==> chrono_accepts(secs, nanos),
            r matches Some(t) ==> t.spec_secs() == secs && t.spec_nanos() == nanos,
    {
        timestamp_from_parts(secs, nanos)
    }

    /// The current instant.
    pub fn now() -> (r: Timestamp) {
        utc_now()
    }

    /// This instant rendered with one of the library's strftime patterns.
    pub fn format(&self, pattern: &str) -> (r: String)
        requires
            known_pattern(pattern@),
        ensures
            r@ == chrono_format(self.spec_secs(), self.spec_nanos(), pattern@),
    {
        proof {
            use_type_invariant(self);
        }
        format_utc(self.secs, self.nanos, pattern)
    }

    /// This instant in RFC 3339 form.
    pub fn to_rfc3339(&self) -> (r: String)
        ensures
            r@ == chrono_rfc3339(self.spec_secs(), self.spec_nanos()),
    {
        proof {
            use_type_invariant(self);
        }
        rfc3339_utc(self.secs, self.nanos)
    }
}

/// Calls chrono's `Utc::now()` and takes its seconds and sub-second nanoseconds.
/// The contract says only that chrono accepts the pair back and that the year
/// lies in chrono's supported range; which instant it is depends on the clock.
#[verifier::external_body]
fn utc_now() -> (r: Timestamp)
    ensures
        chrono_accepts(r.secs, r.nanos),
        -secs_bound() < r.secs < secs_bound(),
        r.nanos < 2_000_000_000,
{
    let now = chrono::Utc::now();
    Timestamp { secs: now.timestamp(), nanos: now.timestamp_subsec_nanos() }
}

/// Calls chrono's `DateTime::from_timestamp(secs, nanos)`: `Some` exactly when
/// chrono accepts the pair; an accepted instant lies in chrono's year range and
/// has fewer than two billion nanoseconds.
#[verifier::external_body]
fn timestamp_from_parts(secs: i64, nanos: u32) -> (r: Option<Timestamp>)
    ensures
        r is Some <==> chrono_accepts(secs, nanos),
        r matches Some(t) ==> t.secs == secs && t.nanos == nanos && -secs_bound() < secs
            < secs_bound() && nanos < 2_000_000_000,
{
    chrono::DateTime::from_timestamp(secs, nanos).map(|_| Timestamp { secs, nanos })
}

/// Calls chrono's `DateTime::format(pattern)` on the accepted instant and renders it.
/// The result is named: it depends on the instant and the pattern only.
#[verifier::external_body]
fn format_utc(secs: i64, nanos: u32, pattern: &str) -> (r: String)
    requires
        chrono_accepts(secs, nanos),
        known_pattern(pattern@),
    ensures
        r@ == chrono_format(secs, nanos, pattern@),
{
    chrono::DateTime::from_timestamp(secs, nanos).unwrap().format(pattern).to_string()
}

/// Calls chrono's `DateTime::to_rfc3339` on the accepted instant.
#[verifier::external_body]
fn rfc3339_utc(secs: i64, nanos: u32) -> (r: String)
    requires
        chrono_accepts(secs, nanos),
    ensures
        r@ == chrono_rfc3339(secs, nanos),
{
    chrono::DateTime::from_timestamp(secs, nanos).unwrap().to_rfc3339()
}

/// Calls uuid's `Uuid::new_v4()` and renders it in hyphenated form, which
/// uuid documents as 36 characters long. The value itself is random.
#[verifier::external_body]
pub(crate) fn new_uuid_v4() -> (r: String)
    ensures
        r@.len() == 36,
{
    uuid::Uuid::new_v4().to_string()
}

/// The decimal digit character for `d < 10`.
pub open spec fn digit_char(d: nat) -> char {
    if d == 0 { '0' } else if d == 1 { '1' } else if d == 2 { '2' } else if d == 3 { '3' }
    else if d == 4 { '4' } else if d == 5 { '5' } else if d == 6 { '6' } else if d == 7 { '7' }
    else if d == 8 { '8' } else { '9' }
}

/// The decimal digits of a natural number, most significant first.
pub open spec fn nat_digits(n: nat) -> Seq<char>
    decreases n,
{
    if n < 10 {
        seq![digit_char(n)]
    } else {
        nat_digits(n / 10) + seq![digit_char(n % 10)]
    }
}

/// The decimal form of an integer, with a leading '-' when negative.
pub open spec fn int_decimal(n: int) -> Seq<char> {
    if n < 0 {
        seq!['-'] + nat_digits((-n) as nat)
    } else {
        nat_digits(n as nat)
    }
}

fn digit_str(d: u64) -> (r: &'static str)
    requires
        d < 10,
    ensures
        r@ == seq![digit_char(d as nat)],
{
    proof {
        reveal_strlit("0");
        reveal_strlit("1");
        reveal_strlit("2");
        reveal_strlit("3");
        reveal_strlit("4");
        reveal_strlit("5");
        reveal_strlit("6");
        reveal_strlit("7");
        reveal_strlit("8");
        reveal_strlit("9");
    }
    let r = if d == 0 { "0" } else if d == 1 { "1" } else if d == 2 { "2" } else if d == 3 {
        "3"
    } else if d == 4 { "4" } else if d == 5 { "5" } else if d == 6 { "6" } else if d == 7 {
        "7"
    } else if d == 8 { "8" } else { "9" };
    assert(r@ =~= seq![digit_char(d as nat)]);
    r
}

/// Appends the decimal digits of `n` to `out`.
pub(crate) fn push_digits(n: u64, out: &mut String)
    ensures
        final(out)@ == old(out)@ + nat_digits(n as nat),
    decreases n,
{
    if n >= 10 {
        push_digits(n / 10, out);
    }
    out.append(digit_str(n % 10));
    proof {
        if n >= 10 {
            assert(old(out)@ + nat_digits((n / 10) as nat) + seq![digit_char((n % 10) as nat)]
                =~= old(out)@ + nat_digits(n as nat));
        } else {
            assert(old(out)@ + seq![digit_char((n % 10) as nat)] =~= old(out)@ + nat_digits(
                n as nat,
            ));
        }
    }
}

/// Appends the decimal form of `n` to `out`.
pub fn push_decimal(n: i64, out: &mut String)
    ensures
        final(out)@ == old(out)@ + int_decimal(n as int),
{
    if n < 0 {
        out.append("-");
        let m: u64 = if n == i64::MIN {
            9_223_372_036_854_775_808u64
        } else {
            (-n) as u64
        };
        push_digits(m, out);
        proof {
            reveal_strlit("-");
            assert(old(out)@ + "-"@ + nat_digits(m as nat) =~= old(out)@ + int_decimal(n as int));
        }
    } else {
        push_digits(n as u64, out);
    }
}

/// The decimal form of `n`.
pub fn decimal_string(n: i64) -> (r: String)
    ensures
        r@ == int_decimal(n as int),
{
    let mut r = String::new();
    push_decimal(n, &mut r);
    assert(r@ =~= int_decimal(n as int));
    r
}

/// The identifier `prefix-<millis>-<uuid>` that events, blocks and packages carry.
pub fn generated_id(prefix: &str, at: &Timestamp) -> (r: String)
    ensures
        exists|u: Seq<char>|
            u.len() == 36 && r@ == prefix@ + "-"@ + int_decimal(at.spec_millis()) + "-"@ + u,
{
    let mut r = String::from_str(prefix);
    r.append("-");
    let ms = at.timestamp_millis();
    push_decimal(ms, &mut r);
    r.append("-");
    let u = new_uuid_v4();
    r.append(u.as_str());
    assert(r@ =~= prefix@ + "-"@ + int_decimal(at.spec_millis()) + "-"@ + u@);
    r
}

} // verus!
