//! Unique, time-ordered entity identifiers.
//!
//! Every entity the platform knows of (guild, role, user, session) is
//! identified by a snowflake: a 64-bit integer whose high 42 bits carry the
//! milliseconds since the platform epoch and whose low 22 bits are free for
//! worker and sequence numbers (this client leaves them zero).

use vstd::prelude::*;

verus! {

/// Milliseconds between the Unix epoch and the platform epoch.
pub const SNOWFLAKE_EPOCH_MS: u64 = 1420070400000;

/// A 64-bit, time-ordered entity identifier.
#[derive(Clone, Copy, Debug, PartialEq, Eq, Hash, Structural)]
pub struct Snowflake(pub u64);

/// The identifier minted for a clock reading of `ms` milliseconds since the
/// Unix epoch: the offset from the platform epoch, truncated to 42 bits,
/// shifted into the high bits. Readings before the epoch yield zero.
pub open spec fn snowflake_of_millis(ms: int) -> u64 {
    if ms <= SNOWFLAKE_EPOCH_MS {
        0u64
    } else {
        (((ms - SNOWFLAKE_EPOCH_MS) % 0x400_0000_0000) * 0x40_0000) as u64
    }
}

/// The character for one decimal digit.
pub open spec fn decimal_digit_char(d: nat) -> char {
    ((d + 48) as u8) as char
}

/// The decimal digits of a number, most significant first, with no sign and
/// no leading zeroes (zero itself is the single digit `0`).
pub open spec fn decimal_digits(n: nat) -> Seq<char>
    decreases n,
{
    if n < 10 {
        seq![decimal_digit_char(n)]
    } else {
        decimal_digits(n / 10).push(decimal_digit_char(n % 10))
    }
}

/// A decimal rendering is never empty.
pub proof fn lemma_decimal_digits_nonempty(n: nat)
    ensures
        decimal_digits(n).len() >= 1,
    decreases n,
{
    if n >= 10 {
        lemma_decimal_digits_nonempty(n / 10);
    }
}

/// Relies on `u64`'s `Display` implementation, through `ToString`: the
/// number's decimal digits, without sign or leading zeroes.
#[verifier::external_body]
fn u64_to_decimal_string(n: u64) -> (r: String)
    ensures
        r@ == decimal_digits(n as nat),
{
    n.to_string()
}

/// Relies on `chrono::Utc::now` and `chrono::DateTime::timestamp_millis`:
/// the system clock, as milliseconds since the Unix epoch. Nothing can be
/// promised of a clock reading. `Utc::now` itself aborts on a host whose
/// clock is set before the Unix epoch; this library assumes it is not.
#[verifier::external_body]
fn unix_now_millis() -> i64 {
    chrono::Utc::now().timestamp_millis()
}

impl Snowflake {
    /// The identifier for a given clock reading.
    pub fn from_unix_millis(ms: i64) -> (r: Snowflake)
        ensures
            r.0 == snowflake_of_millis(ms as int),
    {
        if ms <= SNOWFLAKE_EPOCH_MS as i64 {
            Snowflake(0)
        } else {
            let delta: u64 = (ms - SNOWFLAKE_EPOCH_MS as i64) as u64;
            let truncated: u64 = delta % 0x400_0000_0000;
            Snowflake(truncated * 0x40_0000)
        }
    }

    /// Mints a fresh identifier from the system clock. The clock is
    /// outside the library's control, so all that holds of every outcome
    /// is the identifier's shape: it is the one minted for some clock
    /// reading.
    pub fn generate() -> (r: Snowflake)
        ensures
            exists|ms: int| r.0 == snowflake_of_millis(ms),
    {
        let now = unix_now_millis();
        let r = Snowflake::from_unix_millis(now);
        proof {
            assert(r.0 == snowflake_of_millis(now as int));
        }
        r
    }

    /// The identifier as decimal text, the way it travels in URLs and
    /// payloads.
    pub fn to_string(&self) -> (r: String)
        ensures
            r@ == decimal_digits(self.0 as nat),
            r@.len() >= 1,
    {
        proof {
            lemma_decimal_digits_nonempty(self.0 as nat);
        }
        u64_to_decimal_string(self.0)
    }
}

} // verus!
