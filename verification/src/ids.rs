//! Identifiers and points in time.

use vstd::arithmetic::power::pow;
use vstd::prelude::*;

use crate::text::opt_text;

verus! {

/// A 128-bit identifier.
#[derive(Clone, Copy, Debug, PartialEq, Eq, PartialOrd, Ord, Hash, Structural)]
pub struct Uuid {
    /// The identifier as one big-endian number.
    pub bits: u128,
}

/// The lower-case hexadecimal digit of a number below sixteen.
pub open spec fn hex_digit(n: int) -> char {
    if n < 10 {
        (('0' as u32) + n) as char
    } else {
        (('a' as u32) + (n - 10)) as char
    }
}

/// The 32 hexadecimal digits of an identifier, most significant first.
pub open spec fn id_digits(bits: u128) -> Seq<char> {
    Seq::new(32, |i: int| hex_digit((bits as int) / pow(16, (31 - i) as nat) % 16))
}

/// The text of an identifier: its 32 hexadecimal digits in groups of eight,
/// four, four, four and twelve, joined by hyphens.
pub open spec fn id_text(bits: u128) -> Seq<char> {
    let d = id_digits(bits);
    d.subrange(0, 8) + seq!['-'] + d.subrange(8, 12) + seq!['-'] + d.subrange(12, 16) + seq!['-']
        + d.subrange(16, 20) + seq!['-'] + d.subrange(20, 32)
}

/// Whether the identifier carries the marks of a random one: version 4 in
/// the thirteenth digit and the standard variant in the seventeenth.
pub open spec fn is_random_id(bits: u128) -> bool {
    &&& (bits as int) / pow(2, 76) % 16 == 4
    &&& (bits as int) / pow(2, 62) % 4 == 2
}

/// `uuid::Uuid::new_v4` makes a random identifier: its version is 4 and its
/// variant the standard one. Which identifier it is rests on chance.
#[verifier::external_body]
fn random_bits() -> (bits: u128)
    ensures
        is_random_id(bits),
{
    uuid::Uuid::new_v4().as_u128()
}

/// `uuid::Uuid::from_u128` with `to_string` writes the hyphenated lower-case
/// text of the identifier.
#[verifier::external_body]
fn hyphenated(bits: u128) -> (s: String)
    ensures
        s@ == id_text(bits),
{
    uuid::Uuid::from_u128(bits).to_string()
}

impl Uuid {
    /// A fresh random identifier, never the nil one.
    pub fn new_v4() -> (id: Uuid)
        ensures
            is_random_id(id.bits),
            id.bits != 0,
    {
        let bits: u128 = random_bits();
        proof {
            if bits == 0 {
                vstd::arithmetic::power::lemma_pow_positive(2, 76);
                assert(0int / pow(2, 76) == 0) by (nonlinear_arith)
                    requires
                        pow(2, 76) > 0,
                ;
            }
        }
        Uuid { bits }
    }

    /// The nil identifier.
    pub fn nil() -> (id: Uuid)
        ensures
            id.bits == 0,
    {
        Uuid { bits: 0 }
    }

    /// The hyphenated lower-case text of the identifier.
    pub fn to_text(&self) -> (s: String)
        ensures
            s@ == id_text(self.bits),
    {
        hyphenated(self.bits)
    }
}

proof fn id_text_digits(bits: u128, i: int)
    requires
        0 <= i < 32,
    ensures
        id_text(bits)[if i < 8 {
            i
        } else if i < 12 {
            i + 1
        } else if i < 16 {
            i + 2
        } else if i < 20 {
            i + 3
        } else {
            i + 4
        }] == id_digits(bits)[i],
{
}

proof fn digits_determine(a: int, b: int, n: nat)
    requires
        0 <= a,
        0 <= b,
        a < pow(16, n),
        b < pow(16, n),
        forall|k: nat| k < n ==> a / #[trigger] pow(16, k) % 16 == b / pow(16, k) % 16,
    ensures
        a == b,
    decreases n,
{
    reveal(pow);
    if n > 0 {
        let m = (n - 1) as nat;
        assert(pow(16, n) == 16 * pow(16, m));
        assert(pow(16, 0) == 1);
        assert(a / pow(16, 0) % 16 == b / pow(16, 0) % 16);
        assert forall|k: nat| k < m implies (a / 16) / #[trigger] pow(16, k) % 16 == (b / 16) / pow(
            16,
            k,
        ) % 16 by {
            vstd::arithmetic::power::lemma_pow_positive(16, k);
            assert(pow(16, k + 1) == 16 * pow(16, k));
            vstd::arithmetic::div_mod::lemma_div_denominator(a, 16, pow(16, k));
            vstd::arithmetic::div_mod::lemma_div_denominator(b, 16, pow(16, k));
            assert(a / pow(16, k + 1) % 16 == b / pow(16, k + 1) % 16);
        }
        digits_determine(a / 16, b / 16, m);
    }
}

/// Different identifiers have different texts.
pub proof fn id_text_injective(a: u128, b: u128)
    requires
        id_text(a) == id_text(b),
    ensures
        a == b,
{
    assert forall|k: nat| k < 32 implies (a as int) / #[trigger] pow(16, k) % 16 == (b as int)
        / pow(16, k) % 16 by {
        let i = 31 - k as int;
        id_text_digits(a, i);
        id_text_digits(b, i);
        assert(id_digits(a)[i] == id_digits(b)[i]);
        let x = (a as int) / pow(16, k) % 16;
        let y = (b as int) / pow(16, k) % 16;
        assert(hex_digit(x) == hex_digit(y));
    }
    assert(pow(16, 32) == 0x1_0000_0000_0000_0000_0000_0000_0000_0000) by {
        vstd::arithmetic::power::lemma_pow_adds(16, 16, 16);
        vstd::arithmetic::power::lemma_pow_adds(16, 8, 8);
        assert(pow(16, 8) == 0x1_0000_0000) by {
            reveal_with_fuel(pow, 9);
        }
        assert(pow(16, 16) == 0x1_0000_0000_0000_0000);
        assert(0x1_0000_0000_0000_0000int * 0x1_0000_0000_0000_0000int
            == 0x1_0000_0000_0000_0000_0000_0000_0000_0000int);
    }
    digits_determine(a as int, b as int, 32);
}

/// A point in time, in UTC.
#[derive(Clone, Copy, Debug, PartialEq, Eq, PartialOrd, Ord, Hash, Structural)]
pub struct Timestamp {
    /// Seconds since the Unix epoch.
    pub seconds: i64,
    /// Nanoseconds since the last whole second.
    pub nanos: u32,
}

/// The RFC 3339 text of a point in time, where it is a date of the calendar.
pub uninterp spec fn rfc3339_text(seconds: int, nanos: int) -> Option<Seq<char>>;

/// `chrono::Utc::now` with `timestamp` and `timestamp_subsec_nanos` reads the
/// clock. Of the time it shows nothing is claimed but that it is a date of
/// the calendar.
#[verifier::external_body]
fn read_clock() -> (r: (i64, u32))
    ensures
        rfc3339_text(r.0 as int, r.1 as int) is Some,
{
    let now = chrono::Utc::now();
    (now.timestamp(), now.timestamp_subsec_nanos())
}

/// `chrono::DateTime::from_timestamp` with `to_rfc3339` writes a point in time
/// as an RFC 3339 text, by the two numbers alone; nothing where they are no
/// date of the calendar.
#[verifier::external_body]
fn write_time(seconds: i64, nanos: u32) -> (r: Option<String>)
    ensures
        opt_text(r) == rfc3339_text(seconds as int, nanos as int),
{
    Some(chrono::DateTime::from_timestamp(seconds, nanos)?.to_rfc3339())
}

impl Timestamp {
    /// The current time.
    pub fn now() -> (r: Timestamp)
        ensures
            rfc3339_text(r.seconds as int, r.nanos as int) is Some,
    {
        let (seconds, nanos) = read_clock();
        Timestamp { seconds, nanos }
    }

    /// The RFC 3339 text of the time, where it is a date of the calendar.
    pub fn to_rfc3339(&self) -> (r: Option<String>)
        ensures
            opt_text(r) == rfc3339_text(self.seconds as int, self.nanos as int),
    {
        write_time(self.seconds, self.nanos)
    }
}

/// Whether a text is that of some point in time.
pub open spec fn is_time_text(text: Seq<char>) -> bool {
    exists|seconds: int, nanos: int| #[trigger] rfc3339_text(seconds, nanos) == Some(text)
}

/// The RFC 3339 text of the current time.
pub fn now_text() -> (r: String)
    ensures
        is_time_text(r@),
{
    let now = Timestamp::now();
    match now.to_rfc3339() {
        Some(text) => text,
        None => String::new(),
    }
}

/// The text of an identifier has 36 characters, with hyphens behind the eighth,
/// twelfth, sixteenth and twentieth digit; that of a random one has its version
/// in the thirteenth digit.
pub proof fn id_text_has_five_groups(bits: u128)
    ensures
        id_text(bits).len() == 36,
        id_text(bits)[8] == '-' && id_text(bits)[13] == '-' && id_text(bits)[18] == '-'
            && id_text(bits)[23] == '-',
        is_random_id(bits) ==> id_text(bits)[14] == '4',
{
    id_text_digits(bits, 12);
    if is_random_id(bits) {
        assert(pow(16, 19) == pow(2, 76)) by {
            assert(pow(2, 4) == 16) by {
                reveal_with_fuel(pow, 5);
            }
            vstd::arithmetic::power::lemma_pow_multiplies(2, 4, 19);
        }
        assert(id_digits(bits)[12] == hex_digit((bits as int) / pow(16, 19) % 16));
    }
}

} // verus!
