//! Identifiers and addresses as plain values, and the outside calls that
//! mint, print and read them.

use vstd::prelude::*;
use rand::Rng;

verus! {

/// An IP address: a version 4 address as its 32 bits, or a version 6 address
/// as its 128 bits, most significant first.
#[derive(Clone, Copy, Debug, PartialEq, Eq, Hash, Structural)]
pub enum IpAddress {
    V4(u32),
    V6(u128),
}

impl IpAddress {
    /// Loopback: `127.0.0.0/8` for version 4, `::1` for version 6.
    pub open spec fn spec_is_loopback(&self) -> bool {
        match *self {
            IpAddress::V4(a) => a / 0x100_0000 == 127,
            IpAddress::V6(a) => a == 1,
        }
    }

    pub fn is_loopback(&self) -> (r: bool)
        ensures
            r == self.spec_is_loopback(),
    {
        match *self {
            IpAddress::V4(a) => a / 0x100_0000 == 127,
            IpAddress::V6(a) => a == 1,
        }
    }
}

/// A hexadecimal digit, lower case.
pub open spec fn hex_digit(n: nat) -> char {
    if n < 10 {
        (('0' as nat) + n) as char
    } else {
        (('a' as nat) + n - 10) as char
    }
}

/// The last `k` hexadecimal digits of `n`, most significant first.
pub open spec fn hex_digits(n: nat, k: nat) -> Seq<char>
    decreases k,
{
    if k == 0 {
        Seq::empty()
    } else {
        hex_digits(n / 16, (k - 1) as nat).push(hex_digit(n % 16))
    }
}

/// The hyphenated lower-case text of a 128-bit identifier: 32 hexadecimal
/// digits in groups of 8, 4, 4, 4 and 12.
pub open spec fn uuid_text(id: u128) -> Seq<char> {
    let h = hex_digits(id as nat, 32);
    h.subrange(0, 8) + seq!['-'] + h.subrange(8, 12) + seq!['-'] + h.subrange(12, 16) + seq!['-']
        + h.subrange(16, 20) + seq!['-'] + h.subrange(20, 32)
}

/// What the identifier parser reads from a text, if it reads an identifier.
pub uninterp spec fn uuid_parsed(s: Seq<char>) -> Option<u128>;

/// Relies on `uuid::Uuid::from_u128` and its `Display`, which writes the
/// hyphenated lower-case form.
#[verifier::external_body]
pub fn id_text(id: u128) -> (r: String)
    ensures
        r@ == uuid_text(id),
{
    uuid::Uuid::from_u128(id).to_string()
}

/// Relies on `uuid::Uuid::parse_str`: the identifier that the text spells.
#[verifier::external_body]
pub fn parse_id(s: &str) -> (r: Option<u128>)
    ensures
        r == uuid_parsed(s@),
{
    uuid::Uuid::parse_str(s).ok().map(|u| u.as_u128())
}

/// Relies on `uuid::Uuid::new_v4`: a fresh random identifier.
#[verifier::external_body]
pub fn fresh_id() -> (r: u128) {
    uuid::Uuid::new_v4().as_u128()
}

/// Relies on `rand::Rng::gen_range` over `thread_rng`: a number in the
/// half-open range `[10000, 99999)`.
#[verifier::external_body]
pub fn random_five_digits() -> (r: u32)
    ensures
        10000 <= r < 99999,
{
    rand::thread_rng().gen_range(10000..99999)
}

} // verus!
