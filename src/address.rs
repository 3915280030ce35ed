use vstd::prelude::*;
use ethers::types::Address;

verus! {

pub open spec fn is_hex_digit(c: char) -> bool {
    ('0' <= c && c <= '9') || ('a' <= c && c <= 'f') || ('A' <= c && c <= 'F')
}

pub open spec fn hex_value(c: char) -> nat {
    if '0' <= c && c <= '9' {
        (c as nat - '0' as nat) as nat
    } else if 'a' <= c && c <= 'f' {
        (c as nat - 'a' as nat + 10) as nat
    } else {
        (c as nat - 'A' as nat + 10) as nat
    }
}

/// The digits of an address text: what follows its `0x` marker, if any.
pub open spec fn hex_body(s: Seq<char>) -> Seq<char> {
    if s.len() >= 2 && s[0] == '0' && s[1] == 'x' {
        s.subrange(2, s.len() as int)
    } else {
        s
    }
}

/// Forty hex digits, with or without a leading `0x`.
pub open spec fn is_address_text(s: Seq<char>) -> bool {
    &&& hex_body(s).len() == 40
    &&& forall|i: int| 0 <= i < 40 ==> is_hex_digit(#[trigger] hex_body(s)[i])
}

/// The twenty bytes that forty hex digits spell, two digits a byte, high digit first.
pub open spec fn address_bytes(s: Seq<char>) -> Seq<u8> {
    Seq::new(
        20,
        |i: int| (hex_value(hex_body(s)[2 * i]) * 16 + hex_value(hex_body(s)[2 * i + 1])) as u8,
    )
}

/// Relies on `FromStr` of `ethers::types::Address` (fixed-hash's `H160`): an
/// optional `0x` is taken off, then the digits are decoded two a byte, high
/// digit first, into exactly twenty bytes.
#[verifier::external_body]
pub(crate) fn parse_address(s: &str) -> (r: Option<[u8; 20]>)
    ensures
        r is None ==> !is_address_text(s@),
        r matches Some(a) ==> (is_address_text(s@) ==> a@ == address_bytes(s@)),
{
    s.parse::<Address>().ok().map(|a| a.0)
}

} // verus!
