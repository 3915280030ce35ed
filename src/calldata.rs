use vstd::prelude::*;
use crate::bundle::Operation;
use ethers::abi::Token;
use ethers::types::U256;

verus! {

/// The four-byte selector of the contract function with the given signature
/// (the first bytes of the Keccak-256 digest of its text).
pub uninterp spec fn selector_of(signature: Seq<char>) -> Seq<u8>;

/// Relies on `ethers::utils::id`: the function selector of a signature, four
/// bytes, which depend on the signature's text alone.
#[verifier::external_body]
fn function_selector(signature: &str) -> (r: Vec<u8>)
    ensures
        r@ == selector_of(signature@),
        r@.len() == 4,
{
    ethers::utils::id(signature).to_vec()
}

/// `n` as `len` big-endian bytes, its high bytes dropped when it does not fit.
pub open spec fn be_bytes(n: nat, len: nat) -> Seq<u8>
    decreases len,
{
    if len == 0 {
        Seq::empty()
    } else {
        be_bytes(n / 256, (len - 1) as nat).push((n % 256) as u8)
    }
}

/// The ABI word of an unsigned integer: 32 bytes, big-endian.
pub open spec fn uint_word(n: nat) -> Seq<u8> {
    be_bytes(n, 32)
}

/// The ABI word of a boolean: the word of 1 or of 0.
pub open spec fn bool_word(b: bool) -> Seq<u8> {
    uint_word(if b { 1 } else { 0 })
}

/// Relies on `ethers::abi::encode` on a `uint256` and a `bool`: both are
/// static, so each is one 32-byte word in the head, in order, with no tail.
#[verifier::external_body]
fn encode_uint_bool(n: u64, b: bool) -> (r: Vec<u8>)
    ensures
        r@ == uint_word(n as nat) + bool_word(b),
{
    ethers::abi::encode(&[Token::Uint(U256::from(n)), Token::Bool(b)])
}

/// The text signature of the contract function an operation calls.
pub open spec fn signature_of(op: Operation) -> Seq<char> {
    match op {
        Operation::RollAlpha => "roll_alpha()"@,
        Operation::Mint { .. } => "mint(uint256,bool)"@,
    }
}

/// The encoded arguments of an operation.
pub open spec fn arguments_of(op: Operation) -> Seq<u8> {
    match op {
        Operation::RollAlpha => Seq::empty(),
        Operation::Mint { quantity, stake } => uint_word(quantity as nat) + bool_word(stake),
    }
}

/// The call data of an operation: selector, then arguments.
pub open spec fn call_data_spec(op: Operation) -> Seq<u8> {
    selector_of(signature_of(op)) + arguments_of(op)
}

/// The text signature of the contract function an operation calls.
pub fn signature(op: Operation) -> (r: &'static str)
    ensures
        r@ == signature_of(op),
{
    match op {
        Operation::RollAlpha => "roll_alpha()",
        Operation::Mint { .. } => "mint(uint256,bool)",
    }
}

/// The call data of an operation, given the selector of its function.
pub fn call_data_with_selector(selector: &Vec<u8>, op: Operation) -> (r: Vec<u8>)
    ensures
        r@ == selector@ + arguments_of(op),
{
    let mut r = selector.clone();
    match op {
        Operation::RollAlpha => {},
        Operation::Mint { quantity, stake } => {
            let mut args = encode_uint_bool(quantity, stake);
            r.append(&mut args);
        },
    }
    r
}

/// The call data that makes the contract call of an operation.
pub fn call_data(op: Operation) -> (r: Vec<u8>)
    ensures
        r@ == call_data_spec(op),
{
    let selector = function_selector(signature(op));
    call_data_with_selector(&selector, op)
}

} // verus!
