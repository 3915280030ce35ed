use alpha_roller::bundle::{claim_transaction, mint_transaction, BundleParams, Operation};
use alpha_roller::calldata::{call_data, call_data_with_selector, signature};

fn word(last: &[u8]) -> Vec<u8> {
    let mut w = vec![0u8; 32 - last.len()];
    w.extend_from_slice(last);
    w
}

#[test]
fn signatures_of_operations() {
    assert_eq!(signature(Operation::RollAlpha), "roll_alpha()");
    assert_eq!(signature(Operation::Mint { quantity: 1, stake: false }), "mint(uint256,bool)");
}

#[test]
fn claim_call_is_its_selector() {
    let d = call_data(Operation::RollAlpha);
    assert_eq!(d.len(), 4);
    assert_eq!(d, ethers::utils::id("roll_alpha()").to_vec());
}

#[test]
fn mint_call_is_selector_then_two_words() {
    let d = call_data(Operation::Mint { quantity: 1, stake: false });
    assert_eq!(d.len(), 68);
    assert_eq!(d[..4].to_vec(), ethers::utils::id("mint(uint256,bool)").to_vec());
    assert_eq!(d[4..36].to_vec(), word(&[1]));
    assert_eq!(d[36..].to_vec(), word(&[]));
    assert_ne!(d[..4].to_vec(), call_data(Operation::RollAlpha));
}

#[test]
fn arguments_follow_the_given_selector() {
    let sel = vec![0xde, 0xad, 0xbe, 0xef];
    let d = call_data_with_selector(&sel, Operation::Mint { quantity: 0x0102, stake: true });
    let mut expected = sel.clone();
    expected.extend(word(&[1, 2]));
    expected.extend(word(&[1]));
    assert_eq!(d, expected);
    assert_eq!(call_data_with_selector(&sel, Operation::RollAlpha), sel);
}

#[test]
fn largest_quantity_fills_eight_bytes() {
    let d = call_data_with_selector(&vec![], Operation::Mint { quantity: u64::MAX, stake: false });
    assert_eq!(d[..32].to_vec(), word(&[0xff; 8]));
}

#[test]
fn planned_calls_carry_their_call_data() {
    let p = BundleParams::standard();
    assert_eq!(claim_transaction(&p, 0).data, call_data(Operation::RollAlpha));
    assert_eq!(
        mint_transaction(&p, 1).data,
        call_data(Operation::Mint { quantity: 1, stake: false })
    );
}
