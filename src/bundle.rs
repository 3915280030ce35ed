use vstd::prelude::*;
use crate::address::{address_bytes, is_address_text, parse_address};
use crate::calldata::{call_data, call_data_spec};

verus! {

/// Contract that grants the privilege (target of the claim transaction).
pub const SHEEPDOG_ADDRESS: &'static str = "0x1bEc112D5AF1f20eD0557A2EDbd5C72e202A9680";

/// Contract that mints (target of the mint transaction).
pub const WOOLF_ADDRESS: &'static str = "0xEB834ae72B30866af20a6ce5440Fa598BfAd3a42";

/// Fixed gas price of both transactions, in wei.
pub const GAS_PRICE_WEI: u64 = 300000000000;

/// Gas limit of the claim call.
pub const CLAIM_GAS_LIMIT: u64 = 50000;

/// Gas limit of the mint call.
pub const MINT_GAS_LIMIT: u64 = 400000;

/// How many tokens the mint call asks for.
pub const MINT_QUANTITY: u64 = 1;

/// The contract call a transaction makes.
#[derive(Debug, Clone, Copy, PartialEq, Eq, Structural)]
pub enum Operation {
    /// `roll_alpha()`: claim the privilege.
    RollAlpha,
    /// `mint(quantity, stake)`.
    Mint { quantity: u64, stake: bool },
}

/// One on-chain call, before signing.
#[derive(Debug, Clone, PartialEq, Eq)]
pub struct TransactionSpec {
    /// Address of the called contract.
    pub target: [u8; 20],
    pub operation: Operation,
    /// The encoded contract call of `operation`.
    pub data: Vec<u8>,
    pub nonce: u64,
    pub gas_price: u64,
    pub gas_limit: u64,
}

/// The fixed parameters of the two transactions of a cycle.
#[derive(Debug, Clone, PartialEq, Eq)]
pub struct BundleParams {
    pub claim_target: [u8; 20],
    pub mint_target: [u8; 20],
    pub gas_price: u64,
    pub claim_gas_limit: u64,
    pub mint_gas_limit: u64,
}

/// A signed, broadcast-ready transaction, with the call it was made from.
#[derive(Debug, Clone, PartialEq, Eq)]
pub struct SignedTransaction {
    pub spec: TransactionSpec,
    /// The signed transaction, RLP encoded.
    pub raw: Vec<u8>,
}

/// What is handed to the relay in one cycle.
#[derive(Debug, Clone, PartialEq, Eq)]
pub struct Bundle {
    /// The block that the bundle is simulated against.
    pub simulation_block: u64,
    /// The block that the bundle should land in.
    pub target_block: u64,
    /// Wall-clock seconds when the bundle was made.
    pub simulation_timestamp: u64,
    /// In order of execution.
    pub transactions: Vec<SignedTransaction>,
}

/// `t` is the claim call of a cycle whose account nonce is `nonce`.
pub open spec fn is_claim(t: TransactionSpec, p: BundleParams, nonce: int) -> bool {
    &&& t.target == p.claim_target
    &&& t.operation == Operation::RollAlpha
    &&& t.data@ == call_data_spec(t.operation)
    &&& t.nonce == nonce
    &&& t.gas_price == p.gas_price
    &&& t.gas_limit == p.claim_gas_limit
}

/// `t` is the mint call with nonce `nonce`.
pub open spec fn is_mint(t: TransactionSpec, p: BundleParams, nonce: int) -> bool {
    &&& t.target == p.mint_target
    &&& t.operation == (Operation::Mint { quantity: MINT_QUANTITY, stake: false })
    &&& t.data@ == call_data_spec(t.operation)
    &&& t.nonce == nonce
    &&& t.gas_price == p.gas_price
    &&& t.gas_limit == p.mint_gas_limit
}

/// `specs` is the plan of a cycle that starts at account nonce `nonce`:
/// claim at `nonce`, then mint at `nonce + 1`.
pub open spec fn is_plan(specs: Seq<TransactionSpec>, p: BundleParams, nonce: int) -> bool {
    &&& specs.len() == 2
    &&& is_claim(specs[0], p, nonce)
    &&& is_mint(specs[1], p, nonce + 1)
}

impl BundleParams {
    /// The parameters the bot runs with: the two fixed contracts and the fixed
    /// gas schedule.
    pub fn standard() -> (r: BundleParams)
        ensures
            r.claim_target@ == address_bytes(SHEEPDOG_ADDRESS@),
            r.mint_target@ == address_bytes(WOOLF_ADDRESS@),
            r.gas_price == GAS_PRICE_WEI,
            r.claim_gas_limit == CLAIM_GAS_LIMIT,
            r.mint_gas_limit == MINT_GAS_LIMIT,
    {
        proof {
            reveal_strlit("0x1bEc112D5AF1f20eD0557A2EDbd5C72e202A9680");
            reveal_strlit("0xEB834ae72B30866af20a6ce5440Fa598BfAd3a42");
            assert(is_address_text(SHEEPDOG_ADDRESS@));
            assert(is_address_text(WOOLF_ADDRESS@));
        }
        let claim_target = match parse_address(SHEEPDOG_ADDRESS) {
            Some(a) => a,
            None => [0u8; 20],
        };
        let mint_target = match parse_address(WOOLF_ADDRESS) {
            Some(a) => a,
            None => [0u8; 20],
        };
        BundleParams {
            claim_target,
            mint_target,
            gas_price: GAS_PRICE_WEI,
            claim_gas_limit: CLAIM_GAS_LIMIT,
            mint_gas_limit: MINT_GAS_LIMIT,
        }
    }
}

/// The claim call at the given nonce.
pub fn claim_transaction(params: &BundleParams, nonce: u64) -> (r: TransactionSpec)
    ensures
        is_claim(r, *params, nonce as int),
{
    TransactionSpec {
        target: params.claim_target,
        operation: Operation::RollAlpha,
        data: call_data(Operation::RollAlpha),
        nonce,
        gas_price: params.gas_price,
        gas_limit: params.claim_gas_limit,
    }
}

/// The mint call at the given nonce.
pub fn mint_transaction(params: &BundleParams, nonce: u64) -> (r: TransactionSpec)
    ensures
        is_mint(r, *params, nonce as int),
{
    TransactionSpec {
        target: params.mint_target,
        operation: Operation::Mint { quantity: MINT_QUANTITY, stake: false },
        data: call_data(Operation::Mint { quantity: MINT_QUANTITY, stake: false }),
        nonce,
        gas_price: params.gas_price,
        gas_limit: params.mint_gas_limit,
    }
}

/// The two calls of a cycle whose account nonce, read at its start, is `nonce`.
pub fn plan_transactions(params: &BundleParams, nonce: u64) -> (r: Vec<TransactionSpec>)
    requires
        nonce < u64::MAX,
    ensures
        is_plan(r@, *params, nonce as int),
{
    let mut r: Vec<TransactionSpec> = Vec::new();
    r.push(claim_transaction(params, nonce));
    r.push(mint_transaction(params, nonce + 1));
    r
}

impl Bundle {
    /// The block a bundle should land in: the one after the block it is
    /// simulated against.
    pub open spec fn targets_next_block(&self) -> bool {
        self.target_block == self.simulation_block + 1
    }

    /// An empty bundle for the cycle that observed block `block` at wall-clock
    /// second `timestamp`.
    pub fn new(block: u64, timestamp: u64) -> (r: Bundle)
        requires
            block < u64::MAX,
        ensures
            r.simulation_block == block,
            r.target_block == block + 1,
            r.simulation_timestamp == timestamp,
            r.transactions@.len() == 0,
    {
        Bundle {
            simulation_block: block,
            target_block: block + 1,
            simulation_timestamp: timestamp,
            transactions: Vec::new(),
        }
    }

    /// Appends a transaction, to be executed after those already there.
    pub fn push_transaction(&mut self, tx: SignedTransaction)
        ensures
            final(self).transactions@ == old(self).transactions@.push(tx),
            final(self).simulation_block == old(self).simulation_block,
            final(self).target_block == old(self).target_block,
            final(self).simulation_timestamp == old(self).simulation_timestamp,
    {
        self.transactions.push(tx);
    }

    pub fn is_empty(&self) -> (r: bool)
        ensures
            r <==> self.transactions@.len() == 0,
    {
        self.transactions.len() == 0
    }
}

/// `b` is the bundle of a cycle that observed block `block` at second
/// `timestamp` and account nonce `nonce`, with the signed claim `claim` and
/// the signed mint `mint`.
pub open spec fn is_cycle_bundle(
    b: Bundle,
    p: BundleParams,
    block: int,
    timestamp: int,
    nonce: int,
    claim: Seq<u8>,
    mint: Seq<u8>,
) -> bool {
    &&& b.simulation_block == block
    &&& b.target_block == block + 1
    &&& b.simulation_timestamp == timestamp
    &&& b.transactions@.len() == 2
    &&& is_claim(b.transactions@[0].spec, p, nonce)
    &&& b.transactions@[0].raw@ == claim
    &&& is_mint(b.transactions@[1].spec, p, nonce + 1)
    &&& b.transactions@[1].raw@ == mint
}

/// The bundle of a cycle: the signed claim, then the signed mint, to land in
/// the block after `block`.
pub fn assemble_bundle(
    params: &BundleParams,
    block: u64,
    timestamp: u64,
    nonce: u64,
    signed_claim: Vec<u8>,
    signed_mint: Vec<u8>,
) -> (r: Bundle)
    requires
        block < u64::MAX,
        nonce < u64::MAX,
    ensures
        is_cycle_bundle(r, *params, block as int, timestamp as int, nonce as int,
            signed_claim@, signed_mint@),
        r.targets_next_block(),
{
    let mut bundle = Bundle::new(block, timestamp);
    bundle.push_transaction(SignedTransaction {
        spec: claim_transaction(params, nonce),
        raw: signed_claim,
    });
    bundle.push_transaction(SignedTransaction {
        spec: mint_transaction(params, nonce + 1),
        raw: signed_mint,
    });
    bundle
}

} // verus!
