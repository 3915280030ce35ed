use vstd::prelude::*;
use crate::bundle::{
    assemble_bundle, is_cycle_bundle, is_plan, plan_transactions, Bundle, BundleParams,
    TransactionSpec,
};
use crate::bundle::{Operation, MINT_QUANTITY};
use crate::config::OperationMode;
use crate::dispatch::{
    after_dispatch, after_dispatch_spec, dispatch_for, AfterDispatch, Dispatch, RelayOutcome,
};

verus! {

/// Where the controller stands in the current cycle.
#[derive(Debug, Clone, Copy, PartialEq, Eq, Structural)]
pub enum Phase {
    /// Waiting for the next block.
    Waiting,
    /// A block arrived; waiting for the chain's block number and the account nonce.
    ReadingChain,
    /// Waiting for the two planned transactions to be signed.
    Signing { block: u64, timestamp: u64, nonce: u64 },
    /// Waiting for the relay's answer to the given call.
    Dispatching { kind: Dispatch },
    /// The loop is over.
    Stopped,
}

/// What the caller observed since the last action.
#[derive(Debug, Clone)]
pub enum Event {
    /// The chain announced a new head.
    BlockArrived,
    /// The stream of new heads ended.
    StreamEnded,
    /// The latest block number, the wall-clock seconds, and the executor's nonce.
    ChainState { block: u64, timestamp: u64, nonce: u64 },
    /// The planned claim and mint, signed and encoded, in that order.
    Signed { claim: Vec<u8>, mint: Vec<u8> },
    /// The relay answered.
    Relay(RelayOutcome),
}

/// Why the loop stopped with an error.
#[derive(Debug, Clone, Copy, PartialEq, Eq, Structural)]
pub enum CycleError {
    /// The block number or the nonce is too large to have a successor.
    NumberOverflow,
    /// The relay refused a bundle submitted for inclusion.
    RelayRejected,
    /// An event came that the current phase does not wait for.
    UnexpectedEvent,
}

/// What the caller must do next.
#[derive(Debug, Clone)]
pub enum Action {
    /// Wait for the next block.
    WaitForBlock,
    /// Read the latest block number, the time, then the executor's nonce.
    ReadChainState,
    /// Sign these calls, in order, with the executor key.
    Sign(Vec<TransactionSpec>),
    /// Submit the bundle for inclusion in its target block.
    Send(Bundle),
    /// Ask the relay to simulate the bundle.
    Simulate(Bundle),
    /// Nothing new: the event was dropped.
    Ignore,
    /// End the loop without error.
    Finish,
    /// End the loop with the error.
    Stop(CycleError),
}

/// The per-block loop: waits for a block, plans, has the plan signed, hands
/// the bundle to the relay, and waits again. Exactly one cycle is in flight.
#[derive(Debug, Clone)]
pub struct CycleController {
    pub mode: OperationMode,
    pub params: BundleParams,
    pub phase: Phase,
}

/// One transition: in `phase`, on `e`, the controller moves to `next` and asks
/// for `a`.
pub open spec fn step_spec(
    mode: OperationMode,
    params: BundleParams,
    phase: Phase,
    e: Event,
    next: Phase,
    a: Action,
) -> bool {
    match phase {
        Phase::Stopped => next == Phase::Stopped && a == Action::Ignore,
        _ => match e {
            Event::BlockArrived => if phase == Phase::Waiting {
                next == Phase::ReadingChain && a == Action::ReadChainState
            } else {
                next == phase && a == Action::Ignore
            },
            Event::StreamEnded => if phase == Phase::Waiting {
                next == Phase::Stopped && a == Action::Finish
            } else {
                unexpected(next, a)
            },
            Event::ChainState { block, timestamp, nonce } => if phase == Phase::ReadingChain {
                if block == u64::MAX || nonce == u64::MAX {
                    next == Phase::Stopped && a == Action::Stop(CycleError::NumberOverflow)
                } else {
                    &&& next == (Phase::Signing { block, timestamp, nonce })
                    &&& a matches Action::Sign(specs)
                    &&& is_plan(specs@, params, nonce as int)
                }
            } else {
                unexpected(next, a)
            },
            Event::Signed { claim, mint } => match phase {
                Phase::Signing { block, timestamp, nonce } => match a {
                    Action::Send(b) => {
                        &&& mode == OperationMode::Send
                        &&& next == (Phase::Dispatching { kind: Dispatch::Send })
                        &&& is_cycle_bundle(b, params, block as int, timestamp as int,
                            nonce as int, claim@, mint@)
                    },
                    Action::Simulate(b) => {
                        &&& mode == OperationMode::Simulate
                        &&& next == (Phase::Dispatching { kind: Dispatch::Simulate })
                        &&& is_cycle_bundle(b, params, block as int, timestamp as int,
                            nonce as int, claim@, mint@)
                    },
                    _ => false,
                },
                _ => unexpected(next, a),
            },
            Event::Relay(outcome) => match phase {
                Phase::Dispatching { kind } => match after_dispatch_spec(kind, outcome) {
                    AfterDispatch::Fatal => next == Phase::Stopped && a == Action::Stop(
                        CycleError::RelayRejected,
                    ),
                    AfterDispatch::Continue => next == Phase::Waiting && a
                        == Action::WaitForBlock,
                },
                _ => unexpected(next, a),
            },
        },
    }
}

/// An event that the phase does not wait for ends the loop.
pub open spec fn unexpected(next: Phase, a: Action) -> bool {
    next == Phase::Stopped && a == Action::Stop(CycleError::UnexpectedEvent)
}

/// Every bundle handed to the relay targets the block right after the one it
/// is simulated against.
pub proof fn lemma_bundle_targets_next_block(
    mode: OperationMode,
    params: BundleParams,
    phase: Phase,
    e: Event,
    next: Phase,
    a: Action,
)
    requires
        step_spec(mode, params, phase, e, next, a),
    ensures
        a matches Action::Send(b) ==> b.target_block == b.simulation_block + 1,
        a matches Action::Simulate(b) ==> b.target_block == b.simulation_block + 1,
{
}

/// Every bundle handed to the relay holds exactly two transactions: the claim
/// on the claim contract, then the mint on the mint contract.
pub proof fn lemma_bundle_is_claim_then_mint(
    mode: OperationMode,
    params: BundleParams,
    phase: Phase,
    e: Event,
    next: Phase,
    a: Action,
)
    requires
        step_spec(mode, params, phase, e, next, a),
    ensures
        a matches Action::Send(b) ==> claim_then_mint(b, params),
        a matches Action::Simulate(b) ==> claim_then_mint(b, params),
{
}

/// Two transactions, the claim first and the mint second.
pub open spec fn claim_then_mint(b: Bundle, params: BundleParams) -> bool {
    &&& b.transactions@.len() == 2
    &&& b.transactions@[0].spec.operation == Operation::RollAlpha
    &&& b.transactions@[0].spec.target == params.claim_target
    &&& b.transactions@[1].spec.operation == (Operation::Mint {
        quantity: MINT_QUANTITY,
        stake: false,
    })
    &&& b.transactions@[1].spec.target == params.mint_target
}

/// In a cycle that read account nonce `nonce` at block `block`, the planned
/// calls and the bundle that follows carry nonces `nonce` and `nonce + 1`, in
/// that order, and the bundle is simulated against `block` and targets
/// `block + 1`.
pub proof fn lemma_cycle_uses_observed_nonce(
    mode: OperationMode,
    params: BundleParams,
    block: u64,
    timestamp: u64,
    nonce: u64,
    signing: Phase,
    plan: Action,
    e: Event,
    next: Phase,
    a: Action,
)
    requires
        step_spec(
            mode,
            params,
            Phase::ReadingChain,
            Event::ChainState { block, timestamp, nonce },
            signing,
            plan,
        ),
        step_spec(mode, params, signing, e, next, a),
    ensures
        plan matches Action::Sign(specs) ==> {
            &&& specs@.len() == 2
            &&& specs@[0].nonce == nonce
            &&& specs@[1].nonce == nonce + 1
        },
        a matches Action::Send(b) ==> nonces_from(b, block as int, nonce as int),
        a matches Action::Simulate(b) ==> nonces_from(b, block as int, nonce as int),
{
}

/// The bundle of the cycle that observed `block` and account nonce `nonce`.
pub open spec fn nonces_from(b: Bundle, block: int, nonce: int) -> bool {
    &&& b.simulation_block == block
    &&& b.target_block == block + 1
    &&& b.transactions@.len() == 2
    &&& b.transactions@[0].spec.nonce == nonce
    &&& b.transactions@[1].spec.nonce == nonce + 1
}

/// When the relay fails, a bundle submitted for inclusion ends the loop with
/// an error, while a failed simulation only returns the loop to waiting, and
/// the next block starts a new cycle.
pub proof fn lemma_relay_failure(
    mode: OperationMode,
    params: BundleParams,
    kind: Dispatch,
    next: Phase,
    a: Action,
    after: Phase,
    b: Action,
)
    requires
        step_spec(
            mode,
            params,
            Phase::Dispatching { kind },
            Event::Relay(RelayOutcome::Failed),
            next,
            a,
        ),
        step_spec(mode, params, next, Event::BlockArrived, after, b),
    ensures
        kind == Dispatch::Send ==> next == Phase::Stopped && a == Action::Stop(
            CycleError::RelayRejected,
        ),
        kind == Dispatch::Simulate ==> {
            &&& next == Phase::Waiting
            &&& a == Action::WaitForBlock
            &&& after == Phase::ReadingChain
            &&& b == Action::ReadChainState
        },
{
}

/// `phases`, `events` and `actions` record a run of the controller: on event
/// `j` it moved from phase `j` to phase `j + 1` and asked for action `j`.
pub open spec fn is_run(
    mode: OperationMode,
    params: BundleParams,
    phases: Seq<Phase>,
    events: Seq<Event>,
    actions: Seq<Action>,
) -> bool {
    &&& phases.len() == events.len() + 1
    &&& actions.len() == events.len()
    &&& forall|j: int|
        0 <= j < events.len() ==> #[trigger] step_spec(
            mode,
            params,
            phases[j],
            events[j],
            phases[j + 1],
            actions[j],
        )
}

/// Cycle `i` of `events` is a whole cycle whose simulation fails: a block
/// arrives, the chain is read (block number and nonce with successors), both
/// calls are signed, and the relay reports failure.
pub open spec fn failed_simulation_cycle(events: Seq<Event>, i: int) -> bool {
    &&& events[4 * i] == Event::BlockArrived
    &&& events[4 * i + 1] matches Event::ChainState { block, nonce, .. }
    &&& events[4 * i + 1]->block < u64::MAX
    &&& events[4 * i + 1]->nonce < u64::MAX
    &&& events[4 * i + 2] is Signed
    &&& events[4 * i + 3] == Event::Relay(RelayOutcome::Failed)
}

/// Cycle `i` of a run asked for a simulation, neither sent, stopped nor
/// finished, and ended waiting for the next block.
pub open spec fn cycle_kept_looping(phases: Seq<Phase>, actions: Seq<Action>, i: int) -> bool {
    &&& actions[4 * i + 2] is Simulate
    &&& phases[4 * i + 4] == Phase::Waiting
    &&& forall|r: int|
        0 <= r < 4 ==> !(#[trigger] actions[4 * i + r] is Send) && !(actions[4 * i + r] is Stop)
            && !(actions[4 * i + r] is Finish)
}

proof fn lemma_one_failed_simulation(
    params: BundleParams,
    phases: Seq<Phase>,
    events: Seq<Event>,
    actions: Seq<Action>,
    i: int,
)
    requires
        0 <= i,
        4 * i + 4 <= events.len(),
        phases[4 * i] == Phase::Waiting,
        is_run(OperationMode::Simulate, params, phases, events, actions),
        failed_simulation_cycle(events, i),
    ensures
        cycle_kept_looping(phases, actions, i),
{
    lemma_run_step(OperationMode::Simulate, params, phases, events, actions, 4 * i);
    lemma_run_step(OperationMode::Simulate, params, phases, events, actions, 4 * i + 1);
    lemma_run_step(OperationMode::Simulate, params, phases, events, actions, 4 * i + 2);
    lemma_run_step(OperationMode::Simulate, params, phases, events, actions, 4 * i + 3);
}

proof fn lemma_run_step(
    mode: OperationMode,
    params: BundleParams,
    phases: Seq<Phase>,
    events: Seq<Event>,
    actions: Seq<Action>,
    j: int,
)
    requires
        is_run(mode, params, phases, events, actions),
        0 <= j < events.len(),
    ensures
        step_spec(mode, params, phases[j], events[j], phases[j + 1], actions[j]),
{
}

proof fn lemma_waiting_after_cycles(
    params: BundleParams,
    phases: Seq<Phase>,
    events: Seq<Event>,
    actions: Seq<Action>,
    k: int,
    i: int,
)
    requires
        0 <= i <= k,
        events.len() == 4 * k,
        phases[0] == Phase::Waiting,
        is_run(OperationMode::Simulate, params, phases, events, actions),
        forall|c: int| 0 <= c < k ==> #[trigger] failed_simulation_cycle(events, c),
    ensures
        phases[4 * i] == Phase::Waiting,
    decreases i,
{
    if i > 0 {
        lemma_waiting_after_cycles(params, phases, events, actions, k, i - 1);
        assert(failed_simulation_cycle(events, i - 1));
        lemma_one_failed_simulation(params, phases, events, actions, i - 1);
    }
}

/// In simulate mode, failed simulations never end the loop: over any run of
/// `k` whole cycles from waiting, each of whose simulations fails, every
/// cycle asks for a simulation and returns to waiting, and no action sends,
/// stops or finishes.
pub proof fn lemma_failed_simulations_keep_looping(
    params: BundleParams,
    phases: Seq<Phase>,
    events: Seq<Event>,
    actions: Seq<Action>,
    k: int,
)
    requires
        0 <= k,
        events.len() == 4 * k,
        phases[0] == Phase::Waiting,
        is_run(OperationMode::Simulate, params, phases, events, actions),
        forall|c: int| 0 <= c < k ==> #[trigger] failed_simulation_cycle(events, c),
    ensures
        forall|c: int| 0 <= c < k ==> #[trigger] cycle_kept_looping(phases, actions, c),
{
    assert forall|c: int| 0 <= c < k implies #[trigger] cycle_kept_looping(phases, actions, c) by {
        lemma_waiting_after_cycles(params, phases, events, actions, k, c);
        lemma_one_failed_simulation(params, phases, events, actions, c);
    }
}

impl CycleController {
    /// A phase that waits for signatures holds a block number and a nonce that
    /// have successors, and a relay call is never the empty one.
    pub open spec fn wf(&self) -> bool {
        match self.phase {
            Phase::Signing { block, nonce, .. } => block < u64::MAX && nonce < u64::MAX,
            Phase::Dispatching { kind } => kind != Dispatch::Skip,
            _ => true,
        }
    }

    /// A controller that waits for the first block.
    pub fn new(mode: OperationMode, params: BundleParams) -> (r: CycleController)
        ensures
            r.mode == mode,
            r.params == params,
            r.phase == Phase::Waiting,
            r.wf(),
    {
        CycleController { mode, params, phase: Phase::Waiting }
    }

    /// The first action: wait for a block.
    pub fn start(&self) -> (a: Action)
        ensures
            a == Action::WaitForBlock,
    {
        Action::WaitForBlock
    }

    fn unexpected_event(&mut self) -> (a: Action)
        ensures
            final(self).wf(),
            unexpected(final(self).phase, a),
            final(self).mode == old(self).mode,
            final(self).params == old(self).params,
    {
        self.phase = Phase::Stopped;
        Action::Stop(CycleError::UnexpectedEvent)
    }

    /// Takes in what the caller observed and says what to do next.
    pub fn step(&mut self, e: Event) -> (a: Action)
        requires
            old(self).wf(),
        ensures
            final(self).wf(),
            final(self).mode == old(self).mode,
            final(self).params == old(self).params,
            step_spec(old(self).mode, old(self).params, old(self).phase, e, final(self).phase, a),
    {
        if self.phase == Phase::Stopped {
            return Action::Ignore;
        }
        match e {
            Event::BlockArrived => {
                if self.phase == Phase::Waiting {
                    self.phase = Phase::ReadingChain;
                    Action::ReadChainState
                } else {
                    Action::Ignore
                }
            },
            Event::StreamEnded => {
                if self.phase == Phase::Waiting {
                    self.phase = Phase::Stopped;
                    Action::Finish
                } else {
                    self.unexpected_event()
                }
            },
            Event::ChainState { block, timestamp, nonce } => {
                if self.phase == Phase::ReadingChain {
                    if block == u64::MAX || nonce == u64::MAX {
                        self.phase = Phase::Stopped;
                        Action::Stop(CycleError::NumberOverflow)
                    } else {
                        self.phase = Phase::Signing { block, timestamp, nonce };
                        Action::Sign(plan_transactions(&self.params, nonce))
                    }
                } else {
                    self.unexpected_event()
                }
            },
            Event::Signed { claim, mint } => {
                match self.phase {
                    Phase::Signing { block, timestamp, nonce } => {
                        let bundle = assemble_bundle(
                            &self.params,
                            block,
                            timestamp,
                            nonce,
                            claim,
                            mint,
                        );
                        let kind = dispatch_for(self.mode, &bundle);
                        self.phase = Phase::Dispatching { kind };
                        match kind {
                            Dispatch::Send => Action::Send(bundle),
                            Dispatch::Simulate => Action::Simulate(bundle),
                            Dispatch::Skip => Action::Ignore,
                        }
                    },
                    _ => self.unexpected_event(),
                }
            },
            Event::Relay(outcome) => {
                match self.phase {
                    Phase::Dispatching { kind } => {
                        match after_dispatch(kind, outcome) {
                            AfterDispatch::Fatal => {
                                self.phase = Phase::Stopped;
                                Action::Stop(CycleError::RelayRejected)
                            },
                            AfterDispatch::Continue => {
                                self.phase = Phase::Waiting;
                                Action::WaitForBlock
                            },
                        }
                    },
                    _ => self.unexpected_event(),
                }
            },
        }
    }
}

} // verus!
