use alpha_roller::bundle::{BundleParams, Operation, SHEEPDOG_ADDRESS, WOOLF_ADDRESS};
use alpha_roller::config::OperationMode;
use alpha_roller::cycle::{Action, CycleController, CycleError, Event, Phase};
use alpha_roller::dispatch::{Dispatch, RelayOutcome};

fn hex20(s: &str) -> [u8; 20] {
    let h = s.trim_start_matches("0x");
    let mut a = [0u8; 20];
    for i in 0..20 {
        a[i] = u8::from_str_radix(&h[2 * i..2 * i + 2], 16).unwrap();
    }
    a
}

fn signed() -> Event {
    Event::Signed { claim: vec![1, 2], mint: vec![3, 4] }
}

fn controller(mode: OperationMode) -> CycleController {
    CycleController::new(mode, BundleParams::standard())
}

#[test]
fn cycle_nonce_five_at_block_hundred() {
    let mut c = controller(OperationMode::Send);
    assert!(matches!(c.start(), Action::WaitForBlock));
    assert!(matches!(c.step(Event::BlockArrived), Action::ReadChainState));
    match c.step(Event::ChainState { block: 100, timestamp: 5000, nonce: 5 }) {
        Action::Sign(specs) => {
            assert_eq!(specs.len(), 2);
            assert_eq!(specs[0].nonce, 5);
            assert_eq!(specs[1].nonce, 6);
            assert_eq!(specs[0].target, hex20(SHEEPDOG_ADDRESS));
            assert_eq!(specs[1].target, hex20(WOOLF_ADDRESS));
        }
        other => panic!("unexpected action {:?}", other),
    }
    match c.step(signed()) {
        Action::Send(b) => {
            assert_eq!(b.simulation_block, 100);
            assert_eq!(b.target_block, 101);
            assert_eq!(b.simulation_timestamp, 5000);
            assert_eq!(b.transactions.len(), 2);
            assert_eq!(b.transactions[0].spec.nonce, 5);
            assert_eq!(b.transactions[1].spec.nonce, 6);
            assert_eq!(b.transactions[0].spec.operation, Operation::RollAlpha);
            assert_eq!(b.transactions[0].spec.target, hex20(SHEEPDOG_ADDRESS));
            assert_eq!(b.transactions[1].spec.target, hex20(WOOLF_ADDRESS));
            assert_eq!(b.transactions[0].raw, vec![1, 2]);
            assert_eq!(b.transactions[1].raw, vec![3, 4]);
        }
        other => panic!("unexpected action {:?}", other),
    }
    assert_eq!(c.phase, Phase::Dispatching { kind: Dispatch::Send });
    assert!(matches!(c.step(Event::Relay(RelayOutcome::Accepted)), Action::WaitForBlock));
    assert_eq!(c.phase, Phase::Waiting);
}

#[test]
fn simulate_failure_keeps_the_loop_going() {
    let mut c = controller(OperationMode::Simulate);
    c.step(Event::BlockArrived);
    c.step(Event::ChainState { block: 7, timestamp: 1, nonce: 0 });
    assert!(matches!(c.step(signed()), Action::Simulate(_)));
    assert!(matches!(c.step(Event::Relay(RelayOutcome::Failed)), Action::WaitForBlock));
    assert_eq!(c.phase, Phase::Waiting);
    assert!(matches!(c.step(Event::BlockArrived), Action::ReadChainState));
    match c.step(Event::ChainState { block: 8, timestamp: 2, nonce: 0 }) {
        Action::Sign(specs) => assert_eq!(specs[0].nonce, 0),
        other => panic!("unexpected action {:?}", other),
    }
}

#[test]
fn send_failure_stops_the_loop() {
    let mut c = controller(OperationMode::Send);
    c.step(Event::BlockArrived);
    c.step(Event::ChainState { block: 7, timestamp: 1, nonce: 3 });
    assert!(matches!(c.step(signed()), Action::Send(_)));
    assert!(matches!(
        c.step(Event::Relay(RelayOutcome::Failed)),
        Action::Stop(CycleError::RelayRejected)
    ));
    assert_eq!(c.phase, Phase::Stopped);
    assert!(matches!(c.step(Event::BlockArrived), Action::Ignore));
    assert_eq!(c.phase, Phase::Stopped);
}

#[test]
fn block_during_a_cycle_is_dropped() {
    let mut c = controller(OperationMode::Send);
    c.step(Event::BlockArrived);
    assert!(matches!(c.step(Event::BlockArrived), Action::Ignore));
    assert_eq!(c.phase, Phase::ReadingChain);
    c.step(Event::ChainState { block: 1, timestamp: 1, nonce: 1 });
    assert!(matches!(c.step(Event::BlockArrived), Action::Ignore));
    assert_eq!(c.phase, Phase::Signing { block: 1, timestamp: 1, nonce: 1 });
}

#[test]
fn largest_numbers_overflow() {
    let mut c = controller(OperationMode::Send);
    c.step(Event::BlockArrived);
    let a = c.step(Event::ChainState { block: u64::MAX, timestamp: 0, nonce: 0 });
    assert!(matches!(a, Action::Stop(CycleError::NumberOverflow)));
    let mut c = controller(OperationMode::Send);
    c.step(Event::BlockArrived);
    let a = c.step(Event::ChainState { block: 0, timestamp: 0, nonce: u64::MAX });
    assert!(matches!(a, Action::Stop(CycleError::NumberOverflow)));
    let mut c = controller(OperationMode::Send);
    c.step(Event::BlockArrived);
    let a = c.step(Event::ChainState { block: u64::MAX - 1, timestamp: 0, nonce: u64::MAX - 1 });
    match a {
        Action::Sign(specs) => assert_eq!(specs[1].nonce, u64::MAX),
        other => panic!("unexpected action {:?}", other),
    }
}

#[test]
fn stream_end_finishes() {
    let mut c = controller(OperationMode::Send);
    assert!(matches!(c.step(Event::StreamEnded), Action::Finish));
    assert_eq!(c.phase, Phase::Stopped);
}

#[test]
fn unexpected_events_stop() {
    let mut c = controller(OperationMode::Send);
    assert!(matches!(
        c.step(Event::Relay(RelayOutcome::Accepted)),
        Action::Stop(CycleError::UnexpectedEvent)
    ));
    let mut c = controller(OperationMode::Send);
    assert!(matches!(c.step(signed()), Action::Stop(CycleError::UnexpectedEvent)));
    let mut c = controller(OperationMode::Send);
    assert!(matches!(
        c.step(Event::ChainState { block: 1, timestamp: 1, nonce: 1 }),
        Action::Stop(CycleError::UnexpectedEvent)
    ));
    assert_eq!(c.phase, Phase::Stopped);
}

#[test]
fn many_failed_simulations_never_stop_the_loop() {
    let mut c = controller(OperationMode::Simulate);
    let mut simulations = 0;
    for i in 0..5u64 {
        assert!(matches!(c.step(Event::BlockArrived), Action::ReadChainState));
        assert!(matches!(
            c.step(Event::ChainState { block: 100 + i, timestamp: i, nonce: i }),
            Action::Sign(_)
        ));
        match c.step(signed()) {
            Action::Simulate(b) => {
                assert_eq!(b.simulation_block, 100 + i);
                assert_eq!(b.transactions[0].spec.nonce, i);
                simulations += 1;
            }
            other => panic!("unexpected action {:?}", other),
        }
        assert!(matches!(c.step(Event::Relay(RelayOutcome::Failed)), Action::WaitForBlock));
        assert_eq!(c.phase, Phase::Waiting);
    }
    assert_eq!(simulations, 5);
    assert!(matches!(c.step(Event::StreamEnded), Action::Finish));
}
