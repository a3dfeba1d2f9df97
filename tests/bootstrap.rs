use ismp::host::StateMachine;
use relayer::bootstrap::{challenge_period, Action, Mode, Phase, RelayerSettings, Session};
use relayer::command::{SetConsensusState, Subcommand};
use relayer::consensus::{log_line, normalize, ConsensusState};
use relayer::error::BootstrapError;
use relayer::registry::ClientRegistry;

fn registry_of(ids: &[StateMachine]) -> ClientRegistry<u32> {
    let configured: Vec<(StateMachine, Result<u32, String>)> =
        ids.iter().enumerate().map(|(i, id)| (*id, Ok(i as u32))).collect();
    ClientRegistry::build(configured).unwrap()
}

fn state(payload: Vec<u8>, periods: Vec<(StateMachine, u64)>) -> ConsensusState {
    ConsensusState { consensus_state: payload, challenge_periods: periods }
}

#[test]
fn build_registers_every_configured_chain() {
    let ids = [StateMachine::Evm(1), StateMachine::Polkadot(3367), StateMachine::Substrate(*b"hybr")];
    let reg = registry_of(&ids);
    assert_eq!(reg.get(&StateMachine::Evm(1)), Some(&0));
    assert_eq!(reg.get(&StateMachine::Polkadot(3367)), Some(&1));
    assert_eq!(reg.get(&StateMachine::Substrate(*b"hybr")), Some(&2));
    assert_eq!(reg.get(&StateMachine::Evm(2)), None);
    assert_eq!(reg.get(&StateMachine::Kusama(3367)), None);
}

#[test]
fn build_of_nothing_is_empty() {
    let reg: ClientRegistry<u32> = ClientRegistry::build(Vec::new()).unwrap();
    assert_eq!(reg.get(&StateMachine::Evm(1)), None);
}

#[test]
fn build_later_entry_replaces_earlier() {
    let configured = vec![(StateMachine::Evm(1), Ok(7u32)), (StateMachine::Evm(1), Ok(9u32))];
    let reg = ClientRegistry::build(configured).unwrap();
    assert_eq!(reg.get(&StateMachine::Evm(1)), Some(&9));
}

#[test]
fn build_fails_on_first_construction_failure() {
    let configured = vec![
        (StateMachine::Evm(1), Ok(1u32)),
        (StateMachine::Evm(2), Err("no rpc".to_string())),
        (StateMachine::Evm(3), Err("bad key".to_string())),
    ];
    let r = ClientRegistry::build(configured);
    assert_eq!(
        r.err(),
        Some(BootstrapError::ClientConstructionFailed(StateMachine::Evm(2), "no rpc".to_string()))
    );
}

#[test]
fn insert_replaces_existing_client() {
    let mut reg = registry_of(&[StateMachine::Evm(1)]);
    reg.insert(StateMachine::Evm(1), 42);
    reg.insert(StateMachine::Evm(5), 43);
    assert_eq!(reg.get(&StateMachine::Evm(1)), Some(&42));
    assert_eq!(reg.get(&StateMachine::Evm(5)), Some(&43));
}

#[test]
fn locate_absent_is_client_not_found() {
    let reg = registry_of(&[StateMachine::Evm(1)]);
    let r = reg.locate(&StateMachine::Evm(97), "EVM-97");
    assert_eq!(r.err(), Some(BootstrapError::ClientNotFound("EVM-97".to_string())));
    assert_eq!(reg.locate(&StateMachine::Evm(1), "EVM-1"), Ok(&0));
}

#[test]
fn normalize_overwrites_every_period() {
    let a = StateMachine::Evm(1);
    let b = StateMachine::Polkadot(2000);
    let fetched = state(vec![0xde, 0xad, 0xbe, 0xef], vec![(a, 0), (b, 120)]);
    let n = normalize(fetched, 600);
    assert_eq!(n.challenge_periods, vec![(a, 600), (b, 600)]);
    assert_eq!(n.consensus_state, vec![0xde, 0xad, 0xbe, 0xef]);
}

#[test]
fn normalize_without_counterparties() {
    let n = normalize(state(vec![1], Vec::new()), 600);
    assert!(n.challenge_periods.is_empty());
    assert_eq!(n.consensus_state, vec![1]);
}

#[test]
fn normalize_to_zero() {
    let a = StateMachine::Kusama(1000);
    let n = normalize(state(Vec::new(), vec![(a, 3600)]), 0);
    assert_eq!(n.challenge_periods, vec![(a, 0)]);
}

#[test]
fn log_line_is_lowercase_hex_of_payload() {
    let s = state(vec![0x00, 0x01, 0x0f, 0x10, 0xab, 0xff], vec![(StateMachine::Evm(1), 5)]);
    assert_eq!(log_line(&s), "ConsensusState: 00010f10abff");
    assert_eq!(log_line(&state(Vec::new(), Vec::new())), "ConsensusState: ");
}

#[test]
fn log_line_twice_is_identical() {
    let s = state(vec![9, 8, 7], vec![(StateMachine::Evm(1), 5)]);
    let first = log_line(&s);
    let second = log_line(&state(vec![9, 8, 7], vec![(StateMachine::Evm(1), 999)]));
    assert_eq!(first, second);
    assert_eq!(first, "ConsensusState: 090807");
}

#[test]
fn challenge_period_defaults_to_zero() {
    assert_eq!(challenge_period(None), 0);
    assert_eq!(challenge_period(Some(RelayerSettings { challenge_period: None })), 0);
    assert_eq!(challenge_period(Some(RelayerSettings { challenge_period: Some(600) })), 600);
}

#[test]
fn start_rejects_unknown_identifier() {
    let r = Session::start(Mode::SetState, "NOT-A-CHAIN", 0);
    assert_eq!(r.err(), Some(BootstrapError::InvalidIdentifier("NOT-A-CHAIN".to_string())));
}

#[test]
fn unknown_four_letter_name_is_invalid() {
    let r = Session::start(Mode::LogState, "ETHE", 0);
    assert_eq!(r.err(), Some(BootstrapError::InvalidIdentifier("ETHE".to_string())));
}

#[test]
fn start_parses_identifier() {
    let s = Session::start(Mode::LogState, "POLKADOT-3367", 60).unwrap();
    assert_eq!(s.target, StateMachine::Polkadot(3367));
    assert_eq!(s.target_text, "POLKADOT-3367");
    assert_eq!(s.challenge_period, 60);
    assert_eq!(s.phase(), Phase::AwaitingRegistry);
}

#[test]
fn unconfigured_chain_is_client_not_found() {
    let reg = registry_of(&[StateMachine::Polkadot(3367)]);
    let mut s = Session::start(Mode::SetState, "EVM-1", 600).unwrap();
    let r = s.locate(&reg);
    assert_eq!(r.err(), Some(BootstrapError::ClientNotFound("EVM-1".to_string())));
    assert_eq!(s.phase(), Phase::Finished);
}

#[test]
fn absent_consensus_state_is_reported() {
    let reg = registry_of(&[StateMachine::Evm(1)]);
    let mut s = Session::start(Mode::SetState, "EVM-1", 600).unwrap();
    assert_eq!(s.locate(&reg), Ok(&0));
    assert_eq!(s.phase(), Phase::AwaitingFetch);
    let a = s.on_fetched(Ok(None));
    assert_eq!(a, Action::Abort(BootstrapError::NoConsensusState("EVM-1".to_string())));
    assert_eq!(s.phase(), Phase::Finished);
}

#[test]
fn failed_query_submits_nothing() {
    let reg = registry_of(&[StateMachine::Evm(1)]);
    let mut s = Session::start(Mode::SetState, "EVM-1", 600).unwrap();
    s.locate(&reg).unwrap();
    let a = s.on_fetched(Err("connection reset".to_string()));
    assert_eq!(a, Action::Abort(BootstrapError::QueryFailed("connection reset".to_string())));
    assert_eq!(s.phase(), Phase::Finished);
}

#[test]
fn set_mode_submits_normalized_state() {
    let a = StateMachine::Evm(1);
    let b = StateMachine::Evm(2);
    let reg = registry_of(&[StateMachine::Polkadot(3367)]);
    let mut s = Session::start(Mode::SetState, "POLKADOT-3367", 600).unwrap();
    s.locate(&reg).unwrap();
    let action = s.on_fetched(Ok(Some(state(vec![1, 2, 3], vec![(a, 0), (b, 120)]))));
    assert_eq!(action, Action::Submit(state(vec![1, 2, 3], vec![(a, 600), (b, 600)])));
    assert_eq!(s.phase(), Phase::AwaitingSubmission);
    assert_eq!(s.on_submitted(Ok(())), Ok(()));
    assert_eq!(s.phase(), Phase::Finished);
}

#[test]
fn rejected_submission_is_reported() {
    let reg = registry_of(&[StateMachine::Evm(1)]);
    let mut s = Session::start(Mode::SetState, "EVM-1", 0).unwrap();
    s.locate(&reg).unwrap();
    let action = s.on_fetched(Ok(Some(state(vec![5], vec![(StateMachine::Evm(2), 1)]))));
    assert!(matches!(action, Action::Submit(_)));
    let r = s.on_submitted(Err("bad origin".to_string()));
    assert_eq!(r, Err(BootstrapError::SubmissionFailed("bad origin".to_string())));
    assert_eq!(s.phase(), Phase::Finished);
}

#[test]
fn log_mode_prints_fetched_payload() {
    let a = StateMachine::Evm(1);
    let b = StateMachine::Evm(2);
    let reg = registry_of(&[StateMachine::Kusama(2000)]);
    let mut s = Session::start(Mode::LogState, "KUSAMA-2000", 600).unwrap();
    s.locate(&reg).unwrap();
    let action = s.on_fetched(Ok(Some(state(vec![0xca, 0xfe], vec![(a, 0), (b, 120)]))));
    assert_eq!(action, Action::Emit("ConsensusState: cafe".to_string()));
    assert_eq!(s.phase(), Phase::Finished);
}

#[test]
fn log_mode_registers_hub_under_its_own_id() {
    let hub = StateMachine::Polkadot(3367);
    let mut reg = registry_of(&[StateMachine::Evm(1)]);
    let mut s = Session::start(Mode::LogState, "POLKADOT-3367", 0).unwrap();
    s.add_hub_view(&mut reg, hub, 99);
    assert_eq!(reg.get(&hub), Some(&99));
    assert_eq!(s.locate(&reg), Ok(&99));
}

#[test]
fn set_mode_leaves_hub_out_of_registry() {
    let hub = StateMachine::Polkadot(3367);
    let mut reg = registry_of(&[StateMachine::Evm(1)]);
    let mut s = Session::start(Mode::SetState, "POLKADOT-3367", 0).unwrap();
    s.add_hub_view(&mut reg, hub, 99);
    assert_eq!(reg.get(&hub), None);
    assert_eq!(s.locate(&reg).err(), Some(BootstrapError::ClientNotFound("POLKADOT-3367".to_string())));
}

#[test]
fn subcommand_selects_mode() {
    let args = SetConsensusState { state_machine: "EVM-11155111".to_string() };
    let set = Subcommand::SetConsensusState(args.clone());
    let log = Subcommand::LogConsensusState(args);
    assert_eq!(set.mode(), Mode::SetState);
    assert_eq!(log.mode(), Mode::LogState);
    let s = log.start(30).unwrap();
    assert_eq!(s.mode, Mode::LogState);
    assert_eq!(s.target, StateMachine::Evm(11155111));
    assert_eq!(s.challenge_period, 30);
    let bad = Subcommand::SetConsensusState(SetConsensusState { state_machine: "EVM-x".to_string() });
    assert_eq!(bad.start(0).err(), Some(BootstrapError::InvalidIdentifier("EVM-x".to_string())));
}
