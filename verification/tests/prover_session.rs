use tlsnpy::error::{Operation, Phase, ProverError, Stage};
use tlsnpy::prover::PyProver;
use tlsnpy::session::{
    select_address, ConnectOutcome, FinalizeOutcome, ProverState, MAX_RECV_DATA, MAX_SENT_DATA,
};

/// Stand-ins for the engine's handles, one type for each phase.
#[derive(Debug, PartialEq, Eq)]
struct SetupHandle(u32);

#[derive(Debug, PartialEq, Eq)]
struct ClosedHandle(u32);

#[derive(Debug, PartialEq, Eq)]
struct NotarizingHandle(u32);

type Prover = PyProver<SetupHandle, ClosedHandle, NotarizingHandle>;

fn prover() -> Prover {
    PyProver::new("localhost".to_string(), 7047, "example.com".to_string())
}

fn prover_in_setup(id: u32) -> Prover {
    let mut prover = prover();
    assert_eq!(prover.reset(Ok(SetupHandle(id))), Ok(()));
    prover
}

fn prover_in_closed(id: u32) -> Prover {
    let mut prover = prover_in_setup(id);
    let SetupHandle(id) = prover.begin_connect().unwrap();
    assert_eq!(prover.finish_connect(ConnectOutcome::Connected(ClosedHandle(id))), Ok(()));
    prover
}

fn prover_in_notarizing(id: u32) -> Prover {
    let mut prover = prover_in_closed(id);
    let ClosedHandle(id) = prover.begin_start_notarize().unwrap();
    prover.finish_start_notarize(NotarizingHandle(id));
    prover
}

fn wrong_state(operation: Operation, actual: Option<Phase>) -> ProverError {
    ProverError::WrongState { operation, actual }
}

#[test]
fn new_prover_holds_no_session() {
    let prover = prover();
    assert_eq!(prover.phase(), None);
}

#[test]
fn new_prover_keeps_its_configuration() {
    let prover = prover();
    let config = prover.config();
    assert_eq!(config.notary_host, "localhost");
    assert_eq!(config.notary_port, 7047);
    assert!(!config.notary_tls);
    assert_eq!(config.server_name, "example.com");
    assert_eq!(config.max_sent_data, 10000);
    assert_eq!(config.max_recv_data, 10000);
    assert_eq!(MAX_SENT_DATA, 10000);
    assert_eq!(MAX_RECV_DATA, 10000);
}

#[test]
fn full_round_returns_attestation_and_ends_in_setup() {
    let mut prover = prover();

    assert_eq!(prover.reset(Ok(SetupHandle(1))), Ok(()));
    assert_eq!(prover.phase(), Some(Phase::Setup));

    let session = prover.begin_connect().unwrap();
    assert_eq!(session, SetupHandle(1));
    assert_eq!(prover.phase(), None);
    let address = select_address(Ok(vec![("example.com", 443)])).unwrap();
    assert_eq!(address, ("example.com", 443));
    assert_eq!(prover.finish_connect(ConnectOutcome::Connected(ClosedHandle(1))), Ok(()));
    assert_eq!(prover.phase(), Some(Phase::Closed));

    let session = prover.begin_start_notarize().unwrap();
    assert_eq!(session, ClosedHandle(1));
    assert_eq!(prover.phase(), None);
    prover.finish_start_notarize(NotarizingHandle(1));
    assert_eq!(prover.phase(), Some(Phase::Notarizing));

    let session = prover.begin_finalize_notarize().unwrap();
    assert_eq!(session, NotarizingHandle(1));
    assert_eq!(prover.phase(), None);
    let attestation = FinalizeOutcome::Attested(vec![0xa7, 0x7e, 0x57]).into_attestation().unwrap();
    let bytes = prover.finish_finalize_notarize(attestation, Ok(SetupHandle(2))).unwrap();
    assert!(!bytes.is_empty());
    assert_eq!(bytes, vec![0xa7, 0x7e, 0x57]);
    assert_eq!(prover.phase(), Some(Phase::Setup));

    assert_eq!(prover.begin_connect(), Ok(SetupHandle(2)));
}

#[test]
fn connect_with_empty_slot_is_wrong_state() {
    let mut prover = prover();
    assert_eq!(prover.begin_connect(), Err(wrong_state(Operation::Connect, None)));
    assert_eq!(prover.phase(), None);
}

#[test]
fn connect_in_closed_is_wrong_state_and_keeps_session() {
    let mut prover = prover_in_closed(5);
    assert_eq!(
        prover.begin_connect(),
        Err(wrong_state(Operation::Connect, Some(Phase::Closed)))
    );
    assert_eq!(prover.phase(), Some(Phase::Closed));
    assert_eq!(prover.begin_start_notarize(), Ok(ClosedHandle(5)));
}

#[test]
fn connect_in_notarizing_is_wrong_state_and_keeps_session() {
    let mut prover = prover_in_notarizing(6);
    assert_eq!(
        prover.begin_connect(),
        Err(wrong_state(Operation::Connect, Some(Phase::Notarizing)))
    );
    assert_eq!(prover.begin_finalize_notarize(), Ok(NotarizingHandle(6)));
}

#[test]
fn start_notarize_with_empty_slot_is_wrong_state() {
    let mut prover = prover();
    assert_eq!(
        prover.begin_start_notarize(),
        Err(wrong_state(Operation::StartNotarize, None))
    );
    assert_eq!(prover.phase(), None);
}

#[test]
fn start_notarize_in_setup_is_wrong_state_and_keeps_session() {
    let mut prover = prover_in_setup(7);
    assert_eq!(
        prover.begin_start_notarize(),
        Err(wrong_state(Operation::StartNotarize, Some(Phase::Setup)))
    );
    assert_eq!(prover.begin_connect(), Ok(SetupHandle(7)));
}

#[test]
fn start_notarize_in_notarizing_is_wrong_state_and_keeps_session() {
    let mut prover = prover_in_notarizing(8);
    assert_eq!(
        prover.begin_start_notarize(),
        Err(wrong_state(Operation::StartNotarize, Some(Phase::Notarizing)))
    );
    assert_eq!(prover.begin_finalize_notarize(), Ok(NotarizingHandle(8)));
}

#[test]
fn finalize_with_empty_slot_is_wrong_state() {
    let mut prover = prover();
    assert_eq!(
        prover.begin_finalize_notarize(),
        Err(wrong_state(Operation::FinalizeNotarize, None))
    );
    assert_eq!(prover.phase(), None);
}

#[test]
fn finalize_in_setup_is_wrong_state_and_keeps_session() {
    let mut prover = prover_in_setup(9);
    assert_eq!(
        prover.begin_finalize_notarize(),
        Err(wrong_state(Operation::FinalizeNotarize, Some(Phase::Setup)))
    );
    assert_eq!(prover.begin_connect(), Ok(SetupHandle(9)));
}

#[test]
fn finalize_in_closed_is_wrong_state_and_keeps_session() {
    let mut prover = prover_in_closed(10);
    assert_eq!(
        prover.begin_finalize_notarize(),
        Err(wrong_state(Operation::FinalizeNotarize, Some(Phase::Closed)))
    );
    assert_eq!(prover.begin_start_notarize(), Ok(ClosedHandle(10)));
}

#[test]
fn failed_setup_leaves_slot_empty() {
    let mut prover = prover();
    assert_eq!(
        prover.reset(Err("connection refused".to_string())),
        Err(ProverError::Engine { stage: Stage::Setup, cause: "connection refused".to_string() })
    );
    assert_eq!(prover.phase(), None);
}

#[test]
fn failed_setup_drops_the_held_session() {
    let mut prover = prover_in_closed(11);
    assert!(prover.reset(Err("notary unreachable".to_string())).is_err());
    assert_eq!(prover.phase(), None);
}

#[test]
fn setup_replaces_the_held_session() {
    let mut prover = prover_in_notarizing(12);
    assert_eq!(prover.reset(Ok(SetupHandle(13))), Ok(()));
    assert_eq!(prover.begin_connect(), Ok(SetupHandle(13)));
}

#[test]
fn failed_connect_empties_slot() {
    let mut prover = prover_in_setup(14);
    prover.begin_connect().unwrap();
    assert_eq!(
        prover.finish_connect(ConnectOutcome::Failed { cause: "reset by peer".to_string() }),
        Err(ProverError::Engine { stage: Stage::Connect, cause: "reset by peer".to_string() })
    );
    assert_eq!(prover.phase(), None);
    assert_eq!(prover.begin_connect(), Err(wrong_state(Operation::Connect, None)));
}

#[test]
fn unresolved_address_is_its_own_error() {
    let mut prover = prover_in_setup(15);
    prover.begin_connect().unwrap();
    let lookup: Result<Vec<(String, u16)>, String> =
        Err("failed to lookup address information for not-a-real-host:9999".to_string());
    let cause = select_address(lookup).unwrap_err();
    let error = prover.finish_connect(ConnectOutcome::Unresolved { cause }).unwrap_err();
    assert_eq!(
        error,
        ProverError::AddressResolution {
            cause: "failed to lookup address information for not-a-real-host:9999".to_string()
        }
    );
    assert!(!matches!(error, ProverError::Engine { .. }));
    assert_eq!(prover.phase(), None);
}

#[test]
fn select_address_takes_the_first_candidate() {
    assert_eq!(select_address(Ok(vec![30u32, 10, 20])), Ok(30));
    assert_eq!(select_address(Ok(vec![4u32])), Ok(4));
}

#[test]
fn select_address_without_candidate_fails() {
    let lookup: Result<Vec<u32>, String> = Ok(vec![]);
    assert_eq!(select_address(lookup), Err("Invalid server address".to_string()));
}

#[test]
fn select_address_keeps_the_cause_of_a_failed_lookup() {
    let lookup: Result<Vec<u32>, String> = Err("no such host".to_string());
    assert_eq!(select_address(lookup), Err("no such host".to_string()));
}

#[test]
fn failed_finalize_empties_slot_and_sets_nothing_up() {
    let mut prover = prover_in_notarizing(16);
    prover.begin_finalize_notarize().unwrap();
    let outcome = FinalizeOutcome::Failed { cause: "notary hung up".to_string() };
    assert_eq!(
        outcome.into_attestation(),
        Err(ProverError::Engine { stage: Stage::Finalize, cause: "notary hung up".to_string() })
    );
    assert_eq!(prover.phase(), None);
    assert_eq!(prover.begin_connect(), Err(wrong_state(Operation::Connect, None)));
}

#[test]
fn unserializable_attestation_is_its_own_error() {
    let outcome = FinalizeOutcome::Unserializable { cause: "size limit".to_string() };
    assert_eq!(
        outcome.into_attestation(),
        Err(ProverError::Serialization { cause: "size limit".to_string() })
    );
}

#[test]
fn attested_outcome_gives_the_bytes() {
    assert_eq!(FinalizeOutcome::Attested(vec![1, 2, 3]).into_attestation(), Ok(vec![1, 2, 3]));
    assert_eq!(FinalizeOutcome::Attested(vec![]).into_attestation(), Ok(vec![]));
}

#[test]
fn failed_setup_after_finalize_loses_the_attestation() {
    let mut prover = prover_in_notarizing(17);
    prover.begin_finalize_notarize().unwrap();
    let attestation = FinalizeOutcome::Attested(vec![9, 9]).into_attestation().unwrap();
    assert_eq!(
        prover.finish_finalize_notarize(attestation, Err("notary busy".to_string())),
        Err(ProverError::Reinitialize { cause: "notary busy".to_string() })
    );
    assert_eq!(prover.phase(), None);
}

#[test]
fn operations_need_their_phase() {
    assert_eq!(Operation::Connect.required_phase(), Phase::Setup);
    assert_eq!(Operation::StartNotarize.required_phase(), Phase::Closed);
    assert_eq!(Operation::FinalizeNotarize.required_phase(), Phase::Notarizing);
}

#[test]
fn wrong_state_tells_the_required_phase() {
    assert_eq!(wrong_state(Operation::Connect, None).required(), Some(Phase::Setup));
    assert_eq!(
        wrong_state(Operation::FinalizeNotarize, Some(Phase::Closed)).required(),
        Some(Phase::Notarizing)
    );
    assert_eq!(ProverError::Serialization { cause: String::new() }.required(), None);
}

#[test]
fn session_tells_its_phase() {
    let setup: ProverState<u8, u8, u8> = ProverState::Setup(1);
    let closed: ProverState<u8, u8, u8> = ProverState::Closed(2);
    let notarizing: ProverState<u8, u8, u8> = ProverState::Notarizing(3);
    assert_eq!(setup.phase(), Phase::Setup);
    assert_eq!(closed.phase(), Phase::Closed);
    assert_eq!(notarizing.phase(), Phase::Notarizing);
}

#[test]
fn wrong_state_messages() {
    assert_eq!(wrong_state(Operation::Connect, None).message(), "No setup prover available");
    assert_eq!(
        wrong_state(Operation::StartNotarize, Some(Phase::Setup)).message(),
        "No closed prover available"
    );
    assert_eq!(
        wrong_state(Operation::FinalizeNotarize, Some(Phase::Closed)).message(),
        "No notarize prover available"
    );
}

#[test]
fn failure_messages_carry_the_cause() {
    let cause = || "boom".to_string();
    assert_eq!(
        ProverError::Engine { stage: Stage::Setup, cause: cause() }.message(),
        "Setup failed: boom"
    );
    assert_eq!(
        ProverError::Engine { stage: Stage::Connect, cause: cause() }.message(),
        "Connect failed: boom"
    );
    assert_eq!(
        ProverError::Engine { stage: Stage::Finalize, cause: cause() }.message(),
        "Finalization failed: boom"
    );
    assert_eq!(
        ProverError::AddressResolution { cause: "Invalid server address".to_string() }.message(),
        "Connect failed: Invalid server address"
    );
    assert_eq!(
        ProverError::Serialization { cause: cause() }.message(),
        "Finalization failed: boom"
    );
    assert_eq!(
        ProverError::Reinitialize { cause: cause() }.message(),
        "Reset failed after finalize: RuntimeError: Setup failed: boom"
    );
    assert_eq!(
        ProverError::Engine { stage: Stage::Setup, cause: String::new() }.message(),
        "Setup failed: "
    );
}
