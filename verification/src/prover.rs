//! The prover: one slot for one session, and the operations that move it
//! through its phases.
//!
//! An operation that needs the engine comes as two calls. The first checks the
//! phase and hands the session out: from then on the slot is empty. The caller
//! runs the engine's exchange with it. The second call takes what the exchange
//! gave and fills the slot, or leaves it empty when the exchange failed. So a
//! session is never in the slot and with the engine at once, and a failed
//! session is never seen again.

use vstd::prelude::*;
use crate::error::{Operation, Phase, ProverError, Stage};
use crate::session::{
    ConnectOutcome, ProverState, SessionConfig, MAX_RECV_DATA, MAX_SENT_DATA, after_connect,
    after_finalize, after_reset, phase_of, wrong_state,
};

verus! {

/// A prover with its configuration and at most one session.
pub struct PyProver<S, C, N> {
    config: SessionConfig,
    inner: Option<ProverState<S, C, N>>,
}

/// What a prover is, for the contracts: its configuration and its slot.
pub struct ProverModel<S, C, N> {
    pub config: SessionConfig,
    pub slot: Option<ProverState<S, C, N>>,
}

impl<S, C, N> View for PyProver<S, C, N> {
    type V = ProverModel<S, C, N>;

    closed spec fn view(&self) -> ProverModel<S, C, N> {
        ProverModel { config: self.config, slot: self.inner }
    }
}

/// The slot and the result when a session in phase `Setup` is asked of `slot`.
pub open spec fn take_setup<S, C, N>(slot: Option<ProverState<S, C, N>>) -> (
    Option<ProverState<S, C, N>>,
    Result<S, ProverError>,
) {
    match slot {
        Some(ProverState::Setup(session)) => (None, Ok(session)),
        _ => (slot, Err(wrong_state(Operation::Connect, slot))),
    }
}

/// The slot and the result when a session in phase `Closed` is asked of `slot`.
pub open spec fn take_closed<S, C, N>(slot: Option<ProverState<S, C, N>>) -> (
    Option<ProverState<S, C, N>>,
    Result<C, ProverError>,
) {
    match slot {
        Some(ProverState::Closed(session)) => (None, Ok(session)),
        _ => (slot, Err(wrong_state(Operation::StartNotarize, slot))),
    }
}

/// The slot and the result when a session in phase `Notarizing` is asked of
/// `slot`.
pub open spec fn take_notarizing<S, C, N>(slot: Option<ProverState<S, C, N>>) -> (
    Option<ProverState<S, C, N>>,
    Result<N, ProverError>,
) {
    match slot {
        Some(ProverState::Notarizing(session)) => (None, Ok(session)),
        _ => (slot, Err(wrong_state(Operation::FinalizeNotarize, slot))),
    }
}

/// The phase of what `slot` holds.
fn found_in<S, C, N>(slot: &Option<ProverState<S, C, N>>) -> (phase: Option<Phase>)
    ensures
        phase == phase_of(*slot),
{
    match slot {
        Some(session) => Some(session.phase()),
        None => None,
    }
}

impl<S, C, N> PyProver<S, C, N> {
    /// A prover for the notary at `notary_host` and `notary_port` and for the
    /// server `server_name`, with the fixed limits on the data sent and
    /// received, without TLS towards the notary, and with no session.
    pub fn new(notary_host: String, notary_port: u16, server_name: String) -> (prover: Self)
        ensures
            prover@.slot is None,
            prover@.config == (SessionConfig {
                notary_host,
                notary_port,
                notary_tls: false,
                server_name,
                max_sent_data: MAX_SENT_DATA,
                max_recv_data: MAX_RECV_DATA,
            }),
    {
        PyProver {
            config: SessionConfig {
                notary_host,
                notary_port,
                notary_tls: false,
                server_name,
                max_sent_data: MAX_SENT_DATA,
                max_recv_data: MAX_RECV_DATA,
            },
            inner: None,
        }
    }

    /// The configuration: what every setup hands to the engine.
    pub fn config(&self) -> (config: &SessionConfig)
        ensures
            *config == self@.config,
    {
        &self.config
    }

    /// The phase of the held session; `None` when the slot is empty.
    pub fn phase(&self) -> (phase: Option<Phase>)
        ensures
            phase == phase_of(self@.slot),
    {
        found_in(&self.inner)
    }

    /// Takes what a setup gave. A session that was set up goes into the slot,
    /// in phase `Setup`, in place of whatever was there. After a failed setup
    /// the slot is empty and the error holds the cause.
    pub fn reset(&mut self, outcome: Result<S, String>) -> (r: Result<(), ProverError>)
        ensures
            (final(self)@.slot, r) == after_reset::<S, C, N>(outcome),
            final(self)@.config == old(self)@.config,
    {
        match outcome {
            Ok(session) => {
                self.inner = Some(ProverState::Setup(session));
                Ok(())
            },
            Err(cause) => {
                self.inner = None;
                Err(ProverError::Engine { stage: Stage::Setup, cause })
            },
        }
    }

    /// Begins a connect: hands out the session if it is in phase `Setup`, and
    /// leaves the slot empty. With an empty slot or a session in another phase
    /// it reports `WrongState` and changes nothing.
    pub fn begin_connect(&mut self) -> (r: Result<S, ProverError>)
        ensures
            (final(self)@.slot, r) == take_setup(old(self)@.slot),
            final(self)@.config == old(self)@.config,
    {
        match self.inner.take() {
            Some(ProverState::Setup(session)) => Ok(session),
            other => {
                let actual = found_in(&other);
                self.inner = other;
                Err(ProverError::WrongState { operation: Operation::Connect, actual })
            },
        }
    }

    /// Ends a connect with what the exchange gave. A closed session goes into
    /// the slot, in phase `Closed`. Otherwise the slot is empty, and the error
    /// tells a lookup without an address from a failure of the exchange.
    pub fn finish_connect(&mut self, outcome: ConnectOutcome<C>) -> (r: Result<(), ProverError>)
        ensures
            (final(self)@.slot, r) == after_connect::<S, C, N>(outcome),
            final(self)@.config == old(self)@.config,
    {
        match outcome {
            ConnectOutcome::Connected(session) => {
                self.inner = Some(ProverState::Closed(session));
                Ok(())
            },
            ConnectOutcome::Unresolved { cause } => {
                self.inner = None;
                Err(ProverError::AddressResolution { cause })
            },
            ConnectOutcome::Failed { cause } => {
                self.inner = None;
                Err(ProverError::Engine { stage: Stage::Connect, cause })
            },
        }
    }

    /// Begins the step into the attestation: hands out the session if it is in
    /// phase `Closed`, and leaves the slot empty. With an empty slot or a
    /// session in another phase it reports `WrongState` and changes nothing.
    pub fn begin_start_notarize(&mut self) -> (r: Result<C, ProverError>)
        ensures
            (final(self)@.slot, r) == take_closed(old(self)@.slot),
            final(self)@.config == old(self)@.config,
    {
        match self.inner.take() {
            Some(ProverState::Closed(session)) => Ok(session),
            other => {
                let actual = found_in(&other);
                self.inner = other;
                Err(ProverError::WrongState { operation: Operation::StartNotarize, actual })
            },
        }
    }

    /// Ends the step into the attestation: the session that the engine made of
    /// the closed one goes into the slot, in phase `Notarizing`. The step
    /// cannot fail.
    pub fn finish_start_notarize(&mut self, session: N)
        ensures
            final(self)@.slot == Some(ProverState::<S, C, N>::Notarizing(session)),
            final(self)@.config == old(self)@.config,
    {
        self.inner = Some(ProverState::Notarizing(session));
    }

    /// Begins the finalization: hands out the session if it is in phase
    /// `Notarizing`, and leaves the slot empty. With an empty slot or a session
    /// in another phase it reports `WrongState` and changes nothing.
    pub fn begin_finalize_notarize(&mut self) -> (r: Result<N, ProverError>)
        ensures
            (final(self)@.slot, r) == take_notarizing(old(self)@.slot),
            final(self)@.config == old(self)@.config,
    {
        match self.inner.take() {
            Some(ProverState::Notarizing(session)) => Ok(session),
            other => {
                let actual = found_in(&other);
                self.inner = other;
                Err(ProverError::WrongState { operation: Operation::FinalizeNotarize, actual })
            },
        }
    }

    /// Ends a finalization that gave `attestation`, with what the setup after
    /// it gave. With a new session the slot is in phase `Setup` again and the
    /// attestation is returned. After a failed setup the slot is empty, the
    /// attestation is dropped and the error is `Reinitialize`.
    pub fn finish_finalize_notarize(
        &mut self,
        attestation: Vec<u8>,
        setup: Result<S, String>,
    ) -> (r: Result<Vec<u8>, ProverError>)
        ensures
            (final(self)@.slot, r) == after_finalize::<S, C, N>(attestation, setup),
            final(self)@.config == old(self)@.config,
    {
        match setup {
            Ok(session) => {
                self.inner = Some(ProverState::Setup(session));
                Ok(attestation)
            },
            Err(cause) => {
                self.inner = None;
                Err(ProverError::Reinitialize { cause })
            },
        }
    }
}

} // verus!
