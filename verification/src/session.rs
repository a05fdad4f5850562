//! The session that a prover holds, and what the engine's exchanges hand back.
//!
//! The engine's handles are type parameters: `S` for a session that is set up,
//! `C` for one whose exchange with the server is closed, `N` for one that is
//! notarizing. The library moves them and never looks inside.

use vstd::prelude::*;
use crate::error::{Operation, Phase, ProverError, Stage};

verus! {

/// The number of bytes that a session may send to the server.
pub const MAX_SENT_DATA: usize = 10000;

/// The number of bytes that a session may receive from the server.
pub const MAX_RECV_DATA: usize = 10000;

/// What a prover is made with, and what each setup hands to the engine.
#[derive(Clone, Debug, PartialEq, Eq)]
pub struct SessionConfig {
    pub notary_host: String,
    pub notary_port: u16,
    /// Whether the connection to the notary uses TLS.
    pub notary_tls: bool,
    /// The name of the server that the session will talk to.
    pub server_name: String,
    pub max_sent_data: usize,
    pub max_recv_data: usize,
}

/// A session in one of its three phases, with the engine's handle for it.
#[derive(Debug)]
pub enum ProverState<S, C, N> {
    Setup(S),
    Closed(C),
    Notarizing(N),
}

impl<S, C, N> ProverState<S, C, N> {
    /// The phase of the session.
    pub open spec fn spec_phase(&self) -> Phase {
        match self {
            ProverState::Setup(_) => Phase::Setup,
            ProverState::Closed(_) => Phase::Closed,
            ProverState::Notarizing(_) => Phase::Notarizing,
        }
    }

    /// The phase of the session.
    #[verifier::when_used_as_spec(spec_phase)]
    pub fn phase(&self) -> (r: Phase)
        ensures
            r == self.spec_phase(),
    {
        match self {
            ProverState::Setup(_) => Phase::Setup,
            ProverState::Closed(_) => Phase::Closed,
            ProverState::Notarizing(_) => Phase::Notarizing,
        }
    }
}

/// The phase of what a slot holds; `None` for an empty slot.
pub open spec fn phase_of<S, C, N>(slot: Option<ProverState<S, C, N>>) -> Option<Phase> {
    match slot {
        Some(session) => Some(session.phase()),
        None => None,
    }
}

/// What `operation` reports when `slot` does not hold a session in the phase
/// that it needs.
pub open spec fn wrong_state<S, C, N>(
    operation: Operation,
    slot: Option<ProverState<S, C, N>>,
) -> ProverError {
    ProverError::WrongState { operation, actual: phase_of(slot) }
}

/// How the exchange with the target server ended.
#[derive(Debug)]
pub enum ConnectOutcome<C> {
    /// The host and port gave no address to connect to.
    Unresolved { cause: String },
    /// An address was found, and the transport or the engine failed after that.
    Failed { cause: String },
    /// The exchange ran to its end.
    Connected(C),
}

/// How the finalization ended.
#[derive(Clone, Debug, PartialEq, Eq)]
pub enum FinalizeOutcome {
    /// The engine failed.
    Failed { cause: String },
    /// The engine gave an attestation, which could not be encoded.
    Unserializable { cause: String },
    /// The encoded attestation.
    Attested(Vec<u8>),
}

/// The address that a connection goes to: the first of the candidates that the
/// lookup gave, and no other.
pub open spec fn first_address<A>(lookup: Result<Vec<A>, String>) -> Result<A, Seq<char>> {
    match lookup {
        Ok(candidates) => if candidates@.len() > 0 {
            Ok(candidates@[0])
        } else {
            Err("Invalid server address"@)
        },
        Err(cause) => Err(cause@),
    }
}

/// Picks the address to connect to from what a lookup of host and port gave.
/// The first candidate is taken and the others are dropped. A failed lookup
/// keeps its cause; a lookup without a candidate gets one.
pub fn select_address<A>(lookup: Result<Vec<A>, String>) -> (r: Result<A, String>)
    ensures
        match first_address(lookup) {
            Ok(address) => r == Ok::<A, String>(address),
            Err(cause) => r is Err && r->Err_0@ == cause,
        },
{
    match lookup {
        Ok(mut candidates) => {
            if candidates.len() > 0 {
                Ok(candidates.swap_remove(0))
            } else {
                Err("Invalid server address".to_owned())
            }
        },
        Err(cause) => Err(cause),
    }
}

/// The slot and the result after a setup that ended with `outcome`.
pub open spec fn after_reset<S, C, N>(outcome: Result<S, String>) -> (
    Option<ProverState<S, C, N>>,
    Result<(), ProverError>,
) {
    match outcome {
        Ok(session) => (Some(ProverState::Setup(session)), Ok(())),
        Err(cause) => (None, Err(ProverError::Engine { stage: Stage::Setup, cause })),
    }
}

/// The slot and the result after a connect exchange that ended with `outcome`.
pub open spec fn after_connect<S, C, N>(outcome: ConnectOutcome<C>) -> (
    Option<ProverState<S, C, N>>,
    Result<(), ProverError>,
) {
    match outcome {
        ConnectOutcome::Connected(session) => (Some(ProverState::Closed(session)), Ok(())),
        ConnectOutcome::Unresolved { cause } => (
            None,
            Err(ProverError::AddressResolution { cause }),
        ),
        ConnectOutcome::Failed { cause } => (
            None,
            Err(ProverError::Engine { stage: Stage::Connect, cause }),
        ),
    }
}

/// What a finalization that ended with `outcome` gives: the attestation, or
/// the error that ends the operation there.
pub open spec fn attested(outcome: FinalizeOutcome) -> Result<Vec<u8>, ProverError> {
    match outcome {
        FinalizeOutcome::Attested(attestation) => Ok(attestation),
        FinalizeOutcome::Failed { cause } => Err(
            ProverError::Engine { stage: Stage::Finalize, cause },
        ),
        FinalizeOutcome::Unserializable { cause } => Err(ProverError::Serialization { cause }),
    }
}

/// The slot and the result after the setup that follows a finalization, which
/// gave `attestation`, ended with `setup`.
pub open spec fn after_finalize<S, C, N>(attestation: Vec<u8>, setup: Result<S, String>) -> (
    Option<ProverState<S, C, N>>,
    Result<Vec<u8>, ProverError>,
) {
    match setup {
        Ok(session) => (Some(ProverState::Setup(session)), Ok(attestation)),
        Err(cause) => (None, Err(ProverError::Reinitialize { cause })),
    }
}

impl FinalizeOutcome {
    /// Tells whether the operation goes on after the finalization: `Ok` with
    /// the attestation when there is one, and then a setup follows; else the
    /// error to report, and no setup is made.
    pub fn into_attestation(self) -> (r: Result<Vec<u8>, ProverError>)
        ensures
            r == attested(self),
    {
        match self {
            FinalizeOutcome::Attested(attestation) => Ok(attestation),
            FinalizeOutcome::Failed { cause } => Err(
                ProverError::Engine { stage: Stage::Finalize, cause },
            ),
            FinalizeOutcome::Unserializable { cause } => Err(
                ProverError::Serialization { cause },
            ),
        }
    }
}

} // verus!
