//! Orchestration of a TLS notarization: a prover that takes one session at a
//! time through its phases, and a notary service that is started and stopped.
//!
//! The library holds the state and decides; the caller does the network work.
//! A prover's session is in one of the phases `Setup`, `Closed` and
//! `Notarizing`, and each operation takes it from one phase to the next or
//! loses it. An operation that needs the notarization engine is made of two
//! calls: one that hands out what the engine needs, and one that takes what the
//! engine gave. The notary keeps the sending half of a shutdown signal and the
//! handle of the service task, and sends the signal when it is stopped.

pub mod error;
pub mod notary;
pub mod protocol;
pub mod prover;
pub mod service;
pub mod session;

pub use error::{Operation, Phase, ProverError, Stage};
pub use notary::{PyNotary, Signal, StopOutcome};
pub use prover::PyProver;
pub use service::{LifecycleError, Notice, RaceOutcome, ServiceConfig, Stream};
pub use session::{select_address, ConnectOutcome, FinalizeOutcome, ProverState, SessionConfig};
