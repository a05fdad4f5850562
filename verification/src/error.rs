//! Phases, operations and the errors that the session operations report.

use vstd::prelude::*;
use vstd::string::StringExecFns;

verus! {

/// The phase that a held session is in.
#[derive(Clone, Copy, Debug, PartialEq, Eq, Structural)]
pub enum Phase {
    /// Connected to the notary, not yet to the target server.
    Setup,
    /// The exchange with the target server is over.
    Closed,
    /// The attestation is under way; what is left is to finalize it.
    Notarizing,
}

/// The operations that take the held session and need it in one phase.
#[derive(Clone, Copy, Debug, PartialEq, Eq, Structural)]
pub enum Operation {
    Connect,
    StartNotarize,
    FinalizeNotarize,
}

impl Operation {
    /// The phase in which the operation needs the held session.
    pub open spec fn required(self) -> Phase {
        match self {
            Operation::Connect => Phase::Setup,
            Operation::StartNotarize => Phase::Closed,
            Operation::FinalizeNotarize => Phase::Notarizing,
        }
    }

    /// The phase in which the operation needs the held session.
    pub fn required_phase(self) -> (r: Phase)
        ensures
            r == self.required(),
    {
        match self {
            Operation::Connect => Phase::Setup,
            Operation::StartNotarize => Phase::Closed,
            Operation::FinalizeNotarize => Phase::Notarizing,
        }
    }
}

/// The exchange with the notarization engine during which a failure came.
#[derive(Clone, Copy, Debug, PartialEq, Eq, Structural)]
pub enum Stage {
    Setup,
    Connect,
    Finalize,
}

/// What a session operation reports when it fails.
#[derive(Clone, Debug, PartialEq, Eq)]
pub enum ProverError {
    /// The operation was called with no session held, or with one in another
    /// phase than the one it needs. `actual` is the phase found.
    WrongState { operation: Operation, actual: Option<Phase> },
    /// The target host and port gave no usable address.
    AddressResolution { cause: String },
    /// The engine failed during one of its exchanges.
    Engine { stage: Stage, cause: String },
    /// The attestation could not be encoded to bytes.
    Serialization { cause: String },
    /// The attestation was finalized, but the setup that follows it failed.
    Reinitialize { cause: String },
}

impl ProverError {
    /// The fixed part of the message: all of it for `WrongState`, and what
    /// stands before the cause for the others. `Reinitialize` quotes the
    /// message of the failed setup under the name `RuntimeError`, as a caller
    /// that raises a prover's errors under that name shows it.
    pub open spec fn headline(self) -> Seq<char> {
        match self {
            ProverError::WrongState { operation, .. } => match operation.required() {
                Phase::Setup => "No setup prover available"@,
                Phase::Closed => "No closed prover available"@,
                Phase::Notarizing => "No notarize prover available"@,
            },
            ProverError::AddressResolution { .. } => "Connect failed: "@,
            ProverError::Engine { stage, .. } => match stage {
                Stage::Setup => "Setup failed: "@,
                Stage::Connect => "Connect failed: "@,
                Stage::Finalize => "Finalization failed: "@,
            },
            ProverError::Serialization { .. } => "Finalization failed: "@,
            ProverError::Reinitialize { .. } =>
                "Reset failed after finalize: RuntimeError: Setup failed: "@,
        }
    }

    /// The cause that the error carries; empty for `WrongState`.
    pub open spec fn detail(self) -> Seq<char> {
        match self {
            ProverError::WrongState { .. } => Seq::empty(),
            ProverError::AddressResolution { cause } => cause@,
            ProverError::Engine { cause, .. } => cause@,
            ProverError::Serialization { cause } => cause@,
            ProverError::Reinitialize { cause } => cause@,
        }
    }

    /// The text of the error: the headline, then the cause.
    pub open spec fn text(self) -> Seq<char> {
        self.headline() + self.detail()
    }

    /// The phase that the failed operation needed, for `WrongState`.
    pub fn required(&self) -> (r: Option<Phase>)
        ensures
            r == match *self {
                ProverError::WrongState { operation, .. } => Some(operation.required()),
                _ => None,
            },
    {
        match self {
            ProverError::WrongState { operation, .. } => Some(operation.required_phase()),
            _ => None,
        }
    }

    /// The text of the error, as one string.
    pub fn message(&self) -> (r: String)
        ensures
            r@ == self.text(),
    {
        match self {
            ProverError::WrongState { operation, .. } => {
                let text = match operation.required_phase() {
                    Phase::Setup => String::from_str("No setup prover available"),
                    Phase::Closed => String::from_str("No closed prover available"),
                    Phase::Notarizing => String::from_str("No notarize prover available"),
                };
                assert(text@ + Seq::<char>::empty() =~= text@);
                text
            },
            ProverError::AddressResolution { cause } => {
                String::from_str("Connect failed: ").concat(cause.as_str())
            },
            ProverError::Engine { stage, cause } => {
                let head = match stage {
                    Stage::Setup => String::from_str("Setup failed: "),
                    Stage::Connect => String::from_str("Connect failed: "),
                    Stage::Finalize => String::from_str("Finalization failed: "),
                };
                head.concat(cause.as_str())
            },
            ProverError::Serialization { cause } => {
                String::from_str("Finalization failed: ").concat(cause.as_str())
            },
            ProverError::Reinitialize { cause } => {
                String::from_str(
                    "Reset failed after finalize: RuntimeError: Setup failed: ",
                ).concat(cause.as_str())
            },
        }
    }
}

} // verus!
