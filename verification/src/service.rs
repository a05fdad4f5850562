//! The configuration of the notary service, and what is said when the service
//! task ends.

use vstd::prelude::*;
use vstd::string::StringExecFns;

verus! {

/// The configuration that the service is started with. It is made once and not
/// changed after that.
#[derive(Clone, Debug, PartialEq, Eq)]
pub struct ServiceConfig {
    pub name: String,
    pub host: String,
    pub port: u16,
    pub html_info: String,
    pub max_sent_data: usize,
    pub max_recv_data: usize,
    /// The time that a notarization may take, in seconds.
    pub timeout: u64,
    pub tls_enabled: bool,
    pub tls_private_key_pem_path: Option<String>,
    pub tls_certificate_pem_path: Option<String>,
    pub notary_private_key_pem_path: String,
    pub notary_public_key_pem_path: String,
    pub logging_level: String,
    pub logging_filter: Option<String>,
    pub authorization_enabled: bool,
    pub authorization_whitelist_csv_path: Option<String>,
}

impl ServiceConfig {
    /// The settings that are the same for every service: its name, an empty
    /// info page, logging at level `info` without a filter, and no
    /// authorization.
    pub open spec fn has_fixed_settings(self) -> bool {
        &&& self.name@ == "PyNotary"@
        &&& self.html_info@ == Seq::<char>::empty()
        &&& self.logging_level@ == "info"@
        &&& self.logging_filter is None
        &&& !self.authorization_enabled
        &&& self.authorization_whitelist_csv_path is None
    }
}

/// How a service task failed.
#[derive(Clone, Debug, PartialEq, Eq)]
pub enum LifecycleError {
    /// The service ended with an error.
    Service { cause: String },
    /// The task that ran the service was cancelled or panicked.
    Task { cause: String },
}

/// Which of the two ends of the race came first.
#[derive(Clone, Debug, PartialEq, Eq)]
pub enum RaceOutcome {
    /// The shutdown signal came, or its sender was dropped.
    Shutdown,
    /// The service ended by itself, without an error.
    Stopped,
    /// The service ended by itself, with an error.
    Failed(LifecycleError),
}

/// Where a notice is written.
#[derive(Clone, Copy, Debug, PartialEq, Eq, Structural)]
pub enum Stream {
    Stdout,
    Stderr,
}

/// One line to write when the race is over.
#[derive(Clone, Debug, PartialEq, Eq)]
pub struct Notice {
    pub stream: Stream,
    pub text: String,
}

impl RaceOutcome {
    /// Where the end of the race is told: failures on the error stream, the
    /// rest on the output stream.
    pub open spec fn stream(self) -> Stream {
        match self {
            RaceOutcome::Failed(_) => Stream::Stderr,
            _ => Stream::Stdout,
        }
    }

    /// What is told of the end of the race.
    pub open spec fn text(self) -> Seq<char> {
        match self {
            RaceOutcome::Shutdown => "Notary server shutting down..."@,
            RaceOutcome::Stopped => "Notary server stopped normally"@,
            RaceOutcome::Failed(LifecycleError::Service { cause }) =>
                "Notary server error: "@ + cause@,
            RaceOutcome::Failed(LifecycleError::Task { cause }) =>
                "Notary server task error: "@ + cause@,
        }
    }

    /// The notice for the end of the race. A service that ends by itself is
    /// told of like a shutdown: nobody is left to return an error to.
    pub fn notice(&self) -> (notice: Notice)
        ensures
            notice.stream == self.stream(),
            notice.text@ == self.text(),
    {
        match self {
            RaceOutcome::Shutdown => Notice {
                stream: Stream::Stdout,
                text: String::from_str("Notary server shutting down..."),
            },
            RaceOutcome::Stopped => Notice {
                stream: Stream::Stdout,
                text: String::from_str("Notary server stopped normally"),
            },
            RaceOutcome::Failed(LifecycleError::Service { cause }) => Notice {
                stream: Stream::Stderr,
                text: String::from_str("Notary server error: ").concat(cause.as_str()),
            },
            RaceOutcome::Failed(LifecycleError::Task { cause }) => Notice {
                stream: Stream::Stderr,
                text: String::from_str("Notary server task error: ").concat(cause.as_str()),
            },
        }
    }
}

} // verus!
