//! The notary: the configuration of a service, and the two handles by which a
//! running service task is told to stop and is waited for.
//!
//! The caller owns the runtime. To start, it takes the receiving half of a new
//! shutdown signal from `begin_start`, spawns the task that races the signal
//! against the service, and gives the task's handle to `finish_start`. To stop,
//! it calls `stop`, which sends the signal, and waits for the task that `stop`
//! hands back.

use vstd::prelude::*;
use tokio::sync::oneshot::{Receiver, Sender};
use tokio::task::JoinHandle;
use crate::service::ServiceConfig;

verus! {

/// The sending half of a `tokio` one-shot channel. Nothing is known of its
/// inside.
#[verifier::external_type_specification]
#[verifier::external_body]
#[verifier::reject_recursive_types(T)]
pub struct ExSender<T>(tokio::sync::oneshot::Sender<T>);

/// The receiving half of a `tokio` one-shot channel. Nothing is known of its
/// inside.
#[verifier::external_type_specification]
#[verifier::external_body]
#[verifier::reject_recursive_types(T)]
pub struct ExReceiver<T>(tokio::sync::oneshot::Receiver<T>);

/// The handle of a task spawned on a `tokio` runtime. Nothing is known of its
/// inside.
#[verifier::external_type_specification]
#[verifier::external_body]
#[verifier::reject_recursive_types(T)]
pub struct ExJoinHandle<T>(tokio::task::JoinHandle<T>);

/// What awaiting the receiving half gives when the sender was dropped. It is
/// declared because the receiving half names it; the library never holds one.
#[verifier::external_type_specification]
#[verifier::external_body]
pub struct ExRecvError(tokio::sync::oneshot::error::RecvError);

/// What awaiting a task's handle gives when the task did not end well. It is
/// declared because the handle names it; the library never holds one.
#[verifier::external_type_specification]
#[verifier::external_body]
pub struct ExJoinError(tokio::task::JoinError);

/// `tokio::sync::oneshot::channel` makes the two halves of a new channel. It
/// takes nothing and cannot fail; nothing is claimed of the halves.
pub assume_specification<T>[ tokio::sync::oneshot::channel::<T> ]() -> (halves: (
    Sender<T>,
    Receiver<T>,
));

/// `tokio::sync::oneshot::Sender::send` uses the sender up and does not wait.
/// When the value could not be handed over, because the receiving half is gone,
/// the value comes back in `Err`. Whether it could depends on the other half,
/// so nothing more is claimed.
pub assume_specification<T>[ tokio::sync::oneshot::Sender::<T>::send ](
    tx: Sender<T>,
    t: T,
) -> (r: Result<(), T>)
    ensures
        r matches Err(back) ==> back == t,
;

/// What became of the shutdown signal in a stop.
#[derive(Clone, Copy, Debug, PartialEq, Eq, Structural)]
pub enum Signal {
    /// There was no signal to send: the service was not started, or it was
    /// stopped before.
    Absent,
    /// The signal was handed to the task.
    Sent,
    /// The task had dropped its half before: it had ended by itself.
    Unheard,
}

/// What a stop hands back.
pub struct StopOutcome {
    pub signal: Signal,
    /// The task to wait for, if one was running.
    pub task: Option<JoinHandle<()>>,
}

/// A notary service that can be started and stopped.
pub struct PyNotary {
    config: ServiceConfig,
    server_handle: Option<JoinHandle<()>>,
    shutdown_tx: Option<Sender<()>>,
}

/// What a notary is, for the contracts.
pub struct NotaryModel {
    pub config: ServiceConfig,
    /// The handle of the task that runs the service.
    pub server_handle: Option<JoinHandle<()>>,
    /// The sending half of the shutdown signal that was not sent yet.
    pub shutdown_tx: Option<Sender<()>>,
}

impl NotaryModel {
    /// No signal is outstanding and no task is held: the state before any
    /// start and after every stop.
    pub open spec fn is_idle(self) -> bool {
        self.shutdown_tx is None && self.server_handle is None
    }

    /// The state after a stop: idle, with the same configuration.
    pub open spec fn stopped(self) -> NotaryModel {
        NotaryModel { config: self.config, server_handle: None, shutdown_tx: None }
    }

    /// The state after the sending half of a new shutdown signal was stored.
    pub open spec fn armed(self, shutdown_tx: Sender<()>) -> NotaryModel {
        NotaryModel { shutdown_tx: Some(shutdown_tx), ..self }
    }

    /// The state after the handle of a spawned task was stored.
    pub open spec fn running(self, handle: JoinHandle<()>) -> NotaryModel {
        NotaryModel { server_handle: Some(handle), ..self }
    }
}

impl View for PyNotary {
    type V = NotaryModel;

    closed spec fn view(&self) -> NotaryModel {
        NotaryModel {
            config: self.config,
            server_handle: self.server_handle,
            shutdown_tx: self.shutdown_tx,
        }
    }
}

impl PyNotary {
    /// A notary for a service with the given address, limits, TLS files and
    /// signing keys. The other settings are fixed. Nothing runs yet.
    pub fn new(
        host: String,
        port: u16,
        max_sent_data: usize,
        max_recv_data: usize,
        timeout_seconds: u64,
        tls_enabled: bool,
        tls_cert_path: Option<String>,
        tls_key_path: Option<String>,
        notary_key_path: String,
        notary_pub_key_path: String,
    ) -> (notary: Self)
        ensures
            notary@.is_idle(),
            notary@.config.has_fixed_settings(),
            notary@.config.host == host,
            notary@.config.port == port,
            notary@.config.max_sent_data == max_sent_data,
            notary@.config.max_recv_data == max_recv_data,
            notary@.config.timeout == timeout_seconds,
            notary@.config.tls_enabled == tls_enabled,
            notary@.config.tls_certificate_pem_path == tls_cert_path,
            notary@.config.tls_private_key_pem_path == tls_key_path,
            notary@.config.notary_private_key_pem_path == notary_key_path,
            notary@.config.notary_public_key_pem_path == notary_pub_key_path,
    {
        let config = ServiceConfig {
            name: "PyNotary".to_owned(),
            host,
            port,
            html_info: String::new(),
            max_sent_data,
            max_recv_data,
            timeout: timeout_seconds,
            tls_enabled,
            tls_private_key_pem_path: tls_key_path,
            tls_certificate_pem_path: tls_cert_path,
            notary_private_key_pem_path: notary_key_path,
            notary_public_key_pem_path: notary_pub_key_path,
            logging_level: "info".to_owned(),
            logging_filter: None,
            authorization_enabled: false,
            authorization_whitelist_csv_path: None,
        };
        PyNotary { config, server_handle: None, shutdown_tx: None }
    }

    /// The configuration of the service.
    pub fn config(&self) -> (config: &ServiceConfig)
        ensures
            *config == self@.config,
    {
        &self.config
    }

    /// Whether a shutdown signal is outstanding: made by a start and not yet
    /// sent by a stop.
    pub fn is_armed(&self) -> (armed: bool)
        ensures
            armed == self@.shutdown_tx is Some,
    {
        self.shutdown_tx.is_some()
    }

    /// Whether the handle of a service task is held.
    pub fn has_task(&self) -> (held: bool)
        ensures
            held == self@.server_handle is Some,
    {
        self.server_handle.is_some()
    }

    /// Begins a start: makes a new shutdown signal, keeps its sending half and
    /// hands out the receiving half for the task to race against the service.
    /// A sending half kept from an earlier start is dropped.
    pub fn begin_start(&mut self) -> (shutdown_rx: Receiver<()>)
        ensures
            final(self)@.shutdown_tx is Some,
            final(self)@ == old(self)@.armed(final(self)@.shutdown_tx->0),
    {
        let (shutdown_tx, shutdown_rx) = tokio::sync::oneshot::channel::<()>();
        self.shutdown_tx = Some(shutdown_tx);
        shutdown_rx
    }

    /// Ends a start: keeps the handle of the task that was spawned. A handle
    /// kept from an earlier start is dropped, and its task goes on unwatched.
    pub fn finish_start(&mut self, handle: JoinHandle<()>)
        ensures
            final(self)@ == old(self)@.running(handle),
    {
        self.server_handle = Some(handle);
    }

    /// Stops: sends the shutdown signal if one is outstanding, and hands back
    /// the task to wait for, if one is held. After it the notary is idle. With
    /// nothing to send and nothing to wait for it changes nothing.
    pub fn stop(&mut self) -> (outcome: StopOutcome)
        ensures
            final(self)@ == old(self)@.stopped(),
            outcome.task == old(self)@.server_handle,
            outcome.signal is Absent <==> old(self)@.shutdown_tx is None,
    {
        let signal = match self.shutdown_tx.take() {
            Some(tx) => match tx.send(()) {
                Ok(_) => Signal::Sent,
                Err(_) => Signal::Unheard,
            },
            None => Signal::Absent,
        };
        StopOutcome { signal, task: self.server_handle.take() }
    }
}

/// A stop of a notary that is idle, as every new notary is, leaves it as it
/// was.
pub proof fn lemma_stop_when_idle(notary: NotaryModel)
    requires
        notary.is_idle(),
    ensures
        notary.stopped() == notary,
{
}

/// After a stop a notary is idle, whatever it was before, so that a second
/// stop changes nothing.
pub proof fn lemma_stopped_is_idle(notary: NotaryModel)
    ensures
        notary.stopped().is_idle(),
        notary.stopped().stopped() == notary.stopped(),
{
}

/// After a start, the notary holds the signal that the start made and the
/// task that was spawned: a stop sends the one and hands back the other.
/// After that stop the notary is idle again, with the configuration it had.
pub proof fn lemma_stop_after_start(
    notary: NotaryModel,
    shutdown_tx: Sender<()>,
    handle: JoinHandle<()>,
)
    ensures
        ({
            let started = notary.armed(shutdown_tx).running(handle);
            &&& started.shutdown_tx == Some(shutdown_tx)
            &&& started.server_handle == Some(handle)
            &&& started.stopped().is_idle()
            &&& started.stopped().config == notary.config
        }),
{
}

} // verus!
