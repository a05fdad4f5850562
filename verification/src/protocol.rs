//! The four operations of a prover as wholes, and what holds of them.
//!
//! The caller of `PyProver` runs an operation as one of the `begin_` calls, the
//! engine's exchange, and the call that takes what the exchange gave. The
//! functions here put the two calls together: each gives the slot and the
//! result of an operation from the slot before it and from what the engine
//! answers when it is asked. The lemmas hold for every slot and every answer.

use vstd::prelude::*;
use crate::error::{Operation, Phase, ProverError, Stage};
use crate::prover::{take_closed, take_notarizing, take_setup};
use crate::session::{
    ConnectOutcome, FinalizeOutcome, ProverState, after_connect, after_finalize, after_reset,
    attested, phase_of,
};

verus! {

/// A setup: the engine's setup, and `PyProver::reset` with what it gave.
pub open spec fn reset<S, C, N>(
    slot: Option<ProverState<S, C, N>>,
    setup: Result<S, String>,
) -> (Option<ProverState<S, C, N>>, Result<(), ProverError>) {
    after_reset(setup)
}

/// A connect: `PyProver::begin_connect`, and where that hands a session out,
/// the exchange and `PyProver::finish_connect` with what it gave.
pub open spec fn connect<S, C, N>(
    slot: Option<ProverState<S, C, N>>,
    exchange: ConnectOutcome<C>,
) -> (Option<ProverState<S, C, N>>, Result<(), ProverError>) {
    match take_setup(slot).1 {
        Ok(_) => after_connect(exchange),
        Err(error) => (take_setup(slot).0, Err(error)),
    }
}

/// The step into the attestation: `PyProver::begin_start_notarize`, and where
/// that hands a session out, the engine's step and
/// `PyProver::finish_start_notarize` with the session it gave.
pub open spec fn start_notarize<S, C, N>(
    slot: Option<ProverState<S, C, N>>,
    promoted: N,
) -> (Option<ProverState<S, C, N>>, Result<(), ProverError>) {
    match take_closed(slot).1 {
        Ok(_) => (Some(ProverState::Notarizing(promoted)), Ok(())),
        Err(error) => (take_closed(slot).0, Err(error)),
    }
}

/// A finalization: `PyProver::begin_finalize_notarize`; where that hands a
/// session out, the engine's finalization and
/// `FinalizeOutcome::into_attestation`; and where that gives an attestation, a
/// setup and `PyProver::finish_finalize_notarize` with what it gave.
pub open spec fn finalize_notarize<S, C, N>(
    slot: Option<ProverState<S, C, N>>,
    finalization: FinalizeOutcome,
    setup: Result<S, String>,
) -> (Option<ProverState<S, C, N>>, Result<Vec<u8>, ProverError>) {
    match take_notarizing(slot).1 {
        Ok(_) => match attested(finalization) {
            Ok(attestation) => after_finalize(attestation, setup),
            Err(error) => (take_notarizing(slot).0, Err(error)),
        },
        Err(error) => (take_notarizing(slot).0, Err(error)),
    }
}

/// The three ways in which an operation that leads to the phase `next` may
/// leave the slot, given the slot `before` it: it succeeds and the slot holds a
/// session in that phase; or it reports `WrongState` and the slot is as it
/// was; or it fails otherwise and the slot is empty.
pub open spec fn settled<S, C, N, T>(
    before: Option<ProverState<S, C, N>>,
    after: (Option<ProverState<S, C, N>>, Result<T, ProverError>),
    next: Phase,
) -> bool {
    match after.1 {
        Ok(_) => phase_of(after.0) == Some(next),
        Err(ProverError::WrongState { .. }) => after.0 == before,
        Err(_) => after.0 is None,
    }
}

/// Called with an empty slot or with a session in another phase than the one
/// it needs, a connect, a step into the attestation and a finalization report
/// `WrongState`, with the phase that was found, and leave the slot as it was,
/// whatever the engine would have answered.
pub proof fn lemma_wrong_state_changes_nothing<S, C, N>(
    slot: Option<ProverState<S, C, N>>,
    exchange: ConnectOutcome<C>,
    promoted: N,
    finalization: FinalizeOutcome,
    setup: Result<S, String>,
)
    ensures
        phase_of(slot) != Some(Phase::Setup) ==> connect(slot, exchange) == (
            slot,
            Err::<(), ProverError>(
                ProverError::WrongState { operation: Operation::Connect, actual: phase_of(slot) },
            ),
        ),
        phase_of(slot) != Some(Phase::Closed) ==> start_notarize(slot, promoted) == (
            slot,
            Err::<(), ProverError>(
                ProverError::WrongState {
                    operation: Operation::StartNotarize,
                    actual: phase_of(slot),
                },
            ),
        ),
        phase_of(slot) != Some(Phase::Notarizing) ==> finalize_notarize(
            slot,
            finalization,
            setup,
        ) == (
            slot,
            Err::<Vec<u8>, ProverError>(
                ProverError::WrongState {
                    operation: Operation::FinalizeNotarize,
                    actual: phase_of(slot),
                },
            ),
        ),
{
}

/// An operation that finds its session in the phase it needs does not report
/// `WrongState`: the phase alone decides between the two.
pub proof fn lemma_right_state_is_admitted<S, C, N>(
    slot: Option<ProverState<S, C, N>>,
    exchange: ConnectOutcome<C>,
    promoted: N,
    finalization: FinalizeOutcome,
    setup: Result<S, String>,
)
    ensures
        phase_of(slot) == Some(Phase::Setup) ==> !(connect(slot, exchange).1 matches Err(
            ProverError::WrongState { .. },
        )),
        phase_of(slot) == Some(Phase::Closed) ==> start_notarize(slot, promoted).1 is Ok,
        phase_of(slot) == Some(Phase::Notarizing) ==> !(finalize_notarize(
            slot,
            finalization,
            setup,
        ).1 matches Err(ProverError::WrongState { .. })),
{
}

/// After a setup, a connect, a step into the attestation and a finalization
/// that all succeed, whatever the slot held before, the prover holds the
/// session of the setup that followed the finalization, in phase `Setup`; the
/// finalization returned the attestation; and a connect finds its session
/// again.
pub proof fn lemma_round_ends_in_setup<S, C, N>(
    slot: Option<ProverState<S, C, N>>,
    first: S,
    closed: C,
    notarizing: N,
    attestation: Vec<u8>,
    next: S,
)
    ensures
        ({
            let s1 = reset(slot, Ok(first));
            let s2 = connect(s1.0, ConnectOutcome::Connected(closed));
            let s3 = start_notarize(s2.0, notarizing);
            let s4 = finalize_notarize(s3.0, FinalizeOutcome::Attested(attestation), Ok(next));
            &&& s1 == (Some(ProverState::<S, C, N>::Setup(first)), Ok::<(), ProverError>(()))
            &&& s2 == (Some(ProverState::<S, C, N>::Closed(closed)), Ok::<(), ProverError>(()))
            &&& s3 == (
                Some(ProverState::<S, C, N>::Notarizing(notarizing)),
                Ok::<(), ProverError>(()),
            )
            &&& s4 == (
                Some(ProverState::<S, C, N>::Setup(next)),
                Ok::<Vec<u8>, ProverError>(attestation),
            )
            &&& take_setup(s4.0) == (None::<ProverState<S, C, N>>, Ok::<S, ProverError>(next))
        }),
{
}

/// When the engine fails to finalize, or its attestation cannot be encoded,
/// the slot is empty after the finalization and the result is the same
/// whatever a setup would have given: none is made. A connect after it reports
/// `WrongState` with no phase found, and no error of the engine, whatever its
/// exchange would have given.
pub proof fn lemma_failed_finalize_leaves_no_session<S, C, N>(
    session: N,
    finalization: FinalizeOutcome,
    setup: Result<S, String>,
    exchange: ConnectOutcome<C>,
)
    requires
        !(finalization is Attested),
    ensures
        ({
            let after = finalize_notarize(
                Some(ProverState::<S, C, N>::Notarizing(session)),
                finalization,
                setup,
            );
            &&& after.0 is None
            &&& after.1 == attested(finalization)
            &&& finalization matches FinalizeOutcome::Failed { cause } ==> after.1 == Err::<
                Vec<u8>,
                ProverError,
            >(ProverError::Engine { stage: Stage::Finalize, cause })
            &&& finalization matches FinalizeOutcome::Unserializable { cause } ==> after.1
                == Err::<Vec<u8>, ProverError>(ProverError::Serialization { cause })
            &&& connect(after.0, exchange) == (
                None::<ProverState<S, C, N>>,
                Err::<(), ProverError>(
                    ProverError::WrongState { operation: Operation::Connect, actual: None },
                ),
            )
        }),
{
}

/// When the setup after a finalization fails, the attestation is not
/// returned: the result is `Reinitialize` with the cause of the setup's
/// failure, and the slot is empty.
pub proof fn lemma_failed_setup_after_finalize<S, C, N>(
    session: N,
    attestation: Vec<u8>,
    cause: String,
)
    ensures
        finalize_notarize(
            Some(ProverState::<S, C, N>::Notarizing(session)),
            FinalizeOutcome::Attested(attestation),
            Err(cause),
        ) == (
            None::<ProverState<S, C, N>>,
            Err::<Vec<u8>, ProverError>(ProverError::Reinitialize { cause }),
        ),
{
}

/// A connect whose lookup gives no address reports `AddressResolution`, which
/// is no error of the engine, and leaves the slot empty.
pub proof fn lemma_unresolved_address<S, C, N>(session: S, cause: String)
    ensures
        connect::<S, C, N>(
            Some(ProverState::Setup(session)),
            ConnectOutcome::Unresolved { cause },
        ) == (
            None::<ProverState<S, C, N>>,
            Err::<(), ProverError>(ProverError::AddressResolution { cause }),
        ),
{
}

/// Every operation leaves the slot in one of three ways. It succeeds, and the
/// slot holds a session in the phase that follows: `Setup` after a setup and
/// after a finalization, `Closed` after a connect, `Notarizing` after the step
/// into the attestation. Or it reports `WrongState`, and the slot is as it was.
/// Or it fails otherwise, and the slot is empty: no session in a phase that it
/// has left is ever kept.
pub proof fn lemma_slot_after_operation<S, C, N>(
    slot: Option<ProverState<S, C, N>>,
    setup: Result<S, String>,
    exchange: ConnectOutcome<C>,
    promoted: N,
    finalization: FinalizeOutcome,
)
    ensures
        settled(slot, reset(slot, setup), Phase::Setup),
        settled(slot, connect(slot, exchange), Phase::Closed),
        settled(slot, start_notarize(slot, promoted), Phase::Notarizing),
        settled(slot, finalize_notarize(slot, finalization, setup), Phase::Setup),
{
}

} // verus!
