use vstd::prelude::*;

verus! {

/// Declares tokio::sync::oneshot::Sender, the signal half of the
/// shutdown channel; opaque to the verifier.
#[verifier::external_type_specification]
#[verifier::external_body]
#[verifier::reject_recursive_types(T)]
pub struct ExOneshotSender<T>(tokio::sync::oneshot::Sender<T>);

/// Declares tokio::sync::oneshot::Receiver, the token half of the
/// shutdown channel, which the serving task awaits; opaque to the
/// verifier.
#[verifier::external_type_specification]
#[verifier::external_body]
#[verifier::reject_recursive_types(T)]
pub struct ExOneshotReceiver<T>(tokio::sync::oneshot::Receiver<T>);

/// Declares tokio::sync::oneshot::error::RecvError, which awaiting the
/// receiver yields when the sender is dropped unfired.
#[verifier::external_type_specification]
#[verifier::external_body]
pub struct ExOneshotRecvError(tokio::sync::oneshot::error::RecvError);

/// Relies on tokio::sync::oneshot::channel: creates a connected
/// single-use sender/receiver pair. Nothing further is assumed of it.
pub assume_specification<T>[ tokio::sync::oneshot::channel::<T> ]() -> (r: (
    tokio::sync::oneshot::Sender<T>,
    tokio::sync::oneshot::Receiver<T>,
));

/// Relies on tokio::sync::oneshot::Sender::send: consumes the sender and
/// either delivers the value or, when the receiving half is already gone,
/// hands it back in `Err`. Which of the two happens depends on the other
/// half of the channel, so nothing is assumed about it.
pub assume_specification<T>[ tokio::sync::oneshot::Sender::<T>::send ](
    s: tokio::sync::oneshot::Sender<T>,
    t: T,
) -> (r: Result<(), T>)
    ensures
        r matches Err(v) ==> v == t,
;

/// What `ShutdownCoordinator::fire` found and did.
#[derive(Clone, Copy, Debug, PartialEq, Eq, Structural)]
pub enum FireOutcome {
    /// The signal was delivered; the listener will drain and stop.
    Signaled,
    /// The listening side of the channel was already gone.
    ListenerGone,
    /// No signal was armed; firing was a no-op.
    NotArmed,
}

/// The single-use graceful-shutdown handshake between the controller and
/// the serving task: `arm` creates a fresh signal/token pair and keeps the
/// signal; `fire` consumes it. After consumption (or `disarm`) the
/// coordinator holds nothing, and firing again is a no-op.
pub struct ShutdownCoordinator {
    signal: Option<tokio::sync::oneshot::Sender<()>>,
}

impl ShutdownCoordinator {
    /// Whether an unconsumed shutdown signal is held.
    pub closed spec fn armed(&self) -> bool {
        self.signal is Some
    }

    pub fn new() -> (c: ShutdownCoordinator)
        ensures
            !c.armed(),
    {
        ShutdownCoordinator { signal: None }
    }

    /// Create a fresh signal/token pair, keep the signal, and hand the
    /// token out for the serving task to await. Any previously armed
    /// signal is discarded, which the listener side treats as an implicit
    /// fire; the lifecycle controller only arms from an inactive state,
    /// so exactly one live pair exists per run.
    pub fn arm(&mut self) -> (token: tokio::sync::oneshot::Receiver<()>)
        ensures
            final(self).armed(),
    {
        let (tx, rx) = tokio::sync::oneshot::channel();
        self.signal = Some(tx);
        rx
    }

    /// Consume and fire the armed signal, if any. Idempotent-safe: once
    /// the signal is consumed, later calls report `NotArmed` and change
    /// nothing.
    pub fn fire(&mut self) -> (o: FireOutcome)
        ensures
            !final(self).armed(),
            (o is NotArmed) <==> !old(self).armed(),
    {
        match self.signal.take() {
            None => FireOutcome::NotArmed,
            Some(tx) => match tx.send(()) {
                Ok(_) => FireOutcome::Signaled,
                Err(_) => FireOutcome::ListenerGone,
            },
        }
    }

    /// Drop the armed signal without firing it; used when binding fails
    /// before any serving task exists to signal.
    pub fn disarm(&mut self)
        ensures
            !final(self).armed(),
    {
        self.signal = None;
    }
}

} // verus!
