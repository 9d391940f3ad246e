//! The options that a reconnecting stream is given, and the methods that set
//! them one at a time.

use crate::strategy::{IntoRetrySequence, RetriesGenerator, RetrySequence, StandardStrategy};
use std::sync::Arc;
use vstd::prelude::*;

verus! {

/// Something to run when the stream connects, loses its connection or fails
/// to connect. It may be run from any thread, any number of times.
pub trait Callback: Send + Sync {
    /// Whether the callback may be run.
    spec fn ready(&self) -> bool;

    /// Runs the callback.
    fn invoke(&self)
        requires
            self.ready(),
    ;
}

/// The callback that does nothing.
pub struct NoOp;

impl Callback for NoOp {
    open spec fn ready(&self) -> bool {
        true
    }

    fn invoke(&self) {
    }
}

/// Any function without arguments that threads may share is a callback. It
/// is ready where it may be called; who holds the function itself may as well
/// call it directly.
impl<F: Fn() + Send + Sync> Callback for F {
    open spec fn ready(&self) -> bool {
        call_requires(*self, ())
    }

    fn invoke(&self) {
        self()
    }
}

/// Options that control what a reconnecting stream does when it loses its
/// connection or cannot connect.
///
/// The generator and the callbacks are held behind `Arc`: a copy of the
/// options shares them with the options it was made from.
pub struct ReconnectOptions<
    G: RetriesGenerator = StandardStrategy,
    C: Callback = NoOp,
    D: Callback = NoOp,
    E: Callback = NoOp,
> {
    /// Starts the sequence of waits between the attempts of one run of
    /// reconnection attempts.
    pub retries_to_attempt_fn: Arc<G>,
    /// If true, a first connection attempt that fails is final: the stream
    /// does not try again.
    pub exit_if_first_connect_fails: bool,
    /// Run when the stream has connected.
    pub on_connect_callback: Arc<C>,
    /// Run when the stream has lost its connection.
    pub on_disconnect_callback: Arc<D>,
    /// Run when an attempt to connect has failed.
    pub on_connect_fail_callback: Arc<E>,
}

impl ReconnectOptions {
    /// The options a stream has unless told otherwise: it gives up if the
    /// first attempt fails, waits by the standard strategy between later
    /// attempts, and runs nothing on any event.
    pub fn new() -> (options: Self)
        ensures
            *options.retries_to_attempt_fn == StandardStrategy,
            options.exit_if_first_connect_fails,
            *options.on_connect_callback == NoOp,
            *options.on_disconnect_callback == NoOp,
            *options.on_connect_fail_callback == NoOp,
    {
        ReconnectOptions {
            retries_to_attempt_fn: Arc::new(StandardStrategy),
            exit_if_first_connect_fails: true,
            on_connect_callback: Arc::new(NoOp),
            on_disconnect_callback: Arc::new(NoOp),
            on_connect_fail_callback: Arc::new(NoOp),
        }
    }
}

impl<G: RetriesGenerator, C: Callback, D: Callback, E: Callback> ReconnectOptions<G, C, D, E> {
    /// Replaces the generator of waits by `retries_generator`, a function
    /// that hands back a fresh sequence of waits, or a plain list of them,
    /// each time it is called.
    pub fn with_retries_generator<F, I, IN>(self, retries_generator: F) -> (options:
        ReconnectOptions<F, C, D, E>) where
        F: 'static + Send + Sync + Fn() -> IN,
        I: 'static + Send + Sync + RetrySequence,
        IN: IntoRetrySequence<Sequence = I>,

        ensures
            *options.retries_to_attempt_fn == retries_generator,
            options.exit_if_first_connect_fails == self.exit_if_first_connect_fails,
            options.on_connect_callback == self.on_connect_callback,
            options.on_disconnect_callback == self.on_disconnect_callback,
            options.on_connect_fail_callback == self.on_connect_fail_callback,
    {
        ReconnectOptions {
            retries_to_attempt_fn: Arc::new(retries_generator),
            exit_if_first_connect_fails: self.exit_if_first_connect_fails,
            on_connect_callback: self.on_connect_callback,
            on_disconnect_callback: self.on_disconnect_callback,
            on_connect_fail_callback: self.on_connect_fail_callback,
        }
    }

    /// Sets whether a first connection attempt that fails is final.
    pub fn with_exit_if_first_connect_fails(self, value: bool) -> (options: Self)
        ensures
            options.exit_if_first_connect_fails == value,
            options.retries_to_attempt_fn == self.retries_to_attempt_fn,
            options.on_connect_callback == self.on_connect_callback,
            options.on_disconnect_callback == self.on_disconnect_callback,
            options.on_connect_fail_callback == self.on_connect_fail_callback,
    {
        let mut options = self;
        options.exit_if_first_connect_fails = value;
        options
    }

    /// Replaces what is run when the stream has connected.
    pub fn with_on_connect_callback<F: Fn() + 'static + Send + Sync>(self, cb: F) -> (options:
        ReconnectOptions<G, F, D, E>)
        ensures
            *options.on_connect_callback == cb,
            options.retries_to_attempt_fn == self.retries_to_attempt_fn,
            options.exit_if_first_connect_fails == self.exit_if_first_connect_fails,
            options.on_disconnect_callback == self.on_disconnect_callback,
            options.on_connect_fail_callback == self.on_connect_fail_callback,
    {
        ReconnectOptions {
            retries_to_attempt_fn: self.retries_to_attempt_fn,
            exit_if_first_connect_fails: self.exit_if_first_connect_fails,
            on_connect_callback: Arc::new(cb),
            on_disconnect_callback: self.on_disconnect_callback,
            on_connect_fail_callback: self.on_connect_fail_callback,
        }
    }

    /// Replaces what is run when the stream has lost its connection.
    pub fn with_on_disconnect_callback<F: Fn() + 'static + Send + Sync>(self, cb: F) -> (options:
        ReconnectOptions<G, C, F, E>)
        ensures
            *options.on_disconnect_callback == cb,
            options.retries_to_attempt_fn == self.retries_to_attempt_fn,
            options.exit_if_first_connect_fails == self.exit_if_first_connect_fails,
            options.on_connect_callback == self.on_connect_callback,
            options.on_connect_fail_callback == self.on_connect_fail_callback,
    {
        ReconnectOptions {
            retries_to_attempt_fn: self.retries_to_attempt_fn,
            exit_if_first_connect_fails: self.exit_if_first_connect_fails,
            on_connect_callback: self.on_connect_callback,
            on_disconnect_callback: Arc::new(cb),
            on_connect_fail_callback: self.on_connect_fail_callback,
        }
    }

    /// Replaces what is run when an attempt to connect has failed.
    pub fn with_on_connect_fail_callback<F: Fn() + 'static + Send + Sync>(self, cb: F) -> (options:
        ReconnectOptions<G, C, D, F>)
        ensures
            *options.on_connect_fail_callback == cb,
            options.retries_to_attempt_fn == self.retries_to_attempt_fn,
            options.exit_if_first_connect_fails == self.exit_if_first_connect_fails,
            options.on_connect_callback == self.on_connect_callback,
            options.on_disconnect_callback == self.on_disconnect_callback,
    {
        ReconnectOptions {
            retries_to_attempt_fn: self.retries_to_attempt_fn,
            exit_if_first_connect_fails: self.exit_if_first_connect_fails,
            on_connect_callback: self.on_connect_callback,
            on_disconnect_callback: self.on_disconnect_callback,
            on_connect_fail_callback: Arc::new(cb),
        }
    }
}

impl<G: RetriesGenerator, C: Callback, D: Callback, E: Callback> Clone for ReconnectOptions<
    G,
    C,
    D,
    E,
> {
    /// Copies the options. The copy shares the generator and the callbacks
    /// with `self`.
    fn clone(&self) -> (copy: Self)
        ensures
            copy == *self,
    {
        ReconnectOptions {
            retries_to_attempt_fn: self.retries_to_attempt_fn.clone(),
            exit_if_first_connect_fails: self.exit_if_first_connect_fails,
            on_connect_callback: self.on_connect_callback.clone(),
            on_disconnect_callback: self.on_disconnect_callback.clone(),
            on_connect_fail_callback: self.on_connect_fail_callback.clone(),
        }
    }
}

} // verus!
