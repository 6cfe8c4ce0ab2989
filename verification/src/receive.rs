//! Moving messages from a channel that blocks to a consumer that does not.
use vstd::prelude::*;

verus! {

/// Why an attempt to receive brought no message. `E` is the error of the channel.
#[derive(Debug)]
pub enum TryReceiveError<E> {
    /// The channel failed.
    IpcError(E),
    /// There was nothing to receive for a while.
    Empty,
}

/// Moves messages from a channel to a consumer, until the consumer is gone.
#[derive(Debug)]
pub struct IpcReceiveStream {
    running: bool,
}

impl IpcReceiveStream {
    /// Whether messages are still moved.
    pub closed spec fn running(self) -> bool {
        self.running
    }

    /// Starts to move messages.
    pub fn new() -> (r: Self)
        ensures
            r.running(),
    {
        IpcReceiveStream { running: true }
    }

    /// What the consumer gets of an attempt to receive: a message or an error, and nothing where
    /// there was nothing to receive.
    pub fn poll_next<T, E>(&self, attempt: Result<T, TryReceiveError<E>>) -> (r: Option<
        Result<T, E>,
    >)
        ensures
            match attempt {
                Ok(message) => r == Some(Ok::<T, E>(message)),
                Err(TryReceiveError::IpcError(e)) => r == Some(Err::<T, E>(e)),
                Err(TryReceiveError::Empty) => r is None,
            },
    {
        match attempt {
            Ok(message) => Some(Ok(message)),
            Err(TryReceiveError::IpcError(e)) => Some(Err(e)),
            Err(TryReceiveError::Empty) => None,
        }
    }

    /// Takes note, after an attempt, of whether the consumer is gone. An error of the channel
    /// stops nothing: it is for the consumer to decide what it means.
    pub fn attempted(&mut self, consumer_gone: bool)
        ensures
            final(self).running() == (old(self).running() && !consumer_gone),
    {
        if consumer_gone {
            self.running = false;
        }
    }

    /// Tells whether messages are still moved.
    pub fn is_running(&self) -> (r: bool)
        ensures
            r == self.running(),
    {
        self.running
    }
}

} // verus!
