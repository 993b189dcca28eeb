//! Sockets: splitting one into a read half and a write half that share it,
//! and the accept loop of a listener.
use vstd::prelude::*;
use std::rc::Rc;

verus! {

/// The read half of a split socket.
#[derive(Debug)]
pub struct SplitRead<T>(pub Rc<T>);

/// The write half of a split socket.
#[derive(Debug)]
pub struct SplitWrite<T>(pub Rc<T>);

/// Splits `rw` into two halves that share it, so that a read and a write
/// can be in flight at once.
pub fn split<T>(rw: T) -> (r: (SplitRead<T>, SplitWrite<T>))
    ensures
        *r.0.0 == rw,
        *r.1.0 == rw,
{
    let rw = Rc::new(rw);
    let other = Rc::clone(&rw);
    (SplitRead(other), SplitWrite(rw))
}

impl<T> SplitRead<T> {
    /// The shared socket.
    pub fn get_ref(&self) -> (r: &T)
        ensures
            *r == *self.0,
    {
        &*self.0
    }
}

impl<T> SplitWrite<T> {
    /// The shared socket.
    pub fn get_ref(&self) -> (r: &T)
        ensures
            *r == *self.0,
    {
        &*self.0
    }
}

/// What an attempt to accept a connection gave.
#[derive(Clone, Copy, PartialEq, Eq, Debug)]
pub enum AcceptOutcome {
    Accepted,
    /// interrupted by a signal
    Interrupted,
    /// no connection is waiting
    WouldBlock,
    /// any other error
    Failed,
}

/// What a stream of incoming connections does next.
#[derive(Clone, Copy, PartialEq, Eq, Debug)]
pub enum IncomingStep {
    /// Hand out the accepted connection.
    Yield,
    /// Try to accept again.
    Accept,
    /// Wait for the listener to become readable.
    AwaitReadiness,
    /// Hand out the error.
    Fail,
}

/// The accept loop of a listener: accept while connections wait, and poll
/// for readiness once none does.
#[derive(Clone, Copy, PartialEq, Eq, Debug)]
pub struct IncomingState {
    /// no connection was waiting at the last attempt; readiness must be
    /// awaited before the next
    pub blocked: bool,
}

impl IncomingState {
    /// A listener polls for readiness before its first accept.
    pub fn new() -> (r: Self)
        ensures
            r.blocked,
    {
        IncomingState { blocked: true }
    }

    /// The next step: accept unless blocked.
    pub fn next(&self) -> (r: IncomingStep)
        ensures
            r == if self.blocked {
                IncomingStep::AwaitReadiness
            } else {
                IncomingStep::Accept
            },
    {
        if self.blocked {
            IncomingStep::AwaitReadiness
        } else {
            IncomingStep::Accept
        }
    }

    /// After an accept: an interrupted one is retried, an empty one blocks
    /// until readiness.
    pub fn on_accept(&mut self, outcome: AcceptOutcome) -> (r: IncomingStep)
        requires
            !old(self).blocked,
        ensures
            final(self).blocked == (outcome == AcceptOutcome::WouldBlock),
            r == match outcome {
                AcceptOutcome::Accepted => IncomingStep::Yield,
                AcceptOutcome::Interrupted => IncomingStep::Accept,
                AcceptOutcome::WouldBlock => IncomingStep::AwaitReadiness,
                AcceptOutcome::Failed => IncomingStep::Fail,
            },
    {
        match outcome {
            AcceptOutcome::Accepted => IncomingStep::Yield,
            AcceptOutcome::Interrupted => IncomingStep::Accept,
            AcceptOutcome::WouldBlock => {
                self.blocked = true;
                IncomingStep::AwaitReadiness
            },
            AcceptOutcome::Failed => IncomingStep::Fail,
        }
    }

    /// The listener became readable: accept again.
    pub fn on_ready(&mut self) -> (r: IncomingStep)
        ensures
            !final(self).blocked,
            r == IncomingStep::Accept,
    {
        self.blocked = false;
        IncomingStep::Accept
    }
}

} // verus!
