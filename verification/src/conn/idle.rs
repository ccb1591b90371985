//! Closing the connections on which nothing happens.
//!
//! A connection over a byte stream is closed once no exchange has been in
//! flight on it for longer than a set time. The clock is the caller's: the
//! watch tells when to start it and what to do when it rings.

use std::time::Duration;
use vstd::prelude::*;

verus! {

/// What has happened on a connection that is watched.
#[derive(Clone, Copy, Debug, PartialEq, Eq, Structural)]
pub enum IdleEvent {
    /// An exchange has begun.
    ExchangeStarted,
    /// An exchange has ended.
    ExchangeEnded,
    /// The timer that was started last has rung.
    TimerFired,
}

/// What to do with the timer and the connection.
#[derive(Clone, Copy, Debug, PartialEq)]
pub enum IdleAction {
    /// Nothing.
    Wait,
    /// Start the timer anew, to ring after the given time.
    StartTimer(Duration),
    /// Stop the timer.
    StopTimer,
    /// Close the connection.
    Close,
}

/// The watch over one connection, as mathematics.
pub struct IdleState {
    /// The time that a connection may idle, if it is watched at all.
    pub timeout: Option<Duration>,
    /// The number of exchanges in flight.
    pub in_flight: nat,
    /// Whether the timer runs.
    pub armed: bool,
    /// Whether the connection has been closed for idling.
    pub closed: bool,
}

/// The watch over a connection that has just been accepted: nothing is in
/// flight, so the timer runs if there is a time to watch for.
pub open spec fn spec_idle_start(timeout: Option<Duration>) -> IdleState {
    IdleState { timeout, in_flight: 0, armed: timeout is Some, closed: false }
}

/// The watch after `event`, and what to do.
///
/// The timer runs exactly while nothing is in flight. When it rings while
/// it runs, the connection is closed; a ring that comes after the timer was
/// stopped is passed over.
pub open spec fn spec_idle_step(s: IdleState, event: IdleEvent) -> (IdleState, IdleAction) {
    if s.closed {
        (s, IdleAction::Wait)
    } else {
        match event {
            IdleEvent::ExchangeStarted => (
                IdleState { in_flight: s.in_flight + 1, armed: false, ..s },
                if s.armed {
                    IdleAction::StopTimer
                } else {
                    IdleAction::Wait
                },
            ),
            IdleEvent::ExchangeEnded => if s.in_flight == 0 {
                (s, IdleAction::Wait)
            } else if s.in_flight == 1 {
                match s.timeout {
                    Some(time) => (
                        IdleState { in_flight: 0, armed: true, ..s },
                        IdleAction::StartTimer(time),
                    ),
                    None => (IdleState { in_flight: 0, ..s }, IdleAction::Wait),
                }
            } else {
                (IdleState { in_flight: (s.in_flight - 1) as nat, ..s }, IdleAction::Wait)
            },
            IdleEvent::TimerFired => if s.armed {
                (IdleState { armed: false, closed: true, ..s }, IdleAction::Close)
            } else {
                (s, IdleAction::Wait)
            },
        }
    }
}

/// What holds of every watch: the timer runs only while nothing is in
/// flight, and only where there is a time to watch for.
pub open spec fn idle_wf(s: IdleState) -> bool {
    &&& s.armed ==> s.in_flight == 0 && s.timeout is Some && !s.closed
    &&& !s.closed && s.in_flight == 0 && s.timeout is Some ==> s.armed
}

/// Watches one connection for idleness.
#[derive(Clone, Copy, Debug, PartialEq)]
pub struct IdleWatch {
    timeout: Option<Duration>,
    in_flight: usize,
    armed: bool,
    closed: bool,
}

impl View for IdleWatch {
    type V = IdleState;

    closed spec fn view(&self) -> IdleState {
        IdleState {
            timeout: self.timeout,
            in_flight: self.in_flight as nat,
            armed: self.armed,
            closed: self.closed,
        }
    }
}

impl IdleWatch {
    /// The watch over a connection that has just been accepted, and the
    /// time after which the timer is to ring first, if it is to ring at all.
    pub fn new(timeout: Option<Duration>) -> (started: (IdleWatch, Option<Duration>))
        ensures
            started.0@ == spec_idle_start(timeout),
            started.1 == timeout,
    {
        (IdleWatch { timeout, in_flight: 0, armed: timeout.is_some(), closed: false }, timeout)
    }

    /// The number of exchanges in flight.
    pub fn in_flight(&self) -> (count: usize)
        ensures
            count == self@.in_flight,
    {
        self.in_flight
    }

    /// Whether the connection has been closed for idling.
    pub fn is_closed(&self) -> (closed: bool)
        ensures
            closed == self@.closed,
    {
        self.closed
    }

    /// The watch after `event`, and what to do. An exchange for which the
    /// counter has no room is not counted.
    pub fn step(self, event: IdleEvent) -> (next: (IdleWatch, IdleAction))
        ensures
            event == IdleEvent::ExchangeStarted && !self@.closed && self@.in_flight >= usize::MAX
                ==> next.0@ == self@ && next.1 == IdleAction::Wait,
            !(event == IdleEvent::ExchangeStarted && !self@.closed && self@.in_flight
                >= usize::MAX) ==> (next.0@, next.1) == spec_idle_step(self@, event),
    {
        if self.closed {
            return (self, IdleAction::Wait);
        }
        match event {
            IdleEvent::ExchangeStarted => {
                if self.in_flight == usize::MAX {
                    (self, IdleAction::Wait)
                } else {
                    let action = if self.armed {
                        IdleAction::StopTimer
                    } else {
                        IdleAction::Wait
                    };
                    (
                        IdleWatch {
                            timeout: self.timeout,
                            in_flight: self.in_flight + 1,
                            armed: false,
                            closed: false,
                        },
                        action,
                    )
                }
            },
            IdleEvent::ExchangeEnded => {
                if self.in_flight == 0 {
                    (self, IdleAction::Wait)
                } else if self.in_flight == 1 {
                    match self.timeout {
                        Some(time) => (
                            IdleWatch {
                                timeout: self.timeout,
                                in_flight: 0,
                                armed: true,
                                closed: false,
                            },
                            IdleAction::StartTimer(time),
                        ),
                        None => (
                            IdleWatch {
                                timeout: self.timeout,
                                in_flight: 0,
                                armed: self.armed,
                                closed: false,
                            },
                            IdleAction::Wait,
                        ),
                    }
                } else {
                    (
                        IdleWatch {
                            timeout: self.timeout,
                            in_flight: self.in_flight - 1,
                            armed: self.armed,
                            closed: false,
                        },
                        IdleAction::Wait,
                    )
                }
            },
            IdleEvent::TimerFired => {
                if self.armed {
                    (
                        IdleWatch {
                            timeout: self.timeout,
                            in_flight: self.in_flight,
                            armed: false,
                            closed: true,
                        },
                        IdleAction::Close,
                    )
                } else {
                    (self, IdleAction::Wait)
                }
            },
        }
    }
}

/// A watch that has just started is well formed.
pub proof fn lemma_idle_start_wf(timeout: Option<Duration>)
    ensures
        idle_wf(spec_idle_start(timeout)),
{
}

/// Every step leads from a well-formed watch to a well-formed watch.
pub proof fn lemma_idle_step_keeps_wf(s: IdleState, event: IdleEvent)
    requires
        idle_wf(s),
    ensures
        idle_wf(spec_idle_step(s, event).0),
{
}

/// A connection is closed for idling only while no exchange is in flight
/// on it, and only where there is a time to watch for.
pub proof fn lemma_close_only_when_idle(s: IdleState, event: IdleEvent)
    requires
        idle_wf(s),
        spec_idle_step(s, event).1 == IdleAction::Close,
    ensures
        s.in_flight == 0,
        s.timeout is Some,
        event == IdleEvent::TimerFired,
{
}

/// While an exchange is in flight, a timer that rings closes nothing.
pub proof fn lemma_busy_connection_stays_open(s: IdleState)
    requires
        idle_wf(s),
        s.in_flight > 0,
    ensures
        spec_idle_step(s, IdleEvent::TimerFired) == (s, IdleAction::Wait),
{
}

} // verus!
