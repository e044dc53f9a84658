//! The session-count feed: the background task that listens to the local
//! service and forwards changes of the session count to the user interface.
//!
//! The feed is a state machine. The caller performs each action (connect,
//! sleep, listen, forward, send) and reports what happened as the next event.

use vstd::prelude::*;

verus! {

/// Milliseconds after which an attempt to connect is given up.
pub const CONNECT_TIMEOUT_MS: u64 = 1000;

/// Milliseconds to sleep before connecting again.
pub const BACKOFF_MS: u64 = 1000;

/// Milliseconds between two heartbeats on a live connection.
pub const HEARTBEAT_MS: u64 = 1000;

/// The count that a heartbeat carries.
pub const HEARTBEAT_COUNT: usize = 0;

/// What the feed is waiting for.
#[derive(Clone, Copy, Debug, PartialEq, Eq, Structural)]
pub enum FeedPhase {
    /// The outcome of an attempt to connect.
    Connecting,
    /// A message or the heartbeat timer, on a live connection.
    Connected,
    /// The end of the sleep before the next attempt.
    BackingOff,
}

/// A message from the service.
#[derive(Clone, Copy, Debug, PartialEq, Eq, Structural)]
pub enum FeedMessage {
    /// The number of sessions under control.
    SessionCount(usize),
    /// Any other message, or none.
    Other,
}

/// What happened since the last action.
#[derive(Clone, Copy, Debug, PartialEq, Eq, Structural)]
pub enum FeedEvent {
    /// The attempt to connect succeeded.
    Connected,
    /// The attempt to connect failed or timed out.
    ConnectFailed,
    /// The connection delivered something.
    Received(FeedMessage),
    /// Reading failed or the connection was closed.
    ReadFailed,
    /// The heartbeat timer fired.
    HeartbeatDue,
    /// The sleep before the next attempt is over.
    BackoffElapsed,
}

/// What the caller is to do next.
#[derive(Clone, Copy, Debug, PartialEq, Eq, Structural)]
pub enum FeedAction {
    /// Try to connect to the service, for at most this long.
    Connect { timeout_ms: u64 },
    /// Drop the connection, if any, and sleep this long.
    Backoff { sleep_ms: u64 },
    /// Start the heartbeat timer, which fires at once and then with this
    /// period, and wait for the connection or the timer.
    Listen { heartbeat_ms: u64 },
    /// Hand this count to the user interface, then go on waiting.
    Forward(usize),
    /// Send this count to the service, whether or not that succeeds, then
    /// go on waiting.
    SendHeartbeat(usize),
    /// Go on waiting for what was waited for.
    Continue,
}

/// The feed's state.
#[derive(Clone, Copy, Debug, PartialEq, Eq, Structural)]
pub struct Feed {
    /// What the feed is waiting for.
    pub phase: FeedPhase,
    /// The count forwarded last, or zero before the first.
    pub last_count: usize,
}

impl Feed {
    /// The state in which a feed starts: about to connect, with no session
    /// counted.
    pub open spec fn initial() -> Feed {
        Feed { phase: FeedPhase::Connecting, last_count: 0 }
    }

    /// The state after `event`. An event that does not answer what the feed
    /// is waiting for changes nothing.
    pub open spec fn next(self, event: FeedEvent) -> Feed {
        match (self.phase, event) {
            (FeedPhase::Connecting, FeedEvent::Connected) => Feed {
                phase: FeedPhase::Connected,
                last_count: self.last_count,
            },
            (FeedPhase::Connecting, FeedEvent::ConnectFailed) => Feed {
                phase: FeedPhase::BackingOff,
                last_count: self.last_count,
            },
            (FeedPhase::Connected, FeedEvent::Received(FeedMessage::SessionCount(count))) => Feed {
                phase: FeedPhase::Connected,
                last_count: count,
            },
            (FeedPhase::Connected, FeedEvent::ReadFailed) => Feed {
                phase: FeedPhase::BackingOff,
                last_count: self.last_count,
            },
            (FeedPhase::BackingOff, FeedEvent::BackoffElapsed) => Feed {
                phase: FeedPhase::Connecting,
                last_count: self.last_count,
            },
            _ => self,
        }
    }

    /// The action that answers `event`.
    ///
    /// A connection that came up is listened to; one that failed, or broke
    /// while it was read, is followed by a sleep, and the sleep by the next
    /// attempt. On a live connection a session count that differs from the
    /// last one forwarded is forwarded, and the timer sends a heartbeat.
    /// Everything else is passed over.
    pub open spec fn action(self, event: FeedEvent) -> FeedAction {
        match (self.phase, event) {
            (FeedPhase::Connecting, FeedEvent::Connected) => FeedAction::Listen {
                heartbeat_ms: HEARTBEAT_MS,
            },
            (FeedPhase::Connecting, FeedEvent::ConnectFailed) => FeedAction::Backoff {
                sleep_ms: BACKOFF_MS,
            },
            (FeedPhase::Connected, FeedEvent::Received(FeedMessage::SessionCount(count))) => {
                if count != self.last_count {
                    FeedAction::Forward(count)
                } else {
                    FeedAction::Continue
                }
            },
            (FeedPhase::Connected, FeedEvent::ReadFailed) => FeedAction::Backoff {
                sleep_ms: BACKOFF_MS,
            },
            (FeedPhase::Connected, FeedEvent::HeartbeatDue) => FeedAction::SendHeartbeat(
                HEARTBEAT_COUNT,
            ),
            (FeedPhase::BackingOff, FeedEvent::BackoffElapsed) => FeedAction::Connect {
                timeout_ms: CONNECT_TIMEOUT_MS,
            },
            _ => FeedAction::Continue,
        }
    }

    /// Starts a feed: the state to keep and the first thing to do, which is
    /// to connect.
    pub fn start() -> (r: (Feed, FeedAction))
        ensures
            r.0 == Feed::initial(),
            r.1 == (FeedAction::Connect { timeout_ms: CONNECT_TIMEOUT_MS }),
    {
        (
            Feed { phase: FeedPhase::Connecting, last_count: 0 },
            FeedAction::Connect { timeout_ms: CONNECT_TIMEOUT_MS },
        )
    }

    /// Takes an event and says what to do next.
    pub fn step(&mut self, event: FeedEvent) -> (action: FeedAction)
        ensures
            *final(self) == old(self).next(event),
            action == old(self).action(event),
    {
        match self.phase {
            FeedPhase::Connecting => match event {
                FeedEvent::Connected => {
                    self.phase = FeedPhase::Connected;
                    FeedAction::Listen { heartbeat_ms: HEARTBEAT_MS }
                },
                FeedEvent::ConnectFailed => {
                    self.phase = FeedPhase::BackingOff;
                    FeedAction::Backoff { sleep_ms: BACKOFF_MS }
                },
                _ => FeedAction::Continue,
            },
            FeedPhase::Connected => match event {
                FeedEvent::Received(FeedMessage::SessionCount(count)) => {
                    if count != self.last_count {
                        self.last_count = count;
                        FeedAction::Forward(count)
                    } else {
                        FeedAction::Continue
                    }
                },
                FeedEvent::ReadFailed => {
                    self.phase = FeedPhase::BackingOff;
                    FeedAction::Backoff { sleep_ms: BACKOFF_MS }
                },
                FeedEvent::HeartbeatDue => FeedAction::SendHeartbeat(HEARTBEAT_COUNT),
                _ => FeedAction::Continue,
            },
            FeedPhase::BackingOff => match event {
                FeedEvent::BackoffElapsed => {
                    self.phase = FeedPhase::Connecting;
                    FeedAction::Connect { timeout_ms: CONNECT_TIMEOUT_MS }
                },
                _ => FeedAction::Continue,
            },
        }
    }

    /// The state after a run of events, oldest first.
    pub open spec fn run(self, events: Seq<FeedEvent>) -> Feed
        decreases events.len(),
    {
        if events.len() == 0 {
            self
        } else {
            self.run(events.drop_last()).next(events.last())
        }
    }

    /// The action that answers the last event of a run.
    pub open spec fn last_action(self, events: Seq<FeedEvent>) -> FeedAction
        recommends
            events.len() > 0,
    {
        self.run(events.drop_last()).action(events.last())
    }

    /// How many attempts to connect a run asks for.
    pub open spec fn connects(self, events: Seq<FeedEvent>) -> nat
        decreases events.len(),
    {
        if events.len() == 0 {
            0
        } else {
            self.connects(events.drop_last()) + if self.last_action(events) is Connect {
                1nat
            } else {
                0nat
            }
        }
    }

    /// How many sleeps of [`BACKOFF_MS`] a run asks for.
    pub open spec fn backoffs(self, events: Seq<FeedEvent>) -> nat
        decreases events.len(),
    {
        if events.len() == 0 {
            0
        } else {
            self.backoffs(events.drop_last()) + if self.last_action(events) == (
                FeedAction::Backoff { sleep_ms: BACKOFF_MS }
            ) {
                1nat
            } else {
                0nat
            }
        }
    }

    /// The counts that a run forwards, oldest first.
    pub open spec fn forwarded(self, events: Seq<FeedEvent>) -> Seq<usize>
        decreases events.len(),
    {
        if events.len() == 0 {
            Seq::empty()
        } else {
            match self.last_action(events) {
                FeedAction::Forward(count) => self.forwarded(events.drop_last()).push(count),
                _ => self.forwarded(events.drop_last()),
            }
        }
    }
}

/// A count is forwarded only from a live connection, and only where it
/// differs from the last one forwarded; it is then the last one forwarded.
pub proof fn law_forward_only_changes_while_connected(feed: Feed, event: FeedEvent, count: usize)
    ensures
        feed.action(event) == FeedAction::Forward(count) <==> (feed.phase == FeedPhase::Connected
            && event == FeedEvent::Received(FeedMessage::SessionCount(count)) && count
            != feed.last_count),
        feed.action(event) == FeedAction::Forward(count) ==> feed.next(event).last_count == count,
        feed.phase != FeedPhase::Connected ==> feed.next(event).last_count == feed.last_count,
{
}

/// An attempt to connect is asked for only when a sleep has ended.
pub proof fn law_connect_only_after_backoff(feed: Feed, event: FeedEvent)
    ensures
        feed.action(event) is Connect <==> feed.phase == FeedPhase::BackingOff && event
            == FeedEvent::BackoffElapsed,
        feed.next(event).phase == FeedPhase::BackingOff && feed.phase != FeedPhase::BackingOff
            ==> feed.action(event) == (FeedAction::Backoff { sleep_ms: BACKOFF_MS }),
{
}

/// The feed never gives up: a failed attempt, and a connection that breaks,
/// is answered by a sleep, and the end of that sleep by a new attempt,
/// however often this has happened and whatever count was seen.
pub proof fn law_retry_is_indefinite(feed: Feed)
    requires
        feed.phase != FeedPhase::BackingOff,
    ensures
        feed.phase == FeedPhase::Connecting ==> feed.action(FeedEvent::ConnectFailed) == (
            FeedAction::Backoff { sleep_ms: BACKOFF_MS }
        ) && feed.next(FeedEvent::ConnectFailed).phase == FeedPhase::BackingOff,
        feed.phase == FeedPhase::Connected ==> feed.action(FeedEvent::ReadFailed) == (
            FeedAction::Backoff { sleep_ms: BACKOFF_MS }
        ) && feed.next(FeedEvent::ReadFailed).phase == FeedPhase::BackingOff,
        forall|waiting: Feed|
            waiting.phase == FeedPhase::BackingOff ==> #[trigger] waiting.action(
                FeedEvent::BackoffElapsed,
            ) == (FeedAction::Connect { timeout_ms: CONNECT_TIMEOUT_MS }) && waiting.next(
                FeedEvent::BackoffElapsed,
            ) == (Feed { phase: FeedPhase::Connecting, last_count: waiting.last_count }),
{
}

/// Reconnecting is paced: whatever happens, every attempt after the first
/// has a sleep of its own before it. Counted over any run from the start,
/// attempts and sleeps are equal in number, but for the sleep that is under
/// way while the feed backs off.
pub proof fn law_reconnect_is_paced(events: Seq<FeedEvent>)
    ensures
        Feed::initial().run(events).phase == FeedPhase::BackingOff ==> Feed::initial().connects(
            events,
        ) + 1 == Feed::initial().backoffs(events),
        Feed::initial().run(events).phase != FeedPhase::BackingOff ==> Feed::initial().connects(
            events,
        ) == Feed::initial().backoffs(events),
    decreases events.len(),
{
    if events.len() > 0 {
        law_reconnect_is_paced(events.drop_last());
    }
}

/// No count is forwarded twice in a row: the first count forwarded differs
/// from the starting count, each later one from the one before it, and the
/// feed remembers the last.
pub proof fn law_forwarded_counts_differ(feed: Feed, events: Seq<FeedEvent>)
    ensures
        feed.forwarded(events).len() > 0 ==> feed.forwarded(events)[0] != feed.last_count,
        forall|i: int|
            0 <= i && i + 1 < feed.forwarded(events).len() ==> #[trigger] feed.forwarded(events)[i]
                != feed.forwarded(events)[i + 1],
        feed.forwarded(events).len() > 0 ==> feed.run(events).last_count == feed.forwarded(
            events,
        ).last(),
        feed.forwarded(events).len() == 0 ==> feed.run(events).last_count == feed.last_count,
    decreases events.len(),
{
    if events.len() > 0 {
        law_forwarded_counts_differ(feed, events.drop_last());
    }
}

} // verus!
