//! The client's connection to the server: when to reconnect, which port to dial, and
//! what to do with each thing that happens on an open connection.
//!
//! The sockets, timers and frames stay with the caller; the decisions are made here.

use vstd::prelude::*;

use crate::protocol::ClientMessage;
use crate::text::str_is;

verus! {

/// The first wait before reconnecting, in milliseconds.
pub const RECONNECT_MIN_MS: u64 = 1000;

/// The longest wait before reconnecting, in milliseconds.
pub const RECONNECT_MAX_MS: u64 = 30000;

/// The interval between heartbeats, in milliseconds.
pub const HEARTBEAT_INTERVAL_MS: u64 = 3000;

/// The wait after `d`: twice as long, at most the longest wait.
pub open spec fn grown(d: u64) -> u64 {
    if 2 * d <= RECONNECT_MAX_MS {
        (2 * d) as u64
    } else {
        RECONNECT_MAX_MS
    }
}

/// The wait before the `k`-th reconnection since the last reset.
pub open spec fn delay_after(k: nat) -> u64
    decreases k,
{
    if k == 0 {
        RECONNECT_MIN_MS
    } else {
        grown(delay_after((k - 1) as nat))
    }
}

/// How long to wait before the next connection attempt.
pub struct ReconnectBackoff {
    delay_ms: u64,
}

impl ReconnectBackoff {
    /// The wait that comes next.
    pub closed spec fn current(&self) -> u64 {
        self.delay_ms
    }

    pub closed spec fn wf(&self) -> bool {
        RECONNECT_MIN_MS <= self.delay_ms <= RECONNECT_MAX_MS
    }

    /// Starts at the shortest wait.
    pub fn new() -> (r: ReconnectBackoff)
        ensures
            r.wf(),
            r.current() == RECONNECT_MIN_MS,
    {
        ReconnectBackoff { delay_ms: RECONNECT_MIN_MS }
    }

    /// A connection succeeded: the next wait is the shortest again.
    pub fn reset(&mut self)
        ensures
            final(self).wf(),
            final(self).current() == RECONNECT_MIN_MS,
    {
        self.delay_ms = RECONNECT_MIN_MS;
    }

    /// Returns the wait before the next attempt, and doubles the one after it, up to the
    /// longest wait.
    pub fn next_delay(&mut self) -> (d: u64)
        requires
            old(self).wf(),
        ensures
            d == old(self).current(),
            final(self).wf(),
            final(self).current() == grown(d),
    {
        let d = self.delay_ms;
        self.delay_ms = if d <= RECONNECT_MAX_MS / 2 {
            d * 2
        } else {
            RECONNECT_MAX_MS
        };
        d
    }
}

/// The waits grow from the shortest to the longest and then stay there: the `k`-th is
/// `min(1 s * 2^k, 30 s)`, always between the two bounds, and never shorter than the one
/// before it.
pub proof fn lemma_backoff_bounds(k: nat)
    ensures
        RECONNECT_MIN_MS <= delay_after(k) <= RECONNECT_MAX_MS,
        delay_after(k) <= delay_after(k + 1),
        k >= 5 ==> delay_after(k) == RECONNECT_MAX_MS,
    decreases k,
{
    if k > 0 {
        lemma_backoff_bounds((k - 1) as nat);
    }
    reveal_with_fuel(delay_after, 6);
}

pub open spec fn lit_wss() -> Seq<char> {
    seq!['w', 's', 's']
}

/// The port to dial: the URL's own, or the scheme's default (443 for `wss`, 80 otherwise).
pub fn port_for(explicit: Option<u16>, scheme: Option<&str>) -> (p: u16)
    ensures
        explicit matches Some(q) ==> p == q,
        explicit is None ==> p == (if scheme matches Some(s) && s@ == lit_wss() {
            443u16
        } else {
            80u16
        }),
{
    match explicit {
        Some(q) => q,
        None => match scheme {
            Some(s) => {
                let wss = vec!['w', 's', 's'];
                assert(wss@ == lit_wss());
                if str_is(s, &wss) {
                    443
                } else {
                    80
                }
            },
            None => 80,
        },
    }
}

/// Something that happened on an open connection.
pub enum SessionEvent<F, E> {
    /// A text frame arrived.
    Text(String),
    /// A ping arrived with this payload.
    Ping(F),
    /// The server closed the connection, or the stream ended.
    Closed,
    /// A binary, pong or raw frame arrived.
    OtherFrame,
    /// Reading failed.
    ReadFailed(E),
    /// The application queued a message for the server.
    Outgoing(ClientMessage),
    /// The application's queue is closed: it is shutting down.
    OutgoingClosed,
    /// The heartbeat interval elapsed.
    HeartbeatTick,
}

/// What to do next on an open connection.
pub enum SessionAction<F, E> {
    /// Hand the text to the dispatcher.
    Dispatch(String),
    /// Answer the ping with a pong carrying the same payload.
    Pong(F),
    /// Send these messages, in order; when `start_ping_after` is `Some(n)`, the ping clock
    /// starts once the first `n` of them are sent.
    Send { messages: Vec<ClientMessage>, start_ping_after: Option<usize> },
    /// Nothing to do.
    Ignore,
    /// The connection ended cleanly.
    End,
    /// The connection ended with this error.
    Fail(E),
}

/// Decides what an event on an open connection leads to: text goes to the dispatcher, a
/// ping is answered, a close or the end of either side ends the connection, a read error
/// fails it, a queued message is sent, and each heartbeat sends `Heartbeat`, starts the
/// ping clock and sends `Ping`.
pub fn on_session_event<F, E>(event: SessionEvent<F, E>) -> (a: SessionAction<F, E>)
    ensures
        match event {
            SessionEvent::Text(t) => a == SessionAction::<F, E>::Dispatch(t),
            SessionEvent::Ping(f) => a == SessionAction::<F, E>::Pong(f),
            SessionEvent::Closed => a is End,
            SessionEvent::OtherFrame => a is Ignore,
            SessionEvent::ReadFailed(e) => a == SessionAction::<F, E>::Fail(e),
            SessionEvent::Outgoing(m) => a matches SessionAction::Send {
                messages,
                start_ping_after,
            } && messages@ == seq![m] && start_ping_after is None,
            SessionEvent::OutgoingClosed => a is End,
            SessionEvent::HeartbeatTick => a matches SessionAction::Send {
                messages,
                start_ping_after,
            } && messages@ == seq![ClientMessage::Heartbeat, ClientMessage::Ping]
                && start_ping_after == Some(1usize),
        },
{
    match event {
        SessionEvent::Text(t) => SessionAction::Dispatch(t),
        SessionEvent::Ping(f) => SessionAction::Pong(f),
        SessionEvent::Closed => SessionAction::End,
        SessionEvent::OtherFrame => SessionAction::Ignore,
        SessionEvent::ReadFailed(e) => SessionAction::Fail(e),
        SessionEvent::Outgoing(m) => {
            let mut messages: Vec<ClientMessage> = Vec::new();
            messages.push(m);
            SessionAction::Send { messages, start_ping_after: None }
        },
        SessionEvent::OutgoingClosed => SessionAction::End,
        SessionEvent::HeartbeatTick => {
            let mut messages: Vec<ClientMessage> = Vec::new();
            messages.push(ClientMessage::Heartbeat);
            messages.push(ClientMessage::Ping);
            SessionAction::Send { messages, start_ping_after: Some(1) }
        },
    }
}

} // verus!
