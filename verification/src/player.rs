//! The client's side of the media player's JSON IPC: how an incoming line is read, how
//! responses find the request that waits for them, how the player is launched and how a
//! connection is retried.
//!
//! JSON values themselves stay with whoever parses them: the logic here is generic over
//! the type of a payload (`D`) and of a waiting request's reply channel (`S`).

use std::collections::HashMap;
use vstd::prelude::*;

use crate::protocol::Snowflake;
use crate::text::{chars_of, concat, dec_nat, push_all, str_is, string_of, trim, trim_ws, u64_to_dec};

verus! {

broadcast use vstd::std_specs::hash::group_hash_axioms;

// ---------------------------------------------------------------------------
// Events and incoming lines
// ---------------------------------------------------------------------------

/// An event from the player. Anything not named here arrives as `Other`, so unknown
/// events do not vanish.
pub enum Event<D> {
    PropertyChange { name: String, data: Option<D> },
    Seek,
    PlaybackRestart,
    FileLoaded,
    EndFile,
    Shutdown,
    Other(String),
}

/// What the logic reads of one JSON object from the player: its string and number
/// members, each present only when it has that type, and its `data` member.
pub struct IpcMessage<D> {
    /// `request_id`, when it is an unsigned integer.
    pub request_id: Option<u64>,
    /// `error`, when it is a string.
    pub error: Option<String>,
    /// `event`, when it is a string.
    pub event: Option<String>,
    /// `name`, when it is a string.
    pub name: Option<String>,
    /// `data`, when present.
    pub data: Option<D>,
}

/// What to do with one incoming object.
pub enum IpcAction<D> {
    /// Hand the result to the request with this id (`Ok(None)` is a null result).
    Resolve { request_id: u64, result: Result<Option<D>, String> },
    /// Publish an event to the subscribers.
    Publish(Event<D>),
    /// Neither a response nor an event: skip it.
    Skip,
}

pub open spec fn lit_success() -> Seq<char> {
    seq!['s', 'u', 'c', 'c', 'e', 's', 's']
}

pub open spec fn lit_unknown_error() -> Seq<char> {
    seq!['u', 'n', 'k', 'n', 'o', 'w', 'n', ' ', 'e', 'r', 'r', 'o', 'r']
}

pub open spec fn lit_property_change() -> Seq<char> {
    seq!['p', 'r', 'o', 'p', 'e', 'r', 't', 'y', '-', 'c', 'h', 'a', 'n', 'g', 'e']
}

pub open spec fn lit_seek() -> Seq<char> {
    seq!['s', 'e', 'e', 'k']
}

pub open spec fn lit_playback_restart() -> Seq<char> {
    seq!['p', 'l', 'a', 'y', 'b', 'a', 'c', 'k', '-', 'r', 'e', 's', 't', 'a', 'r', 't']
}

pub open spec fn lit_file_loaded() -> Seq<char> {
    seq!['f', 'i', 'l', 'e', '-', 'l', 'o', 'a', 'd', 'e', 'd']
}

pub open spec fn lit_end_file() -> Seq<char> {
    seq!['e', 'n', 'd', '-', 'f', 'i', 'l', 'e']
}

pub open spec fn lit_shutdown() -> Seq<char> {
    seq!['s', 'h', 'u', 't', 'd', 'o', 'w', 'n']
}

/// Which event a name stands for: `None` for a property change or an unknown name,
/// which carry text of their own.
pub open spec fn plain_event_kind<D>(name: Seq<char>) -> Option<Event<D>> {
    if name == lit_seek() {
        Some(Event::Seek)
    } else if name == lit_playback_restart() {
        Some(Event::PlaybackRestart)
    } else if name == lit_file_loaded() {
        Some(Event::FileLoaded)
    } else if name == lit_end_file() {
        Some(Event::EndFile)
    } else if name == lit_shutdown() {
        Some(Event::Shutdown)
    } else {
        None
    }
}

/// The text of an optional string, the empty text when absent.
pub open spec fn text_or_empty(s: Option<String>) -> Seq<char> {
    match s {
        Some(t) => t@,
        None => seq![],
    }
}

/// Whether an event is the one named `name`, with the message's `name` and `data` for a
/// property change.
pub open spec fn event_matches<D>(e: Event<D>, name: Seq<char>, msg: IpcMessage<D>) -> bool {
    if name == lit_property_change() {
        e matches Event::PropertyChange { name: n, data } && n@ == text_or_empty(msg.name)
            && data == msg.data
    } else {
        match plain_event_kind::<D>(name) {
            Some(k) => e == k,
            None => e matches Event::Other(o) && o@ == name,
        }
    }
}

/// Reads one object from the player. A response carries a `request_id`: it succeeded
/// when `error` is `"success"` (its `data` is the result), and otherwise failed with the
/// `error` text, `"unknown error"` when there is none. An event carries an `event`
/// name. Anything else is skipped.
pub fn classify_ipc<D>(msg: IpcMessage<D>) -> (r: IpcAction<D>)
    ensures
        match msg.request_id {
            Some(id) => r matches IpcAction::Resolve { request_id, result } && request_id == id
                && if msg.error matches Some(e) && e@ == lit_success() {
                result == Ok::<Option<D>, String>(msg.data)
            } else {
                result matches Err(t) && t@ == match msg.error {
                    Some(e) => e@,
                    None => lit_unknown_error(),
                }
            },
            None => match msg.event {
                Some(name) => r matches IpcAction::Publish(e) && event_matches(e, name@, msg),
                None => r is Skip,
            },
        },
{
    let ghost whole = msg;
    let IpcMessage { request_id, error, event, name, data } = msg;
    match request_id {
        Some(id) => {
            let success = vec!['s', 'u', 'c', 'c', 'e', 's', 's'];
            let ok = match &error {
                Some(e) => str_is(e.as_str(), &success),
                None => false,
            };
            assert(success@ == lit_success());
            if ok {
                IpcAction::Resolve { request_id: id, result: Ok(data) }
            } else {
                let text = match error {
                    Some(e) => e,
                    None => {
                        let u = vec!['u', 'n', 'k', 'n', 'o', 'w', 'n', ' ', 'e', 'r', 'r', 'o', 'r'];
                        assert(u@ == lit_unknown_error());
                        string_of(&u)
                    },
                };
                IpcAction::Resolve { request_id: id, result: Err(text) }
            }
        },
        None => match event {
            Some(ev) => IpcAction::Publish(event_named(ev, name, data)),
            None => IpcAction::Skip,
        },
    }
}

/// The event called `ev`, with `name` and `data` for a property change.
fn event_named<D>(ev: String, name: Option<String>, data: Option<D>) -> (e: Event<D>)
    ensures
        event_matches(e, ev@, IpcMessage { request_id: None, error: None, event: None, name, data }),
{
    let s = ev.as_str();
    if str_is(s, &vec!['p', 'r', 'o', 'p', 'e', 'r', 't', 'y', '-', 'c', 'h', 'a', 'n', 'g', 'e']) {
        let n = match name {
            Some(n) => n,
            None => string_of(&Vec::new()),
        };
        Event::PropertyChange { name: n, data }
    } else if str_is(s, &vec!['s', 'e', 'e', 'k']) {
        Event::Seek
    } else if str_is(
        s,
        &vec!['p', 'l', 'a', 'y', 'b', 'a', 'c', 'k', '-', 'r', 'e', 's', 't', 'a', 'r', 't'],
    ) {
        Event::PlaybackRestart
    } else if str_is(s, &vec!['f', 'i', 'l', 'e', '-', 'l', 'o', 'a', 'd', 'e', 'd']) {
        Event::FileLoaded
    } else if str_is(s, &vec!['e', 'n', 'd', '-', 'f', 'i', 'l', 'e']) {
        Event::EndFile
    } else if str_is(s, &vec!['s', 'h', 'u', 't', 'd', 'o', 'w', 'n']) {
        Event::Shutdown
    } else {
        Event::Other(ev)
    }
}

/// The text of an incoming line worth parsing: the line without surrounding white space,
/// or `None` when nothing is left.
pub fn line_payload(line: &str) -> (r: Option<String>)
    ensures
        trim(line@).len() == 0 ==> r is None,
        trim(line@).len() > 0 ==> (r matches Some(t) && t@ == trim(line@)),
{
    let chars = chars_of(line);
    let t = trim_ws(&chars);
    if t.len() == 0 {
        None
    } else {
        Some(string_of(&t))
    }
}

// ---------------------------------------------------------------------------
// Requests waiting for their response
// ---------------------------------------------------------------------------

/// The requests sent to the player and not answered yet, each with the channel that
/// takes its reply, and the id the next request gets.
pub struct PendingRequests<S> {
    next_id: u64,
    pending: HashMap<u64, S>,
}

impl<S> PendingRequests<S> {
    /// The id the next request gets.
    pub closed spec fn next(&self) -> u64 {
        self.next_id
    }

    /// The waiting requests, by id.
    pub closed spec fn waiting(&self) -> Map<u64, S> {
        self.pending@
    }

    /// No request waits; the first gets id 1.
    pub fn new() -> (r: PendingRequests<S>)
        ensures
            r.next() == 1,
            r.waiting() == Map::<u64, S>::empty(),
    {
        PendingRequests { next_id: 1, pending: HashMap::new() }
    }

    /// Registers a request that waits for its reply on `reply`; returns its id. Ids are
    /// handed out in increasing order, wrapping around after `u64::MAX`.
    pub fn register(&mut self, reply: S) -> (id: u64)
        ensures
            id == old(self).next(),
            final(self).next() == (if old(self).next() == u64::MAX {
                0
            } else {
                old(self).next() + 1
            }),
            final(self).waiting() == old(self).waiting().insert(id, reply),
    {
        let id = self.next_id;
        self.next_id = self.next_id.wrapping_add(1);
        self.pending.insert(id, reply);
        id
    }

    /// Takes the request with this id out of the waiting set: a response, a timeout or a
    /// failed write ends the wait. `None` when no request waits under that id.
    pub fn take(&mut self, id: u64) -> (r: Option<S>)
        ensures
            final(self).next() == old(self).next(),
            final(self).waiting() == old(self).waiting().remove(id),
            old(self).waiting().contains_key(id) ==> r == Some(old(self).waiting()[id]),
            !old(self).waiting().contains_key(id) ==> r is None,
    {
        self.pending.remove(&id)
    }

    /// Whether a request waits under this id.
    pub fn is_waiting(&self, id: u64) -> (r: bool)
        ensures
            r == self.waiting().contains_key(id),
    {
        self.pending.contains_key(&id)
    }
}

/// How waiting for a reply ended.
pub enum ReplyOutcome<D> {
    /// The reader handed over the player's answer.
    Replied(Result<D, String>),
    /// The reply channel closed without an answer (the connection went away).
    ChannelDropped,
    /// No answer came in time.
    TimedOut,
}

pub open spec fn lit_mpv_error() -> Seq<char> {
    seq!['m', 'p', 'v', ' ', 'e', 'r', 'r', 'o', 'r', ':', ' ']
}

pub open spec fn lit_channel_dropped() -> Seq<char> {
    seq![
        'R', 'e', 's', 'p', 'o', 'n', 's', 'e', ' ', 'c', 'h', 'a', 'n', 'n', 'e', 'l', ' ', 'd',
        'r', 'o', 'p', 'p', 'e', 'd', ' ', '(', 'c', 'o', 'n', 'n', 'e', 'c', 't', 'i', 'o', 'n',
        ' ', 'c', 'l', 'o', 's', 'e', 'd', '?', ')'
    ]
}

pub open spec fn lit_timed_out() -> Seq<char> {
    seq![
        'T', 'i', 'm', 'e', 'd', ' ', 'o', 'u', 't', ' ', 'w', 'a', 'i', 't', 'i', 'n', 'g', ' ',
        'f', 'o', 'r', ' ', 'm', 'p', 'v', ' ', 'r', 'e', 's', 'p', 'o', 'n', 's', 'e'
    ]
}

pub open spec fn lit_send_failed() -> Seq<char> {
    seq![
        'F', 'a', 'i', 'l', 'e', 'd', ' ', 't', 'o', ' ', 's', 'e', 'n', 'd', ' ', 'c', 'o', 'm',
        'm', 'a', 'n', 'd', ':', ' '
    ]
}

impl<S> PendingRequests<S> {
    /// Ends the wait of request `id`: an answer is the command's result (an error answer
    /// reads `mpv error: {error}`); a dropped channel and a timeout are errors of their
    /// own, and after a timeout the request stops waiting.
    pub fn conclude<D>(&mut self, id: u64, outcome: ReplyOutcome<D>) -> (r: Result<D, String>)
        ensures
            final(self).next() == old(self).next(),
            outcome is TimedOut ==> final(self).waiting() == old(self).waiting().remove(id),
            !(outcome is TimedOut) ==> final(self).waiting() == old(self).waiting(),
            match outcome {
                ReplyOutcome::Replied(Ok(v)) => r == Ok::<D, String>(v),
                ReplyOutcome::Replied(Err(e)) => r matches Err(m) && m@ == lit_mpv_error() + e@,
                ReplyOutcome::ChannelDropped => r matches Err(m) && m@ == lit_channel_dropped(),
                ReplyOutcome::TimedOut => r matches Err(m) && m@ == lit_timed_out(),
            },
    {
        match outcome {
            ReplyOutcome::Replied(Ok(v)) => Ok(v),
            ReplyOutcome::Replied(Err(e)) => {
                let mut m = vec!['m', 'p', 'v', ' ', 'e', 'r', 'r', 'o', 'r', ':', ' '];
                assert(m@ == lit_mpv_error());
                push_all(&mut m, &chars_of(e.as_str()));
                Err(string_of(&m))
            },
            ReplyOutcome::ChannelDropped => {
                let m = vec![
                    'R', 'e', 's', 'p', 'o', 'n', 's', 'e', ' ', 'c', 'h', 'a', 'n', 'n', 'e', 'l',
                    ' ', 'd', 'r', 'o', 'p', 'p', 'e', 'd', ' ', '(', 'c', 'o', 'n', 'n', 'e', 'c',
                    't', 'i', 'o', 'n', ' ', 'c', 'l', 'o', 's', 'e', 'd', '?', ')'
                ];
                assert(m@ == lit_channel_dropped());
                Err(string_of(&m))
            },
            ReplyOutcome::TimedOut => {
                self.take(id);
                let m = vec![
                    'T', 'i', 'm', 'e', 'd', ' ', 'o', 'u', 't', ' ', 'w', 'a', 'i', 't', 'i', 'n',
                    'g', ' ', 'f', 'o', 'r', ' ', 'm', 'p', 'v', ' ', 'r', 'e', 's', 'p', 'o', 'n',
                    's', 'e'
                ];
                assert(m@ == lit_timed_out());
                Err(string_of(&m))
            },
        }
    }

    /// Writing request `id` failed: it stops waiting, and the error reads
    /// `Failed to send command: {error}`.
    pub fn write_failed(&mut self, id: u64, error: &str) -> (r: String)
        ensures
            final(self).next() == old(self).next(),
            final(self).waiting() == old(self).waiting().remove(id),
            r@ == lit_send_failed() + error@,
    {
        self.take(id);
        let mut m = vec![
            'F', 'a', 'i', 'l', 'e', 'd', ' ', 't', 'o', ' ', 's', 'e', 'n', 'd', ' ', 'c', 'o',
            'm', 'm', 'a', 'n', 'd', ':', ' '
        ];
        assert(m@ == lit_send_failed());
        push_all(&mut m, &chars_of(error));
        string_of(&m)
    }
}

/// A reply reaches the request it answers once: taking it hands over the channel it was
/// registered with, and a second take under the same id finds nothing.
pub proof fn lemma_reply_once<S>(waiting: Map<u64, S>, id: u64, reply: S)
    requires
        !waiting.contains_key(id),
    ensures
        waiting.insert(id, reply).contains_key(id),
        waiting.insert(id, reply)[id] == reply,
        waiting.insert(id, reply).remove(id) == waiting,
        !waiting.insert(id, reply).remove(id).contains_key(id),
{
    assert(waiting.insert(id, reply).remove(id) =~= waiting);
}

// ---------------------------------------------------------------------------
// Launching and connecting
// ---------------------------------------------------------------------------

pub open spec fn lit_ipc_server_flag() -> Seq<char> {
    seq![
        '-', '-', 'i', 'n', 'p', 'u', 't', '-', 'i', 'p', 'c', '-', 's', 'e', 'r', 'v', 'e', 'r',
        '='
    ]
}

pub open spec fn lit_idle_flag() -> Seq<char> {
    seq!['-', '-', 'i', 'd', 'l', 'e', '=', 'y', 'e', 's']
}

pub open spec fn lit_pause_flag() -> Seq<char> {
    seq!['-', '-', 'p', 'a', 'u', 's', 'e']
}

pub open spec fn lit_force_window_flag() -> Seq<char> {
    seq!['-', '-', 'f', 'o', 'r', 'c', 'e', '-', 'w', 'i', 'n', 'd', 'o', 'w', '=', 'y', 'e', 's']
}

/// The player's command line after the binary: the IPC socket, idle and paused in a
/// window of its own, then the video.
pub open spec fn launch_args(socket_path: Seq<char>, video_path: Seq<char>) -> Seq<Seq<char>> {
    seq![
        lit_ipc_server_flag() + socket_path,
        lit_idle_flag(),
        lit_pause_flag(),
        lit_force_window_flag(),
        video_path,
    ]
}

/// The arguments the player is started with.
pub fn mpv_launch_args(socket_path: &str, video_path: &str) -> (r: Vec<String>)
    ensures
        r@.len() == 5,
        forall|i: int| 0 <= i < 5 ==> #[trigger] r@[i]@ == launch_args(socket_path@, video_path@)[i],
{
    let flag = vec![
        '-', '-', 'i', 'n', 'p', 'u', 't', '-', 'i', 'p', 'c', '-', 's', 'e', 'r', 'v', 'e', 'r',
        '='
    ];
    let ipc = concat(&flag, &chars_of(socket_path));
    let idle = vec!['-', '-', 'i', 'd', 'l', 'e', '=', 'y', 'e', 's'];
    let pause = vec!['-', '-', 'p', 'a', 'u', 's', 'e'];
    let window = vec![
        '-', '-', 'f', 'o', 'r', 'c', 'e', '-', 'w', 'i', 'n', 'd', 'o', 'w', '=', 'y', 'e', 's'
    ];
    let video = chars_of(video_path);
    let mut r: Vec<String> = Vec::new();
    r.push(string_of(&ipc));
    r.push(string_of(&idle));
    r.push(string_of(&pause));
    r.push(string_of(&window));
    r.push(string_of(&video));
    proof {
        let a = launch_args(socket_path@, video_path@);
        assert(flag@ == lit_ipc_server_flag());
        assert(idle@ == lit_idle_flag());
        assert(pause@ == lit_pause_flag());
        assert(window@ == lit_force_window_flag());
        assert(r@[0]@ == a[0]);
        assert(r@[1]@ == a[1]);
        assert(r@[2]@ == a[2]);
        assert(r@[3]@ == a[3]);
        assert(r@[4]@ == a[4]);
    }
    r
}

pub open spec fn lit_connect_failed() -> Seq<char> {
    seq![
        'F', 'a', 'i', 'l', 'e', 'd', ' ', 't', 'o', ' ', 'c', 'o', 'n', 'n', 'e', 'c', 't', ' ',
        'a', 'f', 't', 'e', 'r', ' '
    ]
}

pub open spec fn lit_attempts() -> Seq<char> {
    seq![' ', 'a', 't', 't', 'e', 'm', 'p', 't', 's', ':', ' ']
}

/// Connecting to the player's socket, a bounded number of times.
pub struct ConnectRetry {
    max_attempts: u32,
    attempts: u32,
    last_error: String,
}

impl ConnectRetry {
    pub closed spec fn max(&self) -> u32 {
        self.max_attempts
    }

    pub closed spec fn made(&self) -> u32 {
        self.attempts
    }

    /// The error of the last failed attempt, empty before any.
    pub closed spec fn last_error(&self) -> Seq<char> {
        self.last_error@
    }

    pub closed spec fn wf(&self) -> bool {
        self.attempts <= self.max_attempts
    }

    /// No attempt made yet.
    pub fn new(max_attempts: u32) -> (r: ConnectRetry)
        ensures
            r.wf(),
            r.max() == max_attempts,
            r.made() == 0,
            r.last_error() == Seq::<char>::empty(),
    {
        ConnectRetry { max_attempts, attempts: 0, last_error: string_of(&Vec::new()) }
    }

    /// Whether another attempt is due.
    pub fn should_attempt(&self) -> (r: bool)
        ensures
            r == (self.made() < self.max()),
    {
        self.attempts < self.max_attempts
    }

    /// Records a failed attempt (the caller waits before the next one).
    pub fn record_failure(&mut self, error: String)
        requires
            old(self).wf(),
            old(self).made() < old(self).max(),
        ensures
            final(self).wf(),
            final(self).max() == old(self).max(),
            final(self).made() == old(self).made() + 1,
            final(self).last_error() == error@,
    {
        self.attempts = self.attempts + 1;
        self.last_error = error;
    }

    /// The error once every attempt failed:
    /// `"Failed to connect after {max} attempts: {last error}"`.
    pub fn failure_message(&self) -> (r: String)
        ensures
            r@ == lit_connect_failed() + dec_nat(self.max() as nat) + lit_attempts()
                + self.last_error(),
    {
        let mut t = vec![
            'F', 'a', 'i', 'l', 'e', 'd', ' ', 't', 'o', ' ', 'c', 'o', 'n', 'n', 'e', 'c', 't',
            ' ', 'a', 'f', 't', 'e', 'r', ' '
        ];
        assert(t@ == lit_connect_failed());
        push_all(&mut t, &u64_to_dec(self.max_attempts as u64));
        let a = vec![' ', 'a', 't', 't', 'e', 'm', 'p', 't', 's', ':', ' '];
        assert(a@ == lit_attempts());
        push_all(&mut t, &a);
        push_all(&mut t, &chars_of(self.last_error.as_str()));
        string_of(&t)
    }
}

// ---------------------------------------------------------------------------
// Reacting to the player's events
// ---------------------------------------------------------------------------

/// The readiness request waiting for the player to finish loading its file.
pub struct ConfirmationSlot {
    pending: Option<Snowflake>,
}

/// What the client does about a player event.
pub enum MpvReaction {
    /// Tell the server this client is ready for the request.
    ConfirmReady { request_id: Snowflake },
    /// The player went away: stop it, so the next playback starts it afresh.
    Stop,
    Nothing,
}

impl ConfirmationSlot {
    pub closed spec fn armed(&self) -> Option<Snowflake> {
        self.pending
    }

    pub fn new() -> (r: ConfirmationSlot)
        ensures
            r.armed() is None,
    {
        ConfirmationSlot { pending: None }
    }

    /// Waits for the next loaded file to confirm `request_id`, replacing any earlier
    /// request.
    pub fn arm(&mut self, request_id: Snowflake)
        ensures
            final(self).armed() == Some(request_id),
    {
        self.pending = Some(request_id);
    }

    /// Takes the waiting request, if any.
    pub fn take(&mut self) -> (r: Option<Snowflake>)
        ensures
            r == old(self).armed(),
            final(self).armed() is None,
    {
        self.pending.take()
    }

    /// Reacts to a player event: a loaded file confirms the waiting request, once; the
    /// player's shutdown stops it; nothing else is acted on.
    pub fn react<D>(&mut self, event: &Event<D>) -> (r: MpvReaction)
        ensures
            match *event {
                Event::FileLoaded => final(self).armed() is None && match old(self).armed() {
                    Some(id) => r == (MpvReaction::ConfirmReady { request_id: id }),
                    None => r is Nothing,
                },
                Event::Shutdown => r is Stop && final(self).armed() == old(self).armed(),
                _ => r is Nothing && final(self).armed() == old(self).armed(),
            },
    {
        match event {
            Event::FileLoaded => match self.take() {
                Some(request_id) => MpvReaction::ConfirmReady { request_id },
                None => MpvReaction::Nothing,
            },
            Event::Shutdown => MpvReaction::Stop,
            _ => MpvReaction::Nothing,
        }
    }
}

} // verus!
