//! The owner-based room session: a connection that learns this client's id and whether
//! it owns the room, follows transfers of ownership, and forgets both when it closes.

use vstd::prelude::*;

use crate::config::{format_url, ws_url};
use crate::text::{chars_eq, chars_of, push_all, string_of};

verus! {

/// A user of the room.
pub struct User {
    pub id: String,
    pub username: Option<String>,
    pub is_owner: bool,
    pub is_ready: bool,
    pub status: UserStatus,
}

/// Where a user stands before playback.
#[derive(Clone, Copy, PartialEq, Eq, Structural, Debug)]
pub enum UserStatus {
    Ready,
    Waiting,
    Error,
}

/// What a user may do to playback.
pub struct UserPermission {
    pub user_id: String,
    pub allow_pause: bool,
    pub allow_seek: bool,
    pub allow_subtitle: bool,
    pub allow_audio: bool,
}

/// Who wrote an activity log line.
#[derive(Clone, Copy, PartialEq, Eq, Structural, Debug)]
pub enum LogSource {
    Server,
    Client,
}

/// The kinds of message the room's server sends.
#[derive(Clone, Copy, PartialEq, Eq, Structural, Debug)]
pub enum RoomMessageKind {
    Connected,
    UserUpdate,
    PermissionsUpdate,
    PlaylistUpdate,
    ActivityLog,
    Pause,
    Play,
    Seek,
    SubtitleTrack,
    AudioTrack,
    Ready,
    AllReady,
    VideoUploaded,
    OwnershipTransferred,
    Error,
    Pong,
    DownloadProgress,
}

/// The interface event raised for a kind of message besides the general `ws-message`:
/// `ws-` and the kind's name in kebab case; none for `Pong`.
pub open spec fn specific_event(kind: RoomMessageKind) -> Option<Seq<char>> {
    match kind {
        RoomMessageKind::Connected => Some(seq!['w', 's', '-', 'c', 'o', 'n', 'n', 'e', 'c', 't', 'e', 'd']),
        RoomMessageKind::UserUpdate => Some(
            seq!['w', 's', '-', 'u', 's', 'e', 'r', '-', 'u', 'p', 'd', 'a', 't', 'e'],
        ),
        RoomMessageKind::PermissionsUpdate => Some(
            seq![
                'w', 's', '-', 'p', 'e', 'r', 'm', 'i', 's', 's', 'i', 'o', 'n', 's', '-', 'u', 'p',
                'd', 'a', 't', 'e'
            ],
        ),
        RoomMessageKind::PlaylistUpdate => Some(
            seq!['w', 's', '-', 'p', 'l', 'a', 'y', 'l', 'i', 's', 't', '-', 'u', 'p', 'd', 'a', 't', 'e'],
        ),
        RoomMessageKind::ActivityLog => Some(
            seq!['w', 's', '-', 'a', 'c', 't', 'i', 'v', 'i', 't', 'y', '-', 'l', 'o', 'g'],
        ),
        RoomMessageKind::Pause => Some(seq!['w', 's', '-', 'p', 'a', 'u', 's', 'e']),
        RoomMessageKind::Play => Some(seq!['w', 's', '-', 'p', 'l', 'a', 'y']),
        RoomMessageKind::Seek => Some(seq!['w', 's', '-', 's', 'e', 'e', 'k']),
        RoomMessageKind::SubtitleTrack => Some(
            seq!['w', 's', '-', 's', 'u', 'b', 't', 'i', 't', 'l', 'e', '-', 't', 'r', 'a', 'c', 'k'],
        ),
        RoomMessageKind::AudioTrack => Some(
            seq!['w', 's', '-', 'a', 'u', 'd', 'i', 'o', '-', 't', 'r', 'a', 'c', 'k'],
        ),
        RoomMessageKind::Ready => Some(seq!['w', 's', '-', 'r', 'e', 'a', 'd', 'y']),
        RoomMessageKind::AllReady => Some(seq!['w', 's', '-', 'a', 'l', 'l', '-', 'r', 'e', 'a', 'd', 'y']),
        RoomMessageKind::VideoUploaded => Some(
            seq!['w', 's', '-', 'v', 'i', 'd', 'e', 'o', '-', 'u', 'p', 'l', 'o', 'a', 'd', 'e', 'd'],
        ),
        RoomMessageKind::OwnershipTransferred => Some(
            seq![
                'w', 's', '-', 'o', 'w', 'n', 'e', 'r', 's', 'h', 'i', 'p', '-', 't', 'r', 'a', 'n',
                's', 'f', 'e', 'r', 'r', 'e', 'd'
            ],
        ),
        RoomMessageKind::Error => Some(seq!['w', 's', '-', 'e', 'r', 'r', 'o', 'r']),
        RoomMessageKind::Pong => None,
        RoomMessageKind::DownloadProgress => Some(
            seq![
                'w', 's', '-', 'd', 'o', 'w', 'n', 'l', 'o', 'a', 'd', '-', 'p', 'r', 'o', 'g', 'r',
                'e', 's', 's'
            ],
        ),
    }
}

/// Every specific event is named `ws-` and something more, and no two kinds of message
/// raise the same event: the interface can tell which kind arrived from the name alone.
pub proof fn lemma_event_names_distinct(a: RoomMessageKind, b: RoomMessageKind)
    ensures
        specific_event(a) matches Some(n) ==> n.len() > 3 && n[0] == 'w' && n[1] == 's' && n[2] == '-',
        a != b ==> specific_event(a) != specific_event(b),
        (specific_event(a) is None) == (a == RoomMessageKind::Pong),
{
    if a != b && specific_event(a) == specific_event(b) {
        let x = specific_event(a);
        let y = specific_event(b);
        if x is Some {
            let n = x->Some_0;
            assert(n.len() == y->Some_0.len());
            assert(n[3] == y->Some_0[3]);
            assert(n[4] == y->Some_0[4]);
            assert(n[5] == y->Some_0[5]);
            assert(n[n.len() - 1] == y->Some_0[n.len() - 1]);
        }
    }
}

/// The specific interface event for a kind of message.
pub fn specific_event_name(kind: RoomMessageKind) -> (r: Option<String>)
    ensures
        match specific_event(kind) {
            Some(t) => r matches Some(s) && s@ == t,
            None => r is None,
        },
        match kind {
            RoomMessageKind::Connected => r matches Some(s) && s@ == seq!['w', 's', '-', 'c', 'o', 'n', 'n', 'e', 'c', 't', 'e', 'd'],
            RoomMessageKind::UserUpdate => r matches Some(s) && s@ == seq!['w', 's', '-', 'u', 's', 'e', 'r', '-', 'u', 'p', 'd', 'a', 't', 'e'],
            RoomMessageKind::PermissionsUpdate => r matches Some(s) && s@ == seq!['w', 's', '-', 'p', 'e', 'r', 'm', 'i', 's', 's', 'i', 'o', 'n', 's', '-', 'u', 'p', 'd', 'a', 't', 'e'],
            RoomMessageKind::PlaylistUpdate => r matches Some(s) && s@ == seq!['w', 's', '-', 'p', 'l', 'a', 'y', 'l', 'i', 's', 't', '-', 'u', 'p', 'd', 'a', 't', 'e'],
            RoomMessageKind::ActivityLog => r matches Some(s) && s@ == seq!['w', 's', '-', 'a', 'c', 't', 'i', 'v', 'i', 't', 'y', '-', 'l', 'o', 'g'],
            RoomMessageKind::Pause => r matches Some(s) && s@ == seq!['w', 's', '-', 'p', 'a', 'u', 's', 'e'],
            RoomMessageKind::Play => r matches Some(s) && s@ == seq!['w', 's', '-', 'p', 'l', 'a', 'y'],
            RoomMessageKind::Seek => r matches Some(s) && s@ == seq!['w', 's', '-', 's', 'e', 'e', 'k'],
            RoomMessageKind::SubtitleTrack => r matches Some(s) && s@ == seq!['w', 's', '-', 's', 'u', 'b', 't', 'i', 't', 'l', 'e', '-', 't', 'r', 'a', 'c', 'k'],
            RoomMessageKind::AudioTrack => r matches Some(s) && s@ == seq!['w', 's', '-', 'a', 'u', 'd', 'i', 'o', '-', 't', 'r', 'a', 'c', 'k'],
            RoomMessageKind::Ready => r matches Some(s) && s@ == seq!['w', 's', '-', 'r', 'e', 'a', 'd', 'y'],
            RoomMessageKind::AllReady => r matches Some(s) && s@ == seq!['w', 's', '-', 'a', 'l', 'l', '-', 'r', 'e', 'a', 'd', 'y'],
            RoomMessageKind::VideoUploaded => r matches Some(s) && s@ == seq!['w', 's', '-', 'v', 'i', 'd', 'e', 'o', '-', 'u', 'p', 'l', 'o', 'a', 'd', 'e', 'd'],
            RoomMessageKind::OwnershipTransferred => r matches Some(s) && s@ == seq!['w', 's', '-', 'o', 'w', 'n', 'e', 'r', 's', 'h', 'i', 'p', '-', 't', 'r', 'a', 'n', 's', 'f', 'e', 'r', 'r', 'e', 'd'],
            RoomMessageKind::Error => r matches Some(s) && s@ == seq!['w', 's', '-', 'e', 'r', 'r', 'o', 'r'],
            RoomMessageKind::Pong => r is None,
            RoomMessageKind::DownloadProgress => r matches Some(s) && s@ == seq!['w', 's', '-', 'd', 'o', 'w', 'n', 'l', 'o', 'a', 'd', '-', 'p', 'r', 'o', 'g', 'r', 'e', 's', 's'],
        },
{
    let v: Vec<char> = match kind {
        RoomMessageKind::Connected => vec!['w', 's', '-', 'c', 'o', 'n', 'n', 'e', 'c', 't', 'e', 'd'],
        RoomMessageKind::UserUpdate => vec![
            'w', 's', '-', 'u', 's', 'e', 'r', '-', 'u', 'p', 'd', 'a', 't', 'e'
        ],
        RoomMessageKind::PermissionsUpdate => vec![
            'w', 's', '-', 'p', 'e', 'r', 'm', 'i', 's', 's', 'i', 'o', 'n', 's', '-', 'u', 'p',
            'd', 'a', 't', 'e'
        ],
        RoomMessageKind::PlaylistUpdate => vec![
            'w', 's', '-', 'p', 'l', 'a', 'y', 'l', 'i', 's', 't', '-', 'u', 'p', 'd', 'a', 't', 'e'
        ],
        RoomMessageKind::ActivityLog => vec![
            'w', 's', '-', 'a', 'c', 't', 'i', 'v', 'i', 't', 'y', '-', 'l', 'o', 'g'
        ],
        RoomMessageKind::Pause => vec!['w', 's', '-', 'p', 'a', 'u', 's', 'e'],
        RoomMessageKind::Play => vec!['w', 's', '-', 'p', 'l', 'a', 'y'],
        RoomMessageKind::Seek => vec!['w', 's', '-', 's', 'e', 'e', 'k'],
        RoomMessageKind::SubtitleTrack => vec![
            'w', 's', '-', 's', 'u', 'b', 't', 'i', 't', 'l', 'e', '-', 't', 'r', 'a', 'c', 'k'
        ],
        RoomMessageKind::AudioTrack => vec![
            'w', 's', '-', 'a', 'u', 'd', 'i', 'o', '-', 't', 'r', 'a', 'c', 'k'
        ],
        RoomMessageKind::Ready => vec!['w', 's', '-', 'r', 'e', 'a', 'd', 'y'],
        RoomMessageKind::AllReady => vec!['w', 's', '-', 'a', 'l', 'l', '-', 'r', 'e', 'a', 'd', 'y'],
        RoomMessageKind::VideoUploaded => vec![
            'w', 's', '-', 'v', 'i', 'd', 'e', 'o', '-', 'u', 'p', 'l', 'o', 'a', 'd', 'e', 'd'
        ],
        RoomMessageKind::OwnershipTransferred => vec![
            'w', 's', '-', 'o', 'w', 'n', 'e', 'r', 's', 'h', 'i', 'p', '-', 't', 'r', 'a', 'n',
            's', 'f', 'e', 'r', 'r', 'e', 'd'
        ],
        RoomMessageKind::Error => vec!['w', 's', '-', 'e', 'r', 'r', 'o', 'r'],
        RoomMessageKind::Pong => {
            return None;
        },
        RoomMessageKind::DownloadProgress => vec![
            'w', 's', '-', 'd', 'o', 'w', 'n', 'l', 'o', 'a', 'd', '-', 'p', 'r', 'o', 'g', 'r',
            'e', 's', 's'
        ],
    };
    assert(specific_event(kind) == Some(v@));
    Some(string_of(&v))
}

/// `"Already connected"`.
pub open spec fn lit_already_connected() -> Seq<char> {
    seq!['A', 'l', 'r', 'e', 'a', 'd', 'y', ' ', 'c', 'o', 'n', 'n', 'e', 'c', 't', 'e', 'd']
}

/// `"Not connected"`.
pub open spec fn lit_not_connected() -> Seq<char> {
    seq!['N', 'o', 't', ' ', 'c', 'o', 'n', 'n', 'e', 'c', 't', 'e', 'd']
}

/// `"Failed to connect: "`.
pub open spec fn lit_failed_to_connect() -> Seq<char> {
    seq!['F', 'a', 'i', 'l', 'e', 'd', ' ', 't', 'o', ' ', 'c', 'o', 'n', 'n', 'e', 'c', 't', ':', ' ']
}

/// `"Failed to upgrade connection: "`.
pub open spec fn lit_failed_to_upgrade() -> Seq<char> {
    seq![
        'F', 'a', 'i', 'l', 'e', 'd', ' ', 't', 'o', ' ', 'u', 'p', 'g', 'r', 'a', 'd', 'e', ' ', 'c',
        'o', 'n', 'n', 'e', 'c', 't', 'i', 'o', 'n', ':', ' '
    ]
}

/// The upgrade request that opens a connection: the websocket address and the access key
/// sent in `X-Access-Key`.
pub struct ConnectRequest {
    pub url: String,
    pub access_key: String,
}

/// Why opening a connection failed, with the error's text.
pub enum ConnectFailure {
    /// The request could not be sent.
    Connect(String),
    /// The server did not upgrade the connection.
    Upgrade(String),
}

/// A connection to the room, as this client sees it.
pub struct RoomSession {
    connected: bool,
    has_sender: bool,
    client_id: Option<String>,
    is_owner: bool,
}

impl RoomSession {
    pub closed spec fn is_open(&self) -> bool {
        self.connected
    }

    /// The id the server gave this client, when it gave one.
    pub closed spec fn id(&self) -> Option<Seq<char>> {
        match self.client_id {
            Some(s) => Some(s@),
            None => None,
        }
    }

    pub closed spec fn owns(&self) -> bool {
        self.is_owner
    }

    /// Whether a queue to the server is in place (from connecting until hanging up; a
    /// close reported by the connection leaves it).
    pub closed spec fn can_queue(&self) -> bool {
        self.has_sender
    }

    /// Not connected, no id, not the owner.
    pub fn new() -> (r: RoomSession)
        ensures
            !r.is_open(),
            r.id() is None,
            !r.owns(),
            !r.can_queue(),
    {
        RoomSession { connected: false, has_sender: false, client_id: None, is_owner: false }
    }

    /// Whether the connection is open.
    pub fn is_connected(&self) -> (r: bool)
        ensures
            r == self.is_open(),
    {
        self.connected
    }

    /// Whether this client owns the room.
    pub fn is_owner(&self) -> (r: bool)
        ensures
            r == self.owns(),
    {
        self.is_owner
    }

    /// The id the server gave this client.
    pub fn client_id(&self) -> (r: Option<String>)
        ensures
            match r {
                Some(s) => self.id() == Some(s@),
                None => self.id() is None,
            },
    {
        match &self.client_id {
            Some(s) => Some(s.clone()),
            None => None,
        }
    }

    /// Checks that a new connection may be made: not while one is open.
    pub fn check_can_connect(&self) -> (r: Result<(), String>)
        ensures
            self.is_open() ==> (r matches Err(m) && m@ == lit_already_connected()),
            !self.is_open() ==> r is Ok,
    {
        if self.connected {
            let m = vec!['A', 'l', 'r', 'e', 'a', 'd', 'y', ' ', 'c', 'o', 'n', 'n', 'e', 'c', 't', 'e', 'd'];
            assert(m@ == lit_already_connected());
            Err(string_of(&m))
        } else {
            Ok(())
        }
    }

    /// The request that opens a connection to `url` with `password`: refused with
    /// `Already connected` while a connection is open; otherwise addressed to the websocket
    /// endpoint of `url` (see `ws_url`) and carrying `password` as the access key.
    pub fn connect_request(&self, url: &str, password: String) -> (r: Result<ConnectRequest, String>)
        ensures
            self.is_open() ==> (r matches Err(m) && m@ == lit_already_connected()),
            !self.is_open() ==> (r matches Ok(q) && q.url@ == ws_url(url@) && q.access_key@ == password@),
    {
        match self.check_can_connect() {
            Err(m) => Err(m),
            Ok(()) => {
                let base = string_of(&chars_of(url));
                Ok(ConnectRequest { url: format_url(base), access_key: password })
            },
        }
    }

    /// What came of sending a connection's request: once the connection is upgraded it is
    /// open with its queue in place; a failure to connect or to upgrade is reported as
    /// `Failed to connect: {e}` or `Failed to upgrade connection: {e}` and changes nothing.
    pub fn on_connect_outcome(&mut self, outcome: Result<(), ConnectFailure>) -> (r: Result<(), String>)
        ensures
            final(self).id() == old(self).id(),
            final(self).owns() == old(self).owns(),
            match outcome {
                Ok(()) => r is Ok && final(self).is_open() && final(self).can_queue(),
                Err(f) => {
                    &&& final(self).is_open() == old(self).is_open()
                    &&& final(self).can_queue() == old(self).can_queue()
                    &&& match f {
                        ConnectFailure::Connect(e) => r matches Err(m) && m@ == lit_failed_to_connect() + e@,
                        ConnectFailure::Upgrade(e) => r matches Err(m) && m@ == lit_failed_to_upgrade() + e@,
                    }
                },
            },
    {
        match outcome {
            Ok(()) => {
                self.mark_connected();
                Ok(())
            },
            Err(ConnectFailure::Connect(e)) => {
                let mut m = vec!['F', 'a', 'i', 'l', 'e', 'd', ' ', 't', 'o', ' ', 'c', 'o', 'n', 'n', 'e', 'c', 't', ':', ' '];
                assert(m@ == lit_failed_to_connect());
                push_all(&mut m, &chars_of(e.as_str()));
                Err(string_of(&m))
            },
            Err(ConnectFailure::Upgrade(e)) => {
                let mut m = vec![
                    'F', 'a', 'i', 'l', 'e', 'd', ' ', 't', 'o', ' ', 'u', 'p', 'g', 'r', 'a', 'd', 'e', ' ',
                    'c', 'o', 'n', 'n', 'e', 'c', 't', 'i', 'o', 'n', ':', ' '
                ];
                assert(m@ == lit_failed_to_upgrade());
                push_all(&mut m, &chars_of(e.as_str()));
                Err(string_of(&m))
            },
        }
    }

    /// The connection opened and its queue is in place.
    pub fn mark_connected(&mut self)
        ensures
            final(self).is_open(),
            final(self).can_queue(),
            final(self).id() == old(self).id(),
            final(self).owns() == old(self).owns(),
    {
        self.has_sender = true;
        self.connected = true;
    }

    /// The server greeted this client with its id and whether it owns the room.
    pub fn on_connected(&mut self, client_id: String, is_owner: bool)
        ensures
            final(self).is_open() == old(self).is_open(),
            final(self).id() == Some(client_id@),
            final(self).owns() == is_owner,
            final(self).can_queue() == old(self).can_queue(),
    {
        self.client_id = Some(client_id);
        self.is_owner = is_owner;
    }

    /// The room changed hands: this client owns it exactly when it is the new owner.
    /// Before this client has an id, nothing changes.
    pub fn on_ownership_transferred(&mut self, new_owner_id: &str)
        ensures
            final(self).is_open() == old(self).is_open(),
            final(self).id() == old(self).id(),
            match old(self).id() {
                Some(id) => final(self).owns() == (id == new_owner_id@),
                None => final(self).owns() == old(self).owns(),
            },
            final(self).can_queue() == old(self).can_queue(),
    {
        match &self.client_id {
            Some(id) => {
                let mine = chars_of(id.as_str());
                let theirs = chars_of(new_owner_id);
                self.is_owner = chars_eq(&mine, &theirs);
            },
            None => {},
        }
    }

    /// The connection closed or failed: forget the id and the ownership.
    pub fn on_closed(&mut self)
        ensures
            !final(self).is_open(),
            final(self).id() is None,
            !final(self).owns(),
            final(self).can_queue() == old(self).can_queue(),
    {
        self.connected = false;
        self.client_id = None;
        self.is_owner = false;
    }

    /// This client hung up: the queue is dropped; what the server told it stays until
    /// the connection reports its close.
    pub fn disconnect(&mut self)
        ensures
            !final(self).is_open(),
            !final(self).can_queue(),
            final(self).id() == old(self).id(),
            final(self).owns() == old(self).owns(),
    {
        self.connected = false;
        self.has_sender = false;
    }

    /// Whether the room's heartbeat, waking up, pings the server: only while the connection
    /// is open and its queue is in place; otherwise the heartbeat stops.
    pub fn heartbeat_should_ping(&self) -> (r: bool)
        ensures
            r == (self.is_open() && self.can_queue()),
    {
        self.connected && self.has_sender
    }

    /// Checks that a message can be queued: only while the queue is in place.
    pub fn check_can_send(&self) -> (r: Result<(), String>)
        ensures
            !self.can_queue() ==> (r matches Err(m) && m@ == lit_not_connected()),
            self.can_queue() ==> r is Ok,
    {
        if !self.has_sender {
            let m = vec!['N', 'o', 't', ' ', 'c', 'o', 'n', 'n', 'e', 'c', 't', 'e', 'd'];
            assert(m@ == lit_not_connected());
            Err(string_of(&m))
        } else {
            Ok(())
        }
    }
}

} // verus!
