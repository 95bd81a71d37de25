//! The server's commands: what each requires, how it is validated, what it decides from
//! the services' answers, and the texts it logs to the chat.

use vstd::arithmetic::power2::pow2;
use std::collections::HashSet;
use vstd::prelude::*;
use vstd::std_specs::iter::IteratorSpec;

use crate::protocol::{
    bits_contain, first_flag_name_spec, Entry, EntryKind, Permissions, ServerMessage, Snowflake,
    User, UserReadinessView, VideoEntry, WidgetState, MANAGE_MEDIA_BITS, MANAGE_PLAYBACK_BITS,
    MANAGE_USERS_BITS, SEND_MESSAGE_BITS, SEND_STATE_BITS,
};
use crate::text::{chars_of, dec_int, dec_nat, push_all, string_of, u64_to_dec};

verus! {

broadcast use vstd::std_specs::hash::group_hash_axioms;

// ---------------------------------------------------------------------------
// Errors
// ---------------------------------------------------------------------------

/// Why a command failed.
pub enum Error {
    InvalidUser,
    NoPermission(Permissions),
    MessageNotFound,
    NotAWidget,
    WidgetAlreadyDone,
    Internal(String),
    CommandValidation(String, String),
    Serialization(String),
    InvalidVideo(Snowflake),
    Forbidden(String),
    NoVideoSelected,
    CannotDemoteSelf,
}

// ---------------------------------------------------------------------------
// Commands
// ---------------------------------------------------------------------------

pub struct SendMessageCommand {
    pub content: String,
}

pub struct UpdateWidgetCommand {
    pub msg_id: Snowflake,
    pub state: WidgetState,
    pub finished: bool,
}

pub struct MessageHistoryCommand;

pub struct DownloadProgressCommand {
    pub widget_id: Snowflake,
    pub bytes_done: u64,
}

pub struct DownloadDoneCommand {
    pub widget_id: Snowflake,
}

pub struct PlayCommand;

pub struct ResumePlaybackCommand;

/// A seek; the target position in seconds is carried as the bits of a double-precision
/// number.
pub struct SeekCommand {
    pub timestamp_bits: u64,
}

pub struct SelectVideoCommand {
    pub video_id: Snowflake,
}

pub struct SetEntryDisplayNameCommand {
    pub video_id: Snowflake,
    pub display_name: String,
}

pub struct SetEntryAudioTrackCommand {
    pub video_id: Snowflake,
    pub audio_track: i32,
}

pub struct SetEntrySubtitleTrackCommand {
    pub video_id: Snowflake,
    pub subtitle_track: i32,
}

pub struct RequestPlaylistCommand;

pub struct SwapEntriesCommand {
    pub first: Snowflake,
    pub second: Snowflake,
}

pub struct InitiateResyncCommand;

pub struct SendResyncReportCommand {
    pub state_id: Snowflake,
    pub timestamp: u32,
}

pub struct AssertReadyCommand {
    pub video_id: Snowflake,
    pub on_device: bool,
}

pub struct AssertReadyBulkCommand {
    pub on_device: Vec<Snowflake>,
}

pub struct ConfirmReadyForPlayCommand {
    pub request_id: Snowflake,
}

pub struct HeartbeatCommand;

pub struct IdentifySelfCommand;

pub struct ListUsersCommand;

pub struct EditPermissionCommand {
    pub target_user: Snowflake,
    pub permission: Permissions,
    pub granted: bool,
}

/// Any command a client can issue.
pub enum Command {
    SendMessage(SendMessageCommand),
    UpdateWidget(UpdateWidgetCommand),
    MessageHistory(MessageHistoryCommand),
    DownloadProgress(DownloadProgressCommand),
    DownloadDone(DownloadDoneCommand),
    Play(PlayCommand),
    ResumePlayback(ResumePlaybackCommand),
    Seek(SeekCommand),
    SelectVideo(SelectVideoCommand),
    SetEntryDisplayName(SetEntryDisplayNameCommand),
    SetEntryAudioTrack(SetEntryAudioTrackCommand),
    SetEntrySubtitleTrack(SetEntrySubtitleTrackCommand),
    RequestPlaylist(RequestPlaylistCommand),
    SwapEntries(SwapEntriesCommand),
    InitiateResync(InitiateResyncCommand),
    SendResyncReport(SendResyncReportCommand),
    AssertReady(AssertReadyCommand),
    AssertReadyBulk(AssertReadyBulkCommand),
    ConfirmReadyForPlay(ConfirmReadyForPlayCommand),
    Heartbeat(HeartbeatCommand),
    IdentifySelf(IdentifySelfCommand),
    ListUsers(ListUsersCommand),
    EditPermission(EditPermissionCommand),
}

/// The permission flags a command needs, as bits; 0 for commands anyone may issue.
pub open spec fn required_bits(c: Command) -> i64 {
    match c {
        Command::SendMessage(_) => SEND_MESSAGE_BITS,
        Command::Play(_) | Command::ResumePlayback(_) | Command::Seek(_) | Command::SelectVideo(_)
        | Command::InitiateResync(_) => MANAGE_PLAYBACK_BITS,
        Command::SetEntryDisplayName(_) | Command::SetEntryAudioTrack(_)
        | Command::SetEntrySubtitleTrack(_) | Command::SwapEntries(_) => MANAGE_MEDIA_BITS,
        Command::SendResyncReport(_) => SEND_STATE_BITS,
        Command::EditPermission(_) => MANAGE_USERS_BITS,
        _ => 0,
    }
}

/// `"send_message"`.
pub open spec fn lit_send_message() -> Seq<char> {
    seq!['s', 'e', 'n', 'd', '_', 'm', 'e', 's', 's', 'a', 'g', 'e']
}

/// `"Message must be 1-2000 characters"`.
pub open spec fn lit_message_length() -> Seq<char> {
    seq![
        'M', 'e', 's', 's', 'a', 'g', 'e', ' ', 'm', 'u', 's', 't', ' ', 'b', 'e', ' ', '1', '-', '2',
        '0', '0', '0', ' ', 'c', 'h', 'a', 'r', 'a', 'c', 't', 'e', 'r', 's'
    ]
}

/// Maximum length of a chat message, in characters.
pub const MAX_MESSAGE_CHARS: usize = 2000;

/// Who may issue each command: editing or reordering the playlist needs `MANAGE_MEDIA`;
/// starting, resuming, seeking, selecting and resyncing playback need `MANAGE_PLAYBACK`;
/// chatting needs `SEND_MESSAGE`; reporting a resync position needs `SEND_STATE`; editing
/// permissions needs `MANAGE_USERS`; every other command needs nothing. Each command that
/// needs flags needs exactly one.
pub proof fn lemma_required_flags(cmd: Command)
    ensures
        match cmd {
            Command::SetEntryDisplayName(_) | Command::SetEntryAudioTrack(_)
            | Command::SetEntrySubtitleTrack(_) | Command::SwapEntries(_) => required_bits(cmd) == 16,
            Command::Play(_) | Command::ResumePlayback(_) | Command::Seek(_)
            | Command::SelectVideo(_) | Command::InitiateResync(_) => required_bits(cmd) == 1,
            Command::SendMessage(_) => required_bits(cmd) == 2,
            Command::SendResyncReport(_) => required_bits(cmd) == 8,
            Command::EditPermission(_) => required_bits(cmd) == 4,
            _ => required_bits(cmd) == 0,
        },
        required_bits(cmd) == 0 || required_bits(cmd) == 1 || required_bits(cmd) == 2
            || required_bits(cmd) == 4 || required_bits(cmd) == 8 || required_bits(cmd) == 16,
{
}

impl Command {
    /// The permission flags the issuing user must hold.
    pub fn required_permission(&self) -> (r: Option<Permissions>)
        ensures
            match r {
                Some(p) => required_bits(*self) != 0 && p@ == required_bits(*self),
                None => required_bits(*self) == 0,
            },
            match *self {
                Command::SetEntryDisplayName(_) | Command::SetEntryAudioTrack(_)
                | Command::SetEntrySubtitleTrack(_) | Command::SwapEntries(_) => r matches Some(p) && p@ == 16,
                Command::Play(_) | Command::ResumePlayback(_) | Command::Seek(_)
                | Command::SelectVideo(_) | Command::InitiateResync(_) => r matches Some(p) && p@ == 1,
                Command::SendMessage(_) => r matches Some(p) && p@ == 2,
                Command::SendResyncReport(_) => r matches Some(p) && p@ == 8,
                Command::EditPermission(_) => r matches Some(p) && p@ == 4,
                _ => r is None,
            },
    {
        match self {
            Command::SendMessage(_) => Some(Permissions::send_message()),
            Command::Play(_) | Command::ResumePlayback(_) | Command::Seek(_)
            | Command::SelectVideo(_) | Command::InitiateResync(_) => Some(
                Permissions::manage_playback(),
            ),
            Command::SetEntryDisplayName(_) | Command::SetEntryAudioTrack(_)
            | Command::SetEntrySubtitleTrack(_) | Command::SwapEntries(_) => Some(
                Permissions::manage_media(),
            ),
            Command::SendResyncReport(_) => Some(Permissions::send_state()),
            Command::EditPermission(_) => Some(Permissions::manage_users()),
            _ => None,
        }
    }

    /// Checks a command before it runs: a chat message must be 1 to 2000 characters long;
    /// every other command is valid.
    pub fn validate(&self) -> (r: Result<(), Error>)
        ensures
            match *self {
                Command::SendMessage(m) => if m.content@.len() == 0 || m.content@.len() > 2000 {
                    r matches Err(Error::CommandValidation(a, b)) && a@ == lit_send_message() && b@
                        == lit_message_length()
                } else {
                    r is Ok
                },
                _ => r is Ok,
            },
    {
        match self {
            Command::SendMessage(m) => {
                let n = chars_of(m.content.as_str()).len();
                if n == 0 || n > MAX_MESSAGE_CHARS {
                    let a = vec!['s', 'e', 'n', 'd', '_', 'm', 'e', 's', 's', 'a', 'g', 'e'];
                    let b = vec![
                        'M', 'e', 's', 's', 'a', 'g', 'e', ' ', 'm', 'u', 's', 't', ' ', 'b', 'e', ' ',
                        '1', '-', '2', '0', '0', '0', ' ', 'c', 'h', 'a', 'r', 'a', 'c', 't', 'e', 'r',
                        's'
                    ];
                    assert(a@ == lit_send_message());
                    assert(b@ == lit_message_length());
                    Err(Error::CommandValidation(string_of(&a), string_of(&b)))
                } else {
                    Ok(())
                }
            },
            _ => Ok(()),
        }
    }
}

/// Whether a user holding `held` may run a command needing `required` (every flag set).
pub fn may_run(held: Permissions, required: Option<Permissions>) -> (r: bool)
    ensures
        r == match required {
            Some(p) => bits_contain(held@, p@),
            None => true,
        },
{
    match required {
        Some(p) => held.contains(p),
        None => true,
    }
}

// ---------------------------------------------------------------------------
// Effects of a command
// ---------------------------------------------------------------------------

/// Where a server message goes.
pub enum Effect {
    /// To every connected user.
    Global(ServerMessage),
    /// To every connected user but one.
    Others(Snowflake, ServerMessage),
    /// To one user.
    Direct(Snowflake, ServerMessage),
}

/// What a command hands back.
pub enum CommandResult {
    Effects(Vec<Effect>),
    Silent,
}

impl CommandResult {
    /// A message for everyone.
    pub fn from(msg: ServerMessage) -> (r: CommandResult)
        ensures
            r matches CommandResult::Effects(v) && v@ == seq![Effect::Global(msg)],
    {
        CommandResult::Effects(vec![Effect::Global(msg)])
    }
}

/// The ids of the connected users.
pub struct Connections {
    ids: HashSet<i64>,
}

impl Connections {
    /// Whether `id` is connected.
    pub closed spec fn connected(&self, id: Snowflake) -> bool {
        self.ids@.contains(id.0)
    }

    /// Nobody connected.
    pub fn new() -> (r: Connections)
        ensures
            forall|k: Snowflake| !#[trigger] r.connected(k),
    {
        Connections { ids: HashSet::new() }
    }

    /// Registers a user's connection (a second connection replaces the first).
    pub fn add_connection(&mut self, id: Snowflake)
        ensures
            forall|k: Snowflake| #[trigger] final(self).connected(k) == (k == id || old(self).connected(k)),
    {
        self.ids.insert(id.0);
    }

    /// Drops a user's connection.
    pub fn remove_connection(&mut self, id: Snowflake)
        ensures
            forall|k: Snowflake| #[trigger] final(self).connected(k) == (k != id && old(self).connected(k)),
    {
        self.ids.remove(&id.0);
    }

    /// Who receives an effect's message, each once: everyone connected, everyone
    /// connected but the excepted user, or the one user if connected.
    pub fn recipients(&self, effect: &Effect) -> (r: Vec<Snowflake>)
        ensures
            r@.no_duplicates(),
            forall|k: Snowflake| #[trigger] r@.contains(k) == match *effect {
                Effect::Global(_) => self.connected(k),
                Effect::Others(except, _) => k != except && self.connected(k),
                Effect::Direct(id, _) => k == id && self.connected(k),
            },
    {
        match effect {
            Effect::Global(_) => self.members_except(None),
            Effect::Others(except, _) => self.members_except(Some(*except)),
            Effect::Direct(id, _) => {
                if self.ids.contains(&id.0) {
                    let r = vec![*id];
                    assert forall|k: Snowflake| #[trigger] r@.contains(k) == (k == *id) by {
                        if r@.contains(k) {
                            let j = choose|j: int| 0 <= j < r@.len() && r@[j] == k;
                        }
                        if k == *id {
                            assert(r@[0] == k);
                        }
                    }
                    r
                } else {
                    let r: Vec<Snowflake> = Vec::new();
                    r
                }
            },
        }
    }

    /// The connected users other than `except`, each once.
    fn members_except(&self, except: Option<Snowflake>) -> (r: Vec<Snowflake>)
        ensures
            r@.no_duplicates(),
            forall|k: Snowflake| #[trigger] r@.contains(k) == (self.connected(k) && except != Some(k)),
    {
        let all = self.connected_ids();
        let mut r: Vec<Snowflake> = Vec::new();
        let mut j: usize = 0;
        while j < all.len()
            invariant
                j <= all.len(),
                all@.no_duplicates(),
                forall|k: i64| all@.contains(k) <==> #[trigger] self.ids@.contains(k),
                r@.no_duplicates(),
                forall|k: Snowflake| #[trigger] r@.contains(k) == (all@.take(j as int).contains(k.0) && except != Some(k)),
            decreases all.len() - j,
        {
            let x = Snowflake(all[j]);
            let ghost before = r@;
            let ghost t0 = all@.take(j as int);
            let ghost t1 = all@.take(j + 1);
            proof {
                assert forall|k: i64| #[trigger] t1.contains(k) == (t0.contains(k) || k == x.0) by {
                    if t1.contains(k) && k != x.0 {
                        let t = choose|t: int| 0 <= t < t1.len() && t1[t] == k;
                        assert(t0[t] == k);
                    }
                    if t0.contains(k) {
                        let t = choose|t: int| 0 <= t < t0.len() && t0[t] == k;
                        assert(t1[t] == k);
                    }
                    if k == x.0 {
                        assert(t1[j as int] == k);
                    }
                }
                assert(!t0.contains(x.0)) by {
                    if t0.contains(x.0) {
                        let t = choose|t: int| 0 <= t < t0.len() && t0[t] == x.0;
                        assert(all@[t] == all@[j as int]);
                    }
                }
            }
            let keep = match except {
                Some(e) => x != e,
                None => true,
            };
            if keep {
                r.push(x);
                proof {
                    assert forall|k: Snowflake| #[trigger] r@.contains(k) == (before.contains(k) || k == x) by {
                        if r@.contains(k) && k != x {
                            let t = choose|t: int| 0 <= t < r@.len() && r@[t] == k;
                            assert(before[t] == k);
                        }
                        if before.contains(k) {
                            let t = choose|t: int| 0 <= t < before.len() && before[t] == k;
                            assert(r@[t] == k);
                        }
                        if k == x {
                            assert(r@[before.len() as int] == k);
                        }
                    }
                    assert(r@.no_duplicates()) by {
                        assert(!before.contains(x));
                        assert forall|a: int, b: int| 0 <= a < r@.len() && 0 <= b < r@.len() && a != b implies r@[a] != r@[b] by {
                            if a == before.len() {
                                assert(before.contains(r@[b]));
                            } else if b == before.len() {
                                assert(before.contains(r@[a]));
                            } else {
                                assert(r@[a] == before[a] && r@[b] == before[b]);
                            }
                        }
                    }
                }
            }
            j = j + 1;
        }
        proof {
            assert(all@.take(all.len() as int) == all@);
        }
        r
    }

    /// The connected ids, each once.
    fn connected_ids(&self) -> (r: Vec<i64>)
        ensures
            r@.no_duplicates(),
            forall|k: i64| r@.contains(k) <==> #[trigger] self.ids@.contains(k),
    {
        let mut r: Vec<i64> = Vec::new();
        let ghost ks = IteratorSpec::remaining(&vstd::std_specs::hash::spec_hash_keys_iter(&self.ids));
        for k in it: self.ids.iter()
            invariant
                it.seq() == ks,
                r@ == ks.take(it.index()).unref(),
        {
            r.push(*k);
            assert(ks.take(it.index() + 1).unref() =~= r@);
        }
        proof {
            assert(ks.take(ks.len() as int) == ks);
            assert(r@ == ks.unref());
            assert(ks.unref().to_set() == self.ids@);
            assert forall|k: i64| r@.contains(k) <==> #[trigger] self.ids@.contains(k) by {
                assert(r@.to_set().contains(k) == r@.contains(k));
            }
            assert(r@.no_duplicates()) by {
                assert forall|a: int, b: int| 0 <= a < r@.len() && 0 <= b < r@.len() && a != b implies r@[a] != r@[b] by {
                    assert(ks[a] != ks[b]);
                }
            }
        }
        r
    }
}

// ---------------------------------------------------------------------------
// Decisions of the commands
// ---------------------------------------------------------------------------

/// A display name, or the id's decimal text when the user has none.
pub open spec fn display_or_id(name: Option<Seq<char>>, id: Snowflake) -> Seq<char> {
    match name {
        Some(n) => n,
        None => dec_int(id.0 as int),
    }
}

/// The plain value of an optional string.
pub open spec fn opt_chars(s: Option<String>) -> Option<Seq<char>> {
    match s {
        Some(v) => Some(v@),
        None => None,
    }
}

/// The name a user is shown under in system logs.
pub fn user_label(user: &User) -> (r: Vec<char>)
    ensures
        r@ == display_or_id(opt_chars(user.display_name), user.id),
{
    match &user.display_name {
        Some(n) => chars_of(n.as_str()),
        None => user.id.to_chars(),
    }
}

/// `{name} resumed playback`.
pub open spec fn resume_log_text(name: Seq<char>) -> Seq<char> {
    name + seq![' ', 'r', 'e', 's', 'u', 'm', 'e', 'd', ' ', 'p', 'l', 'a', 'y', 'b', 'a', 'c', 'k']
}

/// The chat log line for a resume.
pub fn resume_log(user: &User) -> (r: String)
    ensures
        r@ == resume_log_text(display_or_id(opt_chars(user.display_name), user.id)),
{
    let mut v = user_label(user);
    let t = vec![' ', 'r', 'e', 's', 'u', 'm', 'e', 'd', ' ', 'p', 'l', 'a', 'y', 'b', 'a', 'c', 'k'];
    push_all(&mut v, &t);
    string_of(&v)
}

/// A duration of whole seconds as `{h}h {m}m {s}s`, `{m}m {s}s` or `{s}s`.
pub open spec fn duration_text(total: nat) -> Seq<char> {
    let h = total / 3600;
    let m = (total % 3600) / 60;
    let s = total % 60;
    if h > 0 {
        dec_nat(h) + seq!['h', ' '] + dec_nat(m) + seq!['m', ' '] + dec_nat(s) + seq!['s']
    } else if m > 0 {
        dec_nat(m) + seq!['m', ' '] + dec_nat(s) + seq!['s']
    } else {
        dec_nat(s) + seq!['s']
    }
}

/// Formats a duration given in whole seconds (see `duration_text`).
pub fn format_duration(total_seconds: u64) -> (r: String)
    ensures
        r@ == duration_text(total_seconds as nat),
{
    let hours = total_seconds / 3600;
    let minutes = (total_seconds % 3600) / 60;
    let secs = total_seconds % 60;
    let mut v: Vec<char>;
    if hours > 0 {
        v = u64_to_dec(hours);
        v.push('h');
        v.push(' ');
        let m = u64_to_dec(minutes);
        push_all(&mut v, &m);
        v.push('m');
        v.push(' ');
        let s = u64_to_dec(secs);
        push_all(&mut v, &s);
        v.push('s');
    } else if minutes > 0 {
        v = u64_to_dec(minutes);
        v.push('m');
        v.push(' ');
        let s = u64_to_dec(secs);
        push_all(&mut v, &s);
        v.push('s');
    } else {
        v = u64_to_dec(secs);
        v.push('s');
    }
    string_of(&v)
}

/// `2^52`, the implicit leading bit of a normal double's significand.
pub open spec fn implicit_bit() -> nat {
    0x10_0000_0000_0000
}

/// The whole number of seconds in a position given as the bits of a double, as
/// `f64 as u64` converts: truncated toward zero; negative values and NaN give 0, values
/// past the range (infinity included) give `u64::MAX`.
pub open spec fn double_as_u64(bits: u64) -> nat {
    let negative = bits >= 0x8000_0000_0000_0000u64;
    let e: int = ((bits / 0x10_0000_0000_0000u64) % 2048) as int;
    let m: nat = (bits % 0x10_0000_0000_0000u64) as nat;
    if e == 2047 {
        if m == 0 && !negative {
            u64::MAX as nat
        } else {
            0
        }
    } else if negative || e < 1023 {
        0
    } else if e >= 1087 {
        u64::MAX as nat
    } else if e <= 1075 {
        (implicit_bit() + m) / pow2((1075 - e) as nat)
    } else {
        (implicit_bit() + m) * pow2((e - 1075) as nat)
    }
}

/// Converts a position given as the bits of a double to whole seconds (see
/// `double_as_u64`).
pub fn whole_seconds(bits: u64) -> (r: u64)
    ensures
        r == double_as_u64(bits),
{
    let negative = (bits >> 63u64) == 1;
    let e = (bits >> 52u64) & 0x7ff;
    let m = bits & 0xF_FFFF_FFFF_FFFF;
    assert(negative == (bits >= 0x8000_0000_0000_0000u64)) by (bit_vector)
        requires
            negative == ((bits >> 63u64) == 1),
    ;
    assert(e == (bits / 0x10_0000_0000_0000u64) % 2048) by (bit_vector)
        requires
            e == (bits >> 52u64) & 0x7ff,
    ;
    assert(m == bits % 0x10_0000_0000_0000u64) by (bit_vector)
        requires
            m == bits & 0xF_FFFF_FFFF_FFFF,
    ;
    if e == 2047 {
        if m == 0 && !negative {
            u64::MAX
        } else {
            0
        }
    } else if negative || e < 1023 {
        0
    } else if e >= 1087 {
        u64::MAX
    } else {
        let sig = m | 0x10_0000_0000_0000;
        assert(sig == 0x10_0000_0000_0000u64 + m && sig < 0x20_0000_0000_0000u64) by (bit_vector)
            requires
                sig == m | 0x10_0000_0000_0000,
                m < 0x10_0000_0000_0000u64,
        ;
        if e <= 1075 {
            let shift = 1075 - e;
            proof {
                vstd::bits::lemma_u64_shr_is_div(sig, shift);
            }
            sig >> shift
        } else {
            let shift = e - 1075;
            proof {
                vstd::arithmetic::power2::lemma_pow2_pos(shift as nat);
                if shift < 11 {
                    vstd::arithmetic::power2::lemma_pow2_strictly_increases(shift as nat, 11);
                }
                vstd::arithmetic::power2::lemma2_to64();
                assert(sig * pow2(shift as nat) <= 0x1F_FFFF_FFFF_FFFFu64 * 2048) by (nonlinear_arith)
                    requires
                        sig < 0x20_0000_0000_0000u64,
                        0 < pow2(shift as nat) <= 2048,
                ;
                vstd::bits::lemma_u64_shl_is_mul(sig, shift);
            }
            sig << shift
        }
    }
}

/// `{name} set playback position to |-{duration}-|`.
pub open spec fn seek_log_text(name: Seq<char>, total: nat) -> Seq<char> {
    name + seq![
        ' ', 's', 'e', 't', ' ', 'p', 'l', 'a', 'y', 'b', 'a', 'c', 'k', ' ', 'p', 'o', 's', 'i', 't',
        'i', 'o', 'n', ' ', 't', 'o', ' ', '|', '-'
    ] + duration_text(total) + seq!['-', '|']
}

/// The chat log line for a seek to `total_seconds` (the position cut to whole seconds).
pub fn seek_log(user: &User, total_seconds: u64) -> (r: String)
    ensures
        r@ == seek_log_text(display_or_id(opt_chars(user.display_name), user.id), total_seconds as nat),
{
    let mut v = user_label(user);
    let t = vec![
        ' ', 's', 'e', 't', ' ', 'p', 'l', 'a', 'y', 'b', 'a', 'c', 'k', ' ', 'p', 'o', 's', 'i', 't',
        'i', 'o', 'n', ' ', 't', 'o', ' ', '|', '-'
    ];
    push_all(&mut v, &t);
    let d = format_duration(total_seconds);
    let dv = chars_of(d.as_str());
    push_all(&mut v, &dv);
    v.push('-');
    v.push('|');
    string_of(&v)
}

impl SeekCommand {
    /// The chat log line for this seek by `user`: the position cut to whole seconds.
    pub fn log_line(&self, user: &User) -> (r: String)
        ensures
            r@ == seek_log_text(
                display_or_id(opt_chars(user.display_name), user.id),
                double_as_u64(self.timestamp_bits),
            ),
    {
        seek_log(user, whole_seconds(self.timestamp_bits))
    }

    /// What a seek sends to everyone once logged: the seek itself.
    pub fn result(&self) -> (r: CommandResult)
        ensures
            r matches CommandResult::Effects(v) && v@ == seq![
                Effect::Global(ServerMessage::Seek { timestamp_bits: self.timestamp_bits }),
            ],
    {
        CommandResult::from(ServerMessage::Seek { timestamp_bits: self.timestamp_bits })
    }
}

/// Which playlist field an entry edit changed.
#[derive(Clone, Copy, PartialEq, Eq, Structural, Debug)]
pub enum EntryEdit {
    DisplayName,
    AudioTrack,
    SubtitleTrack,
}

/// The action text of an entry edit.
pub open spec fn entry_edit_action(e: EntryEdit) -> Seq<char> {
    match e {
        EntryEdit::DisplayName => seq![
            'u', 'p', 'd', 'a', 't', 'e', 'd', ' ', 'a', ' ', '|', '-', 'd', 'i', 's', 'p', 'l', 'a',
            'y', ' ', 'n', 'a', 'm', 'e', '-', '|'
        ],
        EntryEdit::AudioTrack => seq![
            'u', 'p', 'd', 'a', 't', 'e', 'd', ' ', 'a', 'n', ' ', '|', '-', 'a', 'u', 'd', 'i', 'o',
            ' ', 't', 'r', 'a', 'c', 'k', '-', '|'
        ],
        EntryEdit::SubtitleTrack => seq![
            'u', 'p', 'd', 'a', 't', 'e', 'd', ' ', 'a', ' ', '|', '-', 's', 'u', 'b', 't', 'i', 't',
            'l', 'e', ' ', 't', 'r', 'a', 'c', 'k', '-', '|'
        ],
    }
}

/// `[ENTRY_EDIT] {name} {action}`.
pub open spec fn entry_edit_log_text(name: Seq<char>, e: EntryEdit) -> Seq<char> {
    seq!['[', 'E', 'N', 'T', 'R', 'Y', '_', 'E', 'D', 'I', 'T', ']', ' '] + name + seq![' ']
        + entry_edit_action(e)
}

/// The chat log line for a playlist entry edit.
pub fn entry_edit_log(user: &User, edit: EntryEdit) -> (r: String)
    ensures
        r@ == entry_edit_log_text(display_or_id(opt_chars(user.display_name), user.id), edit),
{
    let mut v = vec!['[', 'E', 'N', 'T', 'R', 'Y', '_', 'E', 'D', 'I', 'T', ']', ' '];
    let n = user_label(user);
    push_all(&mut v, &n);
    v.push(' ');
    let a = match edit {
        EntryEdit::DisplayName => vec![
            'u', 'p', 'd', 'a', 't', 'e', 'd', ' ', 'a', ' ', '|', '-', 'd', 'i', 's', 'p', 'l', 'a',
            'y', ' ', 'n', 'a', 'm', 'e', '-', '|'
        ],
        EntryEdit::AudioTrack => vec![
            'u', 'p', 'd', 'a', 't', 'e', 'd', ' ', 'a', 'n', ' ', '|', '-', 'a', 'u', 'd', 'i', 'o',
            ' ', 't', 'r', 'a', 'c', 'k', '-', '|'
        ],
        EntryEdit::SubtitleTrack => vec![
            'u', 'p', 'd', 'a', 't', 'e', 'd', ' ', 'a', ' ', '|', '-', 's', 'u', 'b', 't', 'i', 't',
            'l', 'e', ' ', 't', 'r', 'a', 'c', 'k', '-', '|'
        ],
    };
    push_all(&mut v, &a);
    string_of(&v)
}

/// `{name} initiated a Resync request`.
pub open spec fn resync_log_text(name: Seq<char>) -> Seq<char> {
    name + seq![
        ' ', 'i', 'n', 'i', 't', 'i', 'a', 't', 'e', 'd', ' ', 'a', ' ', 'R', 'e', 's', 'y', 'n', 'c',
        ' ', 'r', 'e', 'q', 'u', 'e', 's', 't'
    ]
}

/// The chat log line for a resync request.
pub fn resync_log(user: &User) -> (r: String)
    ensures
        r@ == resync_log_text(display_or_id(opt_chars(user.display_name), user.id)),
{
    let mut v = user_label(user);
    let t = vec![
        ' ', 'i', 'n', 'i', 't', 'i', 'a', 't', 'e', 'd', ' ', 'a', ' ', 'R', 'e', 's', 'y', 'n', 'c',
        ' ', 'r', 'e', 'q', 'u', 'e', 's', 't'
    ];
    push_all(&mut v, &t);
    string_of(&v)
}

/// Refuses a permission edit by which a user would revoke their own `MANAGE_USERS`.
pub fn check_self_demotion(executor: Snowflake, cmd: &EditPermissionCommand) -> (r: Result<(), Error>)
    ensures
        (executor == cmd.target_user && bits_contain(cmd.permission@, MANAGE_USERS_BITS) && !cmd.granted)
            ==> r matches Err(Error::CannotDemoteSelf),
        !(executor == cmd.target_user && bits_contain(cmd.permission@, MANAGE_USERS_BITS) && !cmd.granted)
            ==> r is Ok,
{
    if executor == cmd.target_user && cmd.permission.contains(Permissions::manage_users()) && !cmd.granted {
        Err(Error::CannotDemoteSelf)
    } else {
        Ok(())
    }
}

/// The name a permission is logged under: its first flag's name, or `UNKNOWN`.
pub open spec fn permission_label(p: i64) -> Seq<char> {
    match first_flag_name_spec(p) {
        Some(n) => n@,
        None => seq!['U', 'N', 'K', 'N', 'O', 'W', 'N'],
    }
}

/// `{executor} granted {target} the {perm} permission` or
/// `{executor} revoked the {perm} permission from {target}`.
pub open spec fn permission_log_text(executor: Seq<char>, target: Seq<char>, perm: Seq<char>, granted: bool) -> Seq<char> {
    if granted {
        executor + seq![' ', 'g', 'r', 'a', 'n', 't', 'e', 'd', ' '] + target + seq![' ', 't', 'h', 'e', ' ']
            + perm + seq![' ', 'p', 'e', 'r', 'm', 'i', 's', 's', 'i', 'o', 'n']
    } else {
        executor + seq![' ', 'r', 'e', 'v', 'o', 'k', 'e', 'd', ' ', 't', 'h', 'e', ' '] + perm + seq![
            ' ', 'p', 'e', 'r', 'm', 'i', 's', 's', 'i', 'o', 'n', ' ', 'f', 'r', 'o', 'm', ' '
        ] + target
    }
}

/// The chat log line for a permission edit.
pub fn permission_log(executor_name: &str, target_name: &str, permission: Permissions, granted: bool) -> (r: String)
    ensures
        r@ == permission_log_text(executor_name@, target_name@, permission_label(permission@), granted),
{
    let perm: Vec<char> = match permission.first_flag_name() {
        Some(n) => chars_of(n),
        None => vec!['U', 'N', 'K', 'N', 'O', 'W', 'N'],
    };
    let e = chars_of(executor_name);
    let t = chars_of(target_name);
    let mut v = e;
    if granted {
        let a = vec![' ', 'g', 'r', 'a', 'n', 't', 'e', 'd', ' '];
        push_all(&mut v, &a);
        push_all(&mut v, &t);
        let b = vec![' ', 't', 'h', 'e', ' '];
        push_all(&mut v, &b);
        push_all(&mut v, &perm);
        let c = vec![' ', 'p', 'e', 'r', 'm', 'i', 's', 's', 'i', 'o', 'n'];
        push_all(&mut v, &c);
    } else {
        let a = vec![' ', 'r', 'e', 'v', 'o', 'k', 'e', 'd', ' ', 't', 'h', 'e', ' '];
        push_all(&mut v, &a);
        push_all(&mut v, &perm);
        let b = vec![' ', 'p', 'e', 'r', 'm', 'i', 's', 's', 'i', 'o', 'n', ' ', 'f', 'r', 'o', 'm', ' '];
        push_all(&mut v, &b);
        push_all(&mut v, &t);
    }
    string_of(&v)
}

/// `"not your widget"`.
pub open spec fn lit_not_your_widget() -> Seq<char> {
    seq!['n', 'o', 't', ' ', 'y', 'o', 'u', 'r', ' ', 'w', 'i', 'd', 'g', 'e', 't']
}

/// The reporter, file name and size of a download widget a user reports on: the entry
/// must exist (`MessageNotFound`), be a download widget (`NotAWidget`), and have been
/// opened for this user (`Forbidden("not your widget")`).
pub fn download_widget_fields(entry: Option<&Entry>, user: Snowflake) -> (r: Result<(Snowflake, String, u64), Error>)
    ensures
        match entry {
            None => r matches Err(Error::MessageNotFound),
            Some(e) => match e.kind {
                EntryKind::Widget { state: WidgetState::Download { reporter, filename, bytes_total, .. }, .. } =>
                    if reporter != user {
                    r matches Err(Error::Forbidden(m)) && m@ == lit_not_your_widget()
                } else {
                    r matches Ok((a, b, c)) && a == reporter && b@ == filename@ && c == bytes_total
                },
                _ => r matches Err(Error::NotAWidget),
            },
        },
{
    match entry {
        None => Err(Error::MessageNotFound),
        Some(e) => match &e.kind {
            EntryKind::Widget { state: WidgetState::Download { reporter, filename, bytes_total, .. }, .. } => {
                if *reporter != user {
                    let m = vec!['n', 'o', 't', ' ', 'y', 'o', 'u', 'r', ' ', 'w', 'i', 'd', 'g', 'e', 't'];
                    Err(Error::Forbidden(string_of(&m)))
                } else {
                    Ok((*reporter, filename.clone(), *bytes_total))
                }
            },
            _ => Err(Error::NotAWidget),
        },
    }
}

/// The widget state after a download progress report: at most the total.
pub fn download_progress_state(reporter: Snowflake, filename: String, bytes_done: u64, bytes_total: u64) -> (w: WidgetState)
    ensures
        w == (WidgetState::Download {
            reporter,
            filename,
            bytes_done: if bytes_done <= bytes_total {
                bytes_done
            } else {
                bytes_total
            },
            bytes_total,
        }),
{
    WidgetState::Download {
        reporter,
        filename,
        bytes_done: if bytes_done <= bytes_total {
            bytes_done
        } else {
            bytes_total
        },
        bytes_total,
    }
}

/// The widget state of a finished download: all bytes done.
pub fn download_done_state(reporter: Snowflake, filename: String, bytes_total: u64) -> (w: WidgetState)
    ensures
        w == (WidgetState::Download { reporter, filename, bytes_done: bytes_total, bytes_total }),
{
    WidgetState::Download { reporter, filename, bytes_done: bytes_total, bytes_total }
}

/// The message announcing a widget change: `WidgetDone` when finished, `WidgetUpdated`
/// otherwise.
pub fn widget_message(entry: Entry, finished: bool) -> (m: ServerMessage)
    ensures
        finished ==> m == (ServerMessage::WidgetDone { entry }),
        !finished ==> m == (ServerMessage::WidgetUpdated { entry }),
{
    if finished {
        ServerMessage::WidgetDone { entry }
    } else {
        ServerMessage::WidgetUpdated { entry }
    }
}

/// What a resync report ends in: when it completed the resync, everyone commits to the
/// collapsed timestamp; otherwise nothing is sent.
pub fn resync_report_result(completed: bool, collapsed_timestamp: u32) -> (r: CommandResult)
    ensures
        completed ==> (r matches CommandResult::Effects(v) && v@ == seq![
            Effect::Global(ServerMessage::CommitResync { timestamp: collapsed_timestamp }),
        ]),
        !completed ==> r matches CommandResult::Silent,
{
    if completed {
        CommandResult::from(ServerMessage::CommitResync { timestamp: collapsed_timestamp })
    } else {
        CommandResult::Silent
    }
}

/// The outcome of a play handshake confirmation.
pub enum HandshakeOutcome {
    AllConfirmed { video_id: Snowflake },
    Pending,
    AlreadyResolved,
}

/// What a play confirmation ends in: once everyone confirmed, everyone plays with the
/// video's audio and subtitle tracks (the video must exist: `InvalidVideo`); otherwise
/// nothing is sent.
pub fn confirm_result(request_id: Snowflake, outcome: &HandshakeOutcome, video: Option<&VideoEntry>) -> (r: Result<CommandResult, Error>)
    ensures
        match *outcome {
            HandshakeOutcome::AllConfirmed { video_id } => match video {
                None => r matches Err(Error::InvalidVideo(v)) && v == video_id,
                Some(e) => r matches Ok(CommandResult::Effects(v)) && v@ == seq![
                    Effect::Global(ServerMessage::Play {
                        request_id,
                        track_audio: e.audio_track as u32,
                        track_subtitles: e.subtitle_track as u32,
                    }),
                ],
            },
            _ => r matches Ok(CommandResult::Silent),
        },
{
    match outcome {
        HandshakeOutcome::AllConfirmed { video_id } => match video {
            None => Err(Error::InvalidVideo(*video_id)),
            Some(e) => {
                #[verifier::truncate]
                let a = e.audio_track as u32;
                #[verifier::truncate]
                let s = e.subtitle_track as u32;
                Ok(
                    CommandResult::from(
                        ServerMessage::Play { request_id, track_audio: a, track_subtitles: s },
                    ),
                )
            },
        },
        _ => Ok(CommandResult::Silent),
    }
}

/// What a readiness assertion ends in: the user's readiness for everyone, or nothing when
/// the assertion changed nothing.
pub fn readiness_result(view: Option<UserReadinessView>) -> (r: CommandResult)
    ensures
        match view {
            Some(v) => r matches CommandResult::Effects(e) && e@ == seq![
                Effect::Global(ServerMessage::ReadinessUpdated { readiness: v }),
            ],
            None => r matches CommandResult::Silent,
        },
{
    match view {
        Some(v) => CommandResult::from(ServerMessage::ReadinessUpdated { readiness: v }),
        None => CommandResult::Silent,
    }
}

/// A reply to the issuing user only.
pub fn direct_reply(user: Snowflake, msg: ServerMessage) -> (r: CommandResult)
    ensures
        r matches CommandResult::Effects(e) && e@ == seq![Effect::Direct(user, msg)],
{
    CommandResult::Effects(vec![Effect::Direct(user, msg)])
}

/// What a resync initiation sends to everyone: the log line, then the request for reports.
pub fn resync_effects(log_entry: Entry, state_id: Snowflake) -> (r: CommandResult)
    ensures
        r matches CommandResult::Effects(e) && e@ == seq![
            Effect::Global(ServerMessage::MessageCreated { entry: log_entry }),
            Effect::Global(ServerMessage::RequestResyncReport { id: state_id }),
        ],
{
    CommandResult::Effects(
        vec![
            Effect::Global(ServerMessage::MessageCreated { entry: log_entry }),
            Effect::Global(ServerMessage::RequestResyncReport { id: state_id }),
        ],
    )
}

/// What a play request sends: the readiness confirmation request for the current video,
/// or `NoVideoSelected`.
pub fn play_request(current: Option<Snowflake>, request_id: Snowflake, deadline_ms: u64) -> (r: Result<CommandResult, Error>)
    ensures
        match current {
            None => r matches Err(Error::NoVideoSelected),
            Some(video_id) => r matches Ok(CommandResult::Effects(e)) && e@ == seq![
                Effect::Global(ServerMessage::RequestReadyConfirmation { request_id, video_id, deadline_ms }),
            ],
        },
{
    match current {
        None => Err(Error::NoVideoSelected),
        Some(video_id) => Ok(
            CommandResult::from(
                ServerMessage::RequestReadyConfirmation { request_id, video_id, deadline_ms },
            ),
        ),
    }
}

/// What a video selection sends: the selection, when the video exists (`InvalidVideo`
/// otherwise).
pub fn select_result(video_id: Snowflake, exists: bool) -> (r: Result<CommandResult, Error>)
    ensures
        !exists ==> (r matches Err(Error::InvalidVideo(v)) && v == video_id),
        exists ==> (r matches Ok(CommandResult::Effects(e)) && e@ == seq![
            Effect::Global(ServerMessage::VideoSelected { video_id }),
        ]),
{
    if !exists {
        Err(Error::InvalidVideo(video_id))
    } else {
        Ok(CommandResult::from(ServerMessage::VideoSelected { video_id }))
    }
}

// ---------------------------------------------------------------------------
// Running a command
// ---------------------------------------------------------------------------

/// Whether `cmd` fails its validation (see `Command::validate`).
pub open spec fn fails_validation(cmd: Command) -> bool {
    match cmd {
        Command::SendMessage(m) => m.content@.len() == 0 || m.content@.len() > 2000,
        _ => false,
    }
}

/// Where the running of one command stands.
#[derive(Clone, Copy, PartialEq, Eq, Structural, Debug)]
pub enum RunStage {
    /// The permission check is out.
    AwaitingPermission,
    /// The command is running.
    Executing,
    /// The command's effects are being applied, in order: the index of the one out, and
    /// how many there are.
    Applying { next: usize, total: usize },
    /// Nothing more to do.
    Done,
}

/// What the server does next for a command.
pub enum RunAction {
    /// Check that the issuing user holds these permission flags.
    CheckPermission(Permissions),
    /// Run the command.
    Execute,
    /// Apply the effect at this index among the command's effects.
    Apply(usize),
    /// The command is over, with this outcome.
    Finish(Result<(), Error>),
}

/// What came back from the step the server took.
pub enum RunEvent {
    /// The answer of the permission check.
    PermissionChecked(Result<(), Error>),
    /// The command ran: how many effects it produced, or why it failed.
    Executed(Result<usize, Error>),
    /// The answer of applying the effect that was out.
    Applied(Result<(), Error>),
}

/// Whether `event` answers the step that `stage` waits on.
pub open spec fn answers(stage: RunStage, event: RunEvent) -> bool {
    match (stage, event) {
        (RunStage::AwaitingPermission, RunEvent::PermissionChecked(_)) => true,
        (RunStage::Executing, RunEvent::Executed(_)) => true,
        (RunStage::Applying { next, total }, RunEvent::Applied(_)) => next < total,
        _ => false,
    }
}

/// The next stage and action once `event` answers `stage`: a refused permission check,
/// a failed run or a failed effect ends the command with that error; an allowed command
/// runs; its effects are applied one by one in order, and the command ends well after
/// the last of them (at once when there are none).
pub open spec fn run_step(stage: RunStage, event: RunEvent) -> (RunStage, RunAction) {
    match event {
        RunEvent::PermissionChecked(Ok(())) => (RunStage::Executing, RunAction::Execute),
        RunEvent::Executed(Ok(n)) => if n == 0 {
            (RunStage::Done, RunAction::Finish(Ok(())))
        } else {
            (RunStage::Applying { next: 0, total: n }, RunAction::Apply(0))
        },
        RunEvent::Applied(Ok(())) => match stage {
            RunStage::Applying { next, total } => if next + 1 >= total {
                (RunStage::Done, RunAction::Finish(Ok(())))
            } else {
                (RunStage::Applying { next: (next + 1) as usize, total }, RunAction::Apply((next + 1) as usize))
            },
            _ => (RunStage::Done, RunAction::Finish(Ok(()))),
        },
        RunEvent::PermissionChecked(Err(e)) => (RunStage::Done, RunAction::Finish(Err(e))),
        RunEvent::Executed(Err(e)) => (RunStage::Done, RunAction::Finish(Err(e))),
        RunEvent::Applied(Err(e)) => (RunStage::Done, RunAction::Finish(Err(e))),
    }
}

/// Starts running `cmd`: it is validated first, and a command that fails validation ends
/// with that error; a valid command that needs permission flags has them checked; one
/// that needs none runs at once.
pub fn begin_command(cmd: &Command) -> (r: (RunStage, RunAction))
    ensures
        fails_validation(*cmd) ==> r.0 == RunStage::Done && (r.1 matches RunAction::Finish(
            Err(Error::CommandValidation(a, b)),
        ) && a@ == lit_send_message() && b@ == lit_message_length()),
        !fails_validation(*cmd) && required_bits(*cmd) != 0 ==> r.0 == RunStage::AwaitingPermission
            && (r.1 matches RunAction::CheckPermission(p) && p@ == required_bits(*cmd)),
        !fails_validation(*cmd) && required_bits(*cmd) == 0 ==> r.0 == RunStage::Executing
            && r.1 is Execute,
{
    match cmd.validate() {
        Err(e) => (RunStage::Done, RunAction::Finish(Err(e))),
        Ok(()) => match cmd.required_permission() {
            Some(p) => (RunStage::AwaitingPermission, RunAction::CheckPermission(p)),
            None => (RunStage::Executing, RunAction::Execute),
        },
    }
}

/// Takes the answer to the step that `stage` waits on (see `run_step`).
pub fn next_step(stage: RunStage, event: RunEvent) -> (r: (RunStage, RunAction))
    requires
        answers(stage, event),
    ensures
        r == run_step(stage, event),
        r.0 matches RunStage::Applying { next, total } ==> next < total,
{
    match event {
        RunEvent::PermissionChecked(Ok(())) => (RunStage::Executing, RunAction::Execute),
        RunEvent::PermissionChecked(Err(e)) => (RunStage::Done, RunAction::Finish(Err(e))),
        RunEvent::Executed(Ok(n)) => if n == 0 {
            (RunStage::Done, RunAction::Finish(Ok(())))
        } else {
            (RunStage::Applying { next: 0, total: n }, RunAction::Apply(0))
        },
        RunEvent::Executed(Err(e)) => (RunStage::Done, RunAction::Finish(Err(e))),
        RunEvent::Applied(Ok(())) => match stage {
            RunStage::Applying { next, total } => if next + 1 >= total {
                (RunStage::Done, RunAction::Finish(Ok(())))
            } else {
                (RunStage::Applying { next: next + 1, total }, RunAction::Apply(next + 1))
            },
            _ => (RunStage::Done, RunAction::Finish(Ok(()))),
        },
        RunEvent::Applied(Err(e)) => (RunStage::Done, RunAction::Finish(Err(e))),
    }
}

/// The stage and action after `k` effects of `total` were applied without error,
/// starting from the first.
pub open spec fn after_applied(total: usize, k: nat) -> (RunStage, RunAction)
    decreases k,
{
    if k == 0 {
        (RunStage::Applying { next: 0, total }, RunAction::Apply(0))
    } else {
        let prev = after_applied(total, (k - 1) as nat);
        run_step(prev.0, RunEvent::Applied(Ok(())))
    }
}

/// A command's effects are applied in order, each once: after the first `k` succeed,
/// the effect at index `k` is the one out, and after all of them the command ends well.
pub proof fn lemma_effects_applied_in_order(total: usize, k: nat)
    requires
        0 < total,
        k <= total,
    ensures
        k < total ==> after_applied(total, k) == (RunStage::Applying { next: k as usize, total }, RunAction::Apply(k as usize)),
        k == total ==> after_applied(total, k) == (RunStage::Done, RunAction::Finish(Ok(()))),
    decreases k,
{
    if k > 0 {
        lemma_effects_applied_in_order(total, (k - 1) as nat);
    }
}

/// The effects of a command's result, in order (none for a silent one).
pub fn effects_of(result: CommandResult) -> (r: Vec<Effect>)
    ensures
        match result {
            CommandResult::Effects(v) => r@ == v@,
            CommandResult::Silent => r@.len() == 0,
        },
{
    match result {
        CommandResult::Effects(v) => v,
        CommandResult::Silent => Vec::new(),
    }
}

/// What the server sends when a play handshake times out: `PlayAborted` with the users
/// who did not confirm, to everyone, when the handshake was still open; nothing when it
/// had already ended.
pub fn play_timeout_effect(request_id: Snowflake, missing: Option<Vec<Snowflake>>) -> (r: Option<Effect>)
    ensures
        match missing {
            None => r is None,
            Some(m) => r == Some(Effect::Global(ServerMessage::PlayAborted { request_id, non_confirmers: m })),
        },
{
    match missing {
        None => None,
        Some(m) => Some(Effect::Global(ServerMessage::PlayAborted { request_id, non_confirmers: m })),
    }
}

/// The log line of a resync request by the user found under the issuer's id, or
/// `InvalidUser` when there is none.
pub fn resync_initiator_log(user: Option<&User>) -> (r: Result<String, Error>)
    ensures
        match user {
            None => r matches Err(Error::InvalidUser),
            Some(u) => r matches Ok(s) && s@ == resync_log_text(display_or_id(opt_chars(u.display_name), u.id)),
        },
{
    match user {
        None => Err(Error::InvalidUser),
        Some(u) => Ok(resync_log(u)),
    }
}

/// A display name, or the decimal text of `id` when there is none.
fn name_or_id(name: &Option<String>, id: Snowflake) -> (r: Vec<char>)
    ensures
        r@ == display_or_id(opt_chars(*name), id),
{
    match name {
        Some(n) => chars_of(n.as_str()),
        None => id.to_chars(),
    }
}

/// The end of a permission edit once the new flags `new_perms` of the target are set,
/// given the users found under the target's and the executor's ids: `InvalidUser` when
/// either is missing (the target looked up first); otherwise the log line, each user
/// named by their display name or their id, and the `PermissionUpdate` for everyone.
pub fn permission_edit_outcome(
    cmd: &EditPermissionCommand,
    executor_id: Snowflake,
    new_perms: Permissions,
    target: Option<&User>,
    executor: Option<&User>,
) -> (r: Result<(String, CommandResult), Error>)
    ensures
        match (target, executor) {
            (Some(t), Some(x)) => match r {
                Ok((log, res)) => {
                    &&& log@ == permission_log_text(
                        display_or_id(opt_chars(x.display_name), executor_id),
                        display_or_id(opt_chars(t.display_name), cmd.target_user),
                        permission_label(cmd.permission@),
                        cmd.granted,
                    )
                    &&& res matches CommandResult::Effects(e)
                    &&& e@ == seq![
                        Effect::Global(ServerMessage::PermissionUpdate { user_id: cmd.target_user, permissions: new_perms }),
                    ]
                },
                Err(_) => false,
            },
            _ => r matches Err(Error::InvalidUser),
        },
{
    let t = match target {
        None => {
            return Err(Error::InvalidUser);
        },
        Some(t) => t,
    };
    let x = match executor {
        None => {
            return Err(Error::InvalidUser);
        },
        Some(x) => x,
    };
    let tn = string_of(&name_or_id(&t.display_name, cmd.target_user));
    let xn = string_of(&name_or_id(&x.display_name, executor_id));
    let log = permission_log(xn.as_str(), tn.as_str(), cmd.permission, cmd.granted);
    let res = CommandResult::from(ServerMessage::PermissionUpdate { user_id: cmd.target_user, permissions: new_perms });
    Ok((log, res))
}

// ---------------------------------------------------------------------------
// The demonstration upload widget
// ---------------------------------------------------------------------------

/// Bytes the demonstration widget advances per tick: 1 MiB.
pub const DEMO_CHUNK: u64 = 1024 * 1024;

/// One tick of the demonstration upload widget: `bytes_done` advances by 1 MiB, capped at
/// the total; it is finished once it reaches the total.
pub fn demo_tick(bytes_done: u64, bytes_total: u64) -> (r: (u64, bool))
    requires
        bytes_done + DEMO_CHUNK <= u64::MAX,
    ensures
        r.0 == if bytes_done + DEMO_CHUNK <= bytes_total {
            bytes_done + DEMO_CHUNK
        } else {
            bytes_total as int
        },
        r.1 == (r.0 >= bytes_total),
{
    let next = bytes_done + DEMO_CHUNK;
    let capped = if next <= bytes_total {
        next
    } else {
        bytes_total
    };
    (capped, capped >= bytes_total)
}

/// The demonstration widget's progress after `k` ticks from zero.
pub open spec fn demo_progress(total: u64, k: nat) -> int
    decreases k,
{
    if k == 0 {
        0
    } else {
        let p = demo_progress(total, (k - 1) as nat);
        if p + DEMO_CHUNK <= total {
            p + DEMO_CHUNK
        } else {
            total as int
        }
    }
}

/// Ticking the demonstration widget from zero: after `k` ticks it shows
/// `min(k MiB, total)` bytes, and it is finished exactly once `k MiB` reaches the total.
pub proof fn lemma_demo_progress(total: u64, k: nat)
    ensures
        demo_progress(total, k) == if k * DEMO_CHUNK <= total {
            k * DEMO_CHUNK
        } else {
            total as int
        },
        (demo_progress(total, k) >= total) == (k * DEMO_CHUNK >= total),
    decreases k,
{
    if k > 0 {
        lemma_demo_progress(total, (k - 1) as nat);
        assert(k * DEMO_CHUNK == (k - 1) * DEMO_CHUNK + DEMO_CHUNK) by (nonlinear_arith);
    }
}

} // verus!
