//! How the client answers a message from the server.
//!
//! Answering a message mixes decisions with outside work: telling the user interface,
//! driving the player, sending to the server. The decisions are made here, once, into a
//! list of steps; whoever holds the interface, the player and the connection performs
//! the steps in order and stops at the first one that fails.

use vstd::prelude::*;

use crate::downloads::FileManager;
use crate::protocol::{
    ClientMessage, Entry, Permissions, ServerMessage, Snowflake, User, UserReadinessView,
    VideoEntry,
};
use crate::text::string_of;

verus! {

/// An event shown to the user interface, with its payload.
pub enum UiEvent {
    UserList(Vec<User>),
    PermissionUpdate(Snowflake, Permissions),
    MessageHistory(Vec<Entry>),
    MessageCreated(Entry),
    WidgetUpdated(Entry),
    WidgetDone(Entry),
    RequestResyncReport(Snowflake),
    CommitResync(u32),
    ReadinessUpdated(UserReadinessView),
    RequestReadyConfirmation { request_id: Snowflake, video_id: Snowflake, deadline_ms: u64 },
    Play(Snowflake),
    PlayAborted { request_id: Snowflake, non_confirmers: Vec<Snowflake> },
    Pause,
    Resume,
    Seek,
    VideoSelected(Snowflake),
    PlaylistUpdated(Vec<VideoEntry>),
    ServerError(String),
}

/// One piece of outside work.
pub enum DispatchStep {
    /// Stop the ping clock and tell the interface the round trip it measured.
    EmitPong,
    /// Remember the identity the server gave this client.
    SetClientId(Snowflake),
    /// Tell the interface.
    Emit(UiEvent),
    /// Pause the player.
    MpvPause,
    /// Unpause the player.
    MpvPlay,
    /// Seek the player to a whole number of seconds.
    MpvSeekSeconds(u32),
    /// Seek the player to a position in seconds, given as the bits of a double.
    MpvSeekBits(u64),
    MpvSetAudioTrack(u32),
    MpvSetSubtitleTrack(u32),
    /// Read the player's position, for the report that follows.
    MpvReadPosition,
    /// Report the position just read for the given resync.
    SendPositionReport { state_id: Snowflake },
    /// Send a message to the server.
    Send(ClientMessage),
    /// Load a file in the player, and confirm readiness once it is loaded.
    LoadAndConfirm { request_id: Snowflake, path: Vec<u8>, mpv_binary: String, deadline_ms: u64 },
}

/// Why a message could not be answered.
pub enum DispatchError {
    Ws(String),
    Mpv(String),
    FileManager(String),
    Invariant(String),
}

/// `"File manager not initialized"`.
pub open spec fn lit_no_file_manager() -> Seq<char> {
    seq![
        'F', 'i', 'l', 'e', ' ', 'm', 'a', 'n', 'a', 'g', 'e', 'r', ' ', 'n', 'o', 't', ' ', 'i',
        'n', 'i', 't', 'i', 'a', 'l', 'i', 'z', 'e', 'd'
    ]
}

/// The ids of the playlist's videos that are on this device, in playlist order.
pub open spec fn ids_on_device(files: FileManager, playlist: Seq<VideoEntry>) -> Seq<Snowflake>
    decreases playlist.len(),
{
    if playlist.len() == 0 {
        seq![]
    } else {
        let rest = ids_on_device(files, playlist.drop_last());
        if files.path_of(playlist.last().id) is Some {
            rest.push(playlist.last().id)
        } else {
            rest
        }
    }
}

/// The answer to a message that needs no file lookup, when there is a plain one.
pub open spec fn plain_steps(msg: ServerMessage) -> Seq<DispatchStep> {
    match msg {
        ServerMessage::Pong => seq![DispatchStep::EmitPong],
        ServerMessage::UserIdentity { id } => seq![DispatchStep::SetClientId(id)],
        ServerMessage::UserList { users } => seq![DispatchStep::Emit(UiEvent::UserList(users))],
        ServerMessage::PermissionUpdate { user_id, permissions } => seq![
            DispatchStep::Emit(UiEvent::PermissionUpdate(user_id, permissions)),
        ],
        ServerMessage::MessageHistory { history } => seq![
            DispatchStep::Emit(UiEvent::MessageHistory(history)),
        ],
        ServerMessage::MessageCreated { entry } => seq![
            DispatchStep::Emit(UiEvent::MessageCreated(entry)),
        ],
        ServerMessage::WidgetUpdated { entry } => seq![
            DispatchStep::Emit(UiEvent::WidgetUpdated(entry)),
        ],
        ServerMessage::WidgetDone { entry } => seq![DispatchStep::Emit(UiEvent::WidgetDone(entry))],
        ServerMessage::RequestResyncReport { id } => seq![
            DispatchStep::MpvPause,
            DispatchStep::MpvReadPosition,
            DispatchStep::Emit(UiEvent::RequestResyncReport(id)),
            DispatchStep::SendPositionReport { state_id: id },
        ],
        ServerMessage::CommitResync { timestamp } => seq![
            DispatchStep::MpvSeekSeconds(timestamp),
            DispatchStep::Emit(UiEvent::CommitResync(timestamp)),
        ],
        ServerMessage::ReadinessUpdated { readiness } => seq![
            DispatchStep::Emit(UiEvent::ReadinessUpdated(readiness)),
        ],
        ServerMessage::Play { request_id, track_audio, track_subtitles } => seq![
            DispatchStep::MpvSetAudioTrack(track_audio),
            DispatchStep::MpvSetSubtitleTrack(track_subtitles),
            DispatchStep::MpvPlay,
            DispatchStep::Emit(UiEvent::Play(request_id)),
        ],
        ServerMessage::PlayAborted { request_id, non_confirmers } => seq![
            DispatchStep::Emit(UiEvent::PlayAborted { request_id, non_confirmers }),
        ],
        ServerMessage::Pause => seq![DispatchStep::MpvPause, DispatchStep::Emit(UiEvent::Pause)],
        ServerMessage::Resume => seq![DispatchStep::MpvPlay, DispatchStep::Emit(UiEvent::Resume)],
        ServerMessage::Seek { timestamp_bits } => seq![
            DispatchStep::MpvSeekBits(timestamp_bits),
            DispatchStep::Emit(UiEvent::Seek),
        ],
        ServerMessage::VideoSelected { video_id } => seq![
            DispatchStep::Emit(UiEvent::VideoSelected(video_id)),
        ],
        ServerMessage::Error { message } => seq![DispatchStep::Emit(UiEvent::ServerError(message))],
        _ => seq![],
    }
}

/// Whether `steps` drives the player with `player` somewhere before it tells the
/// interface `shown`.
pub open spec fn player_before_interface(steps: Seq<DispatchStep>, player: DispatchStep, shown: UiEvent) -> bool {
    forall|i: int| 0 <= i < steps.len() && #[trigger] steps[i] == DispatchStep::Emit(shown) ==>
        exists|j: int| 0 <= j < i && steps[j] == player
}

/// The player moves before the interface is told: whatever the message, a step that
/// tells the interface playback paused, resumed, started or seeked comes after the step
/// that pauses, unpauses or seeks the player to the message's position; and a resync
/// request pauses the player and reads its position before anything is reported.
pub proof fn lemma_player_moves_first(msg: ServerMessage)
    ensures
        player_before_interface(plain_steps(msg), DispatchStep::MpvPause, UiEvent::Pause),
        player_before_interface(plain_steps(msg), DispatchStep::MpvPlay, UiEvent::Resume),
        forall|rid: Snowflake| player_before_interface(plain_steps(msg), DispatchStep::MpvPlay, UiEvent::Play(rid)),
        msg matches ServerMessage::Seek { timestamp_bits } ==> player_before_interface(
            plain_steps(msg),
            DispatchStep::MpvSeekBits(timestamp_bits),
            UiEvent::Seek,
        ),
        msg matches ServerMessage::RequestResyncReport { id } ==> {
            &&& plain_steps(msg)[0] == DispatchStep::MpvPause
            &&& plain_steps(msg)[1] == DispatchStep::MpvReadPosition
            &&& plain_steps(msg).last() == DispatchStep::SendPositionReport { state_id: id }
        },
{
    let s = plain_steps(msg);
    assert forall|i: int| 0 <= i < s.len() && #[trigger] s[i] == DispatchStep::Emit(UiEvent::Pause) implies
        exists|j: int| 0 <= j < i && s[j] == DispatchStep::MpvPause by {
        assert(s[0] == DispatchStep::MpvPause);
    }
    assert forall|i: int| 0 <= i < s.len() && #[trigger] s[i] == DispatchStep::Emit(UiEvent::Resume) implies
        exists|j: int| 0 <= j < i && s[j] == DispatchStep::MpvPlay by {
        assert(s[0] == DispatchStep::MpvPlay);
    }
    assert forall|rid: Snowflake| player_before_interface(s, DispatchStep::MpvPlay, UiEvent::Play(rid)) by {
        assert forall|i: int| 0 <= i < s.len() && #[trigger] s[i] == DispatchStep::Emit(UiEvent::Play(rid)) implies
            exists|j: int| 0 <= j < i && s[j] == DispatchStep::MpvPlay by {
            assert(s[2] == DispatchStep::MpvPlay);
        }
    }
    if let ServerMessage::Seek { timestamp_bits } = msg {
        assert forall|i: int| 0 <= i < s.len() && #[trigger] s[i] == DispatchStep::Emit(UiEvent::Seek) implies
            exists|j: int| 0 <= j < i && s[j] == DispatchStep::MpvSeekBits(timestamp_bits) by {
            assert(s[0] == DispatchStep::MpvSeekBits(timestamp_bits));
        }
    }
}

/// Whether answering the message looks up files on this device.
pub open spec fn needs_files(msg: ServerMessage) -> bool {
    msg is RequestReadyConfirmation || msg is PlaylistUpdated
}

/// The ids of the playlist's videos that are on this device, in playlist order.
fn collect_on_device(files: &FileManager, playlist: &Vec<VideoEntry>) -> (r: Vec<Snowflake>)
    ensures
        r@ == ids_on_device(*files, playlist@),
{
    let mut out: Vec<Snowflake> = Vec::new();
    let mut i: usize = 0;
    while i < playlist.len()
        invariant
            i <= playlist.len(),
            out@ == ids_on_device(*files, playlist@.subrange(0, i as int)),
        decreases playlist.len() - i,
    {
        let id = playlist[i].id;
        proof {
            let s = playlist@.subrange(0, i as int + 1);
            assert(s.drop_last() == playlist@.subrange(0, i as int));
            assert(s.last() == playlist@[i as int]);
        }
        if files.is_on_device(id) {
            out.push(id);
        }
        i = i + 1;
    }
    assert(playlist@.subrange(0, playlist.len() as int) == playlist@);
    out
}

/// Decides how to answer a message from the server: the steps to perform, in order.
///
/// A message that needs the local files fails with `FileManager` when there is no file
/// manager. A readiness request asserts whether the video is on this device, tells the
/// interface, and, when the file is here, loads it in the player with the configured
/// binary. A playlist update asserts which of its videos are here, then tells the
/// interface.
pub fn dispatch_plan(msg: ServerMessage, files: Option<&FileManager>, mpv_binary: &String) -> (r: Result<Vec<DispatchStep>, DispatchError>)
    requires
        files matches Some(f) ==> f.wf(),
    ensures
        !needs_files(msg) ==> (r matches Ok(s) && s@ == plain_steps(msg)),
        match msg {
            ServerMessage::Pause => r matches Ok(s) && s@ == seq![DispatchStep::MpvPause, DispatchStep::Emit(UiEvent::Pause)],
            ServerMessage::Resume => r matches Ok(s) && s@ == seq![DispatchStep::MpvPlay, DispatchStep::Emit(UiEvent::Resume)],
            ServerMessage::Seek { timestamp_bits } => r matches Ok(s) && s@ == seq![
                DispatchStep::MpvSeekBits(timestamp_bits),
                DispatchStep::Emit(UiEvent::Seek),
            ],
            ServerMessage::Play { request_id, track_audio, track_subtitles } => r matches Ok(s) && s@ == seq![
                DispatchStep::MpvSetAudioTrack(track_audio),
                DispatchStep::MpvSetSubtitleTrack(track_subtitles),
                DispatchStep::MpvPlay,
                DispatchStep::Emit(UiEvent::Play(request_id)),
            ],
            ServerMessage::CommitResync { timestamp } => r matches Ok(s) && s@ == seq![
                DispatchStep::MpvSeekSeconds(timestamp),
                DispatchStep::Emit(UiEvent::CommitResync(timestamp)),
            ],
            ServerMessage::RequestResyncReport { id } => r matches Ok(s) && s@ == seq![
                DispatchStep::MpvPause,
                DispatchStep::MpvReadPosition,
                DispatchStep::Emit(UiEvent::RequestResyncReport(id)),
                DispatchStep::SendPositionReport { state_id: id },
            ],
            ServerMessage::Pong => r matches Ok(s) && s@ == seq![DispatchStep::EmitPong],
            ServerMessage::UserIdentity { id } => r matches Ok(s) && s@ == seq![DispatchStep::SetClientId(id)],
            ServerMessage::UserList { users } => r matches Ok(s) && s@ == seq![DispatchStep::Emit(UiEvent::UserList(users))],
            ServerMessage::PermissionUpdate { user_id, permissions } => r matches Ok(s) && s@ == seq![
                DispatchStep::Emit(UiEvent::PermissionUpdate(user_id, permissions)),
            ],
            ServerMessage::MessageHistory { history } => r matches Ok(s) && s@ == seq![
                DispatchStep::Emit(UiEvent::MessageHistory(history)),
            ],
            ServerMessage::MessageCreated { entry } => r matches Ok(s) && s@ == seq![
                DispatchStep::Emit(UiEvent::MessageCreated(entry)),
            ],
            ServerMessage::WidgetUpdated { entry } => r matches Ok(s) && s@ == seq![
                DispatchStep::Emit(UiEvent::WidgetUpdated(entry)),
            ],
            ServerMessage::WidgetDone { entry } => r matches Ok(s) && s@ == seq![DispatchStep::Emit(UiEvent::WidgetDone(entry))],
            ServerMessage::ReadinessUpdated { readiness } => r matches Ok(s) && s@ == seq![
                DispatchStep::Emit(UiEvent::ReadinessUpdated(readiness)),
            ],
            ServerMessage::PlayAborted { request_id, non_confirmers } => r matches Ok(s) && s@ == seq![
                DispatchStep::Emit(UiEvent::PlayAborted { request_id, non_confirmers }),
            ],
            ServerMessage::VideoSelected { video_id } => r matches Ok(s) && s@ == seq![
                DispatchStep::Emit(UiEvent::VideoSelected(video_id)),
            ],
            ServerMessage::Error { message } => r matches Ok(s) && s@ == seq![DispatchStep::Emit(UiEvent::ServerError(message))],
            _ => true,
        },
        needs_files(msg) && files is None ==> (r matches Err(DispatchError::FileManager(t)) && t@
            == lit_no_file_manager()),
        match (msg, files) {
            (
                ServerMessage::RequestReadyConfirmation { request_id, video_id, deadline_ms },
                Some(f),
            ) => r matches Ok(s) && {
                let here = f.path_of(video_id) is Some;
                &&& s@.len() == if here {
                    3int
                } else {
                    2int
                }
                &&& s@[0] == DispatchStep::Send(
                    ClientMessage::AssertReady { video_id, on_device: here },
                )
                &&& s@[1] == DispatchStep::Emit(
                    UiEvent::RequestReadyConfirmation { request_id, video_id, deadline_ms },
                )
                &&& here ==> (s@[2] matches DispatchStep::LoadAndConfirm {
                    request_id: q,
                    path,
                    mpv_binary: b,
                    deadline_ms: d,
                } && q == request_id && f.path_of(video_id) == Some(path@) && b@ == mpv_binary@
                    && d == deadline_ms)
            },
            (ServerMessage::PlaylistUpdated { playlist }, Some(f)) => r matches Ok(s) && {
                &&& s@.len() == 2
                &&& s@[0] matches DispatchStep::Send(ClientMessage::AssertReadyBulk { on_device })
                    && on_device@ == ids_on_device(*f, playlist@)
                &&& s@[1] == DispatchStep::Emit(UiEvent::PlaylistUpdated(playlist))
            },
            _ => true,
        },
{
    match msg {
        ServerMessage::RequestReadyConfirmation { request_id, video_id, deadline_ms } => {
            match files {
                None => Err(no_file_manager()),
                Some(f) => {
                    let here = f.is_on_device(video_id);
                    let mut steps: Vec<DispatchStep> = Vec::new();
                    steps.push(
                        DispatchStep::Send(ClientMessage::AssertReady { video_id, on_device: here }),
                    );
                    steps.push(
                        DispatchStep::Emit(
                            UiEvent::RequestReadyConfirmation { request_id, video_id, deadline_ms },
                        ),
                    );
                    if here {
                        match f.local_path(video_id) {
                            Some(path) => {
                                steps.push(
                                    DispatchStep::LoadAndConfirm {
                                        request_id,
                                        path,
                                        mpv_binary: mpv_binary.clone(),
                                        deadline_ms,
                                    },
                                );
                            },
                            None => {},
                        }
                    }
                    Ok(steps)
                },
            }
        },
        ServerMessage::PlaylistUpdated { playlist } => {
            match files {
                None => Err(no_file_manager()),
                Some(f) => {
                    let on_device = collect_on_device(f, &playlist);
                    let mut steps: Vec<DispatchStep> = Vec::new();
                    steps.push(DispatchStep::Send(ClientMessage::AssertReadyBulk { on_device }));
                    steps.push(DispatchStep::Emit(UiEvent::PlaylistUpdated(playlist)));
                    Ok(steps)
                },
            }
        },
        other => Ok(plain_plan(other)),
    }
}

/// The `FileManager` error for a missing file manager.
fn no_file_manager() -> (e: DispatchError)
    ensures
        e matches DispatchError::FileManager(t) && t@ == lit_no_file_manager(),
{
    let t = vec![
        'F', 'i', 'l', 'e', ' ', 'm', 'a', 'n', 'a', 'g', 'e', 'r', ' ', 'n', 'o', 't', ' ', 'i',
        'n', 'i', 't', 'i', 'a', 'l', 'i', 'z', 'e', 'd'
    ];
    assert(t@ == lit_no_file_manager());
    DispatchError::FileManager(string_of(&t))
}

/// The steps for a message that needs no file lookup.
fn plain_plan(msg: ServerMessage) -> (s: Vec<DispatchStep>)
    ensures
        s@ == plain_steps(msg),
{
    let mut s: Vec<DispatchStep> = Vec::new();
    match msg {
        ServerMessage::Pong => s.push(DispatchStep::EmitPong),
        ServerMessage::UserIdentity { id } => s.push(DispatchStep::SetClientId(id)),
        ServerMessage::UserList { users } => s.push(DispatchStep::Emit(UiEvent::UserList(users))),
        ServerMessage::PermissionUpdate { user_id, permissions } => s.push(
            DispatchStep::Emit(UiEvent::PermissionUpdate(user_id, permissions)),
        ),
        ServerMessage::MessageHistory { history } => s.push(
            DispatchStep::Emit(UiEvent::MessageHistory(history)),
        ),
        ServerMessage::MessageCreated { entry } => s.push(
            DispatchStep::Emit(UiEvent::MessageCreated(entry)),
        ),
        ServerMessage::WidgetUpdated { entry } => s.push(
            DispatchStep::Emit(UiEvent::WidgetUpdated(entry)),
        ),
        ServerMessage::WidgetDone { entry } => s.push(DispatchStep::Emit(UiEvent::WidgetDone(entry))),
        ServerMessage::RequestResyncReport { id } => {
            s.push(DispatchStep::MpvPause);
            s.push(DispatchStep::MpvReadPosition);
            s.push(DispatchStep::Emit(UiEvent::RequestResyncReport(id)));
            s.push(DispatchStep::SendPositionReport { state_id: id });
        },
        ServerMessage::CommitResync { timestamp } => {
            s.push(DispatchStep::MpvSeekSeconds(timestamp));
            s.push(DispatchStep::Emit(UiEvent::CommitResync(timestamp)));
        },
        ServerMessage::ReadinessUpdated { readiness } => s.push(
            DispatchStep::Emit(UiEvent::ReadinessUpdated(readiness)),
        ),
        ServerMessage::Play { request_id, track_audio, track_subtitles } => {
            s.push(DispatchStep::MpvSetAudioTrack(track_audio));
            s.push(DispatchStep::MpvSetSubtitleTrack(track_subtitles));
            s.push(DispatchStep::MpvPlay);
            s.push(DispatchStep::Emit(UiEvent::Play(request_id)));
        },
        ServerMessage::PlayAborted { request_id, non_confirmers } => s.push(
            DispatchStep::Emit(UiEvent::PlayAborted { request_id, non_confirmers }),
        ),
        ServerMessage::Pause => {
            s.push(DispatchStep::MpvPause);
            s.push(DispatchStep::Emit(UiEvent::Pause));
        },
        ServerMessage::Resume => {
            s.push(DispatchStep::MpvPlay);
            s.push(DispatchStep::Emit(UiEvent::Resume));
        },
        ServerMessage::Seek { timestamp_bits } => {
            s.push(DispatchStep::MpvSeekBits(timestamp_bits));
            s.push(DispatchStep::Emit(UiEvent::Seek));
        },
        ServerMessage::VideoSelected { video_id } => s.push(
            DispatchStep::Emit(UiEvent::VideoSelected(video_id)),
        ),
        ServerMessage::Error { message } => s.push(
            DispatchStep::Emit(UiEvent::ServerError(message)),
        ),
        _ => {},
    }
    s
}

} // verus!
