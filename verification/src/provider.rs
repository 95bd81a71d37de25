//! The server's service registry: one shared handle per service, handed out by reference.
//!
//! The registry does not know what the services do; it is generic over their types and
//! only promises that each getter hands back the handle it was built with.

use std::sync::Arc;
use vstd::prelude::*;

verus! {

/// The server's services, each behind a shared handle.
pub struct ServiceProvider<SnowflakeSvc, UserSvc, PermissionSvc, MessageSvc, PlaybackSvc, VideoSvc, StateSvc> {
    snowflake: Arc<SnowflakeSvc>,
    users: Arc<UserSvc>,
    permissions: Arc<PermissionSvc>,
    messages: Arc<MessageSvc>,
    playback: Arc<PlaybackSvc>,
    video: Arc<VideoSvc>,
    state: Arc<StateSvc>,
}

impl<SnowflakeSvc, UserSvc, PermissionSvc, MessageSvc, PlaybackSvc, VideoSvc, StateSvc> ServiceProvider<
    SnowflakeSvc,
    UserSvc,
    PermissionSvc,
    MessageSvc,
    PlaybackSvc,
    VideoSvc,
    StateSvc,
> {
    /// The identifier generator's handle.
    pub closed spec fn snowflake_handle(&self) -> Arc<SnowflakeSvc> {
        self.snowflake
    }

    /// The user directory's handle.
    pub closed spec fn user_handle(&self) -> Arc<UserSvc> {
        self.users
    }

    /// The permission service's handle.
    pub closed spec fn permission_handle(&self) -> Arc<PermissionSvc> {
        self.permissions
    }

    /// The chat history's handle.
    pub closed spec fn message_handle(&self) -> Arc<MessageSvc> {
        self.messages
    }

    /// The playback service's handle.
    pub closed spec fn playback_handle(&self) -> Arc<PlaybackSvc> {
        self.playback
    }

    /// The video library's handle.
    pub closed spec fn video_handle(&self) -> Arc<VideoSvc> {
        self.video
    }

    /// The client-state service's handle.
    pub closed spec fn state_handle(&self) -> Arc<StateSvc> {
        self.state
    }

    /// Assembles the registry from the services, already wired to one another.
    pub fn new(
        snowflake: Arc<SnowflakeSvc>,
        users: Arc<UserSvc>,
        permissions: Arc<PermissionSvc>,
        messages: Arc<MessageSvc>,
        playback: Arc<PlaybackSvc>,
        video: Arc<VideoSvc>,
        state: Arc<StateSvc>,
    ) -> (p: Self)
        ensures
            p.snowflake_handle() == snowflake,
            p.user_handle() == users,
            p.permission_handle() == permissions,
            p.message_handle() == messages,
            p.playback_handle() == playback,
            p.video_handle() == video,
            p.state_handle() == state,
    {
        ServiceProvider { snowflake, users, permissions, messages, playback, video, state }
    }

    /// The identifier generator.
    pub fn snowflake(&self) -> (r: &Arc<SnowflakeSvc>)
        ensures
            *r == self.snowflake_handle(),
    {
        &self.snowflake
    }

    /// The user directory.
    pub fn user(&self) -> (r: &Arc<UserSvc>)
        ensures
            *r == self.user_handle(),
    {
        &self.users
    }

    /// The permission service.
    pub fn permission(&self) -> (r: &Arc<PermissionSvc>)
        ensures
            *r == self.permission_handle(),
    {
        &self.permissions
    }

    /// The chat history.
    pub fn message(&self) -> (r: &Arc<MessageSvc>)
        ensures
            *r == self.message_handle(),
    {
        &self.messages
    }

    /// The playback service.
    pub fn playback(&self) -> (r: &Arc<PlaybackSvc>)
        ensures
            *r == self.playback_handle(),
    {
        &self.playback
    }

    /// The video library.
    pub fn video(&self) -> (r: &Arc<VideoSvc>)
        ensures
            *r == self.video_handle(),
    {
        &self.video
    }

    /// The client-state service.
    pub fn state(&self) -> (r: &Arc<StateSvc>)
        ensures
            *r == self.state_handle(),
    {
        &self.state
    }
}

} // verus!
