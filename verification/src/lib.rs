use vstd::prelude::*;

pub mod commands;
pub mod config;
pub mod dispatch;
pub mod downloads;
pub mod media;
pub mod paths;
pub mod player;
pub mod protocol;
pub mod room;
pub mod provider;
pub mod server_config;
pub mod session;
pub mod sizes;
pub mod text;
pub mod uploads;

verus! {
} // verus!
