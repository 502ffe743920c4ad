//! Directives and transport events exchanged between the queue and the
//! player bridge.  The bridge's decision logic lives in [`player_worker`].

pub mod player_worker;

use vstd::prelude::*;

verus! {

/// A playback directive, sent from the queue to the player bridge.
/// Fire-and-forget: consistency is re-established via events.
#[derive(Clone, Debug, PartialEq)]
pub enum PlayerCommand {
    Load(String),
    Seek(u32),
    SetVolume(u16),
    Stop,
    Play,
    Pause,
}

/// The mathematical value of a [`PlayerCommand`]: the loaded id as a
/// character sequence.
pub enum PlayerCommandModel {
    Load(Seq<char>),
    Seek(u32),
    SetVolume(u16),
    Stop,
    Play,
    Pause,
}

impl View for PlayerCommand {
    type V = PlayerCommandModel;

    open spec fn view(&self) -> PlayerCommandModel {
        match self {
            PlayerCommand::Load(id) => PlayerCommandModel::Load(id@),
            PlayerCommand::Seek(pos) => PlayerCommandModel::Seek(*pos),
            PlayerCommand::SetVolume(v) => PlayerCommandModel::SetVolume(*v),
            PlayerCommand::Stop => PlayerCommandModel::Stop,
            PlayerCommand::Play => PlayerCommandModel::Play,
            PlayerCommand::Pause => PlayerCommandModel::Pause,
        }
    }
}

/// A transport fact reported by the player bridge; also the queue's
/// status value (initially `Stopped`).
#[derive(Clone, Copy, Debug, PartialEq, Eq, Structural)]
pub enum PlayerEvent {
    FinishedTrack,
    Playing,
    Stopped,
    Paused,
}

/// The protocol name of a transport status: `play`, `pause` or `stop`.
pub open spec fn spec_state_name(e: PlayerEvent) -> Seq<char> {
    match e {
        PlayerEvent::Playing => "play"@,
        PlayerEvent::Paused => "pause"@,
        _ => "stop"@,
    }
}

impl PlayerEvent {
    /// The name used in `state:` status lines.
    pub fn as_str(&self) -> (r: &'static str)
        ensures
            r@ == spec_state_name(*self),
    {
        match self {
            PlayerEvent::Playing => "play",
            PlayerEvent::Paused => "pause",
            _ => "stop",
        }
    }
}

} // verus!
