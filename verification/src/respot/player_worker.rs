//! The player bridge's decision logic: it is the only component allowed to
//! drive the streaming session, and it turns each queue directive into one
//! session action plus (for some directives) one transport event.  It also
//! owns the volume-curve conversion from the linear 0..=100 scale to the
//! mixer's gain domain.

use vstd::prelude::*;

use crate::respot::{PlayerCommand, PlayerEvent};

verus! {

/// One call into the opaque streaming-session capability.
#[derive(Clone, Debug, PartialEq)]
pub enum SessionAction {
    /// Resolve the track id and begin buffering.
    LoadTrack(String),
    /// Start or resume audio output.
    StartPlayback,
    /// Suspend audio output.
    PausePlayback,
    /// Release audio output.
    StopPlayback,
    /// Apply a gain value (already curve-converted) to the mixer.
    SetMixerGain(u16),
}

/// The gain for one linear volume step.  The curve is exponential: the
/// linear input is normalised onto the mixer's full range and mapped
/// through `exp(normalized * ln 1000) / 1000`, saturating at the top of
/// the range, so that equal volume steps sound like equal loudness steps.
/// The library avoids floating point, so the curve is fixed as a table.
pub open spec fn spec_mixer_gain(v: u16) -> u16 {
    if v == 0 { 65 }
    else if v == 1 { 70 }
    else if v == 2 { 75 }
    else if v == 3 { 80 }
    else if v == 4 { 86 }
    else if v == 5 { 92 }
    else if v == 6 { 99 }
    else if v == 7 { 106 }
    else if v == 8 { 113 }
    else if v == 9 { 122 }
    else if v == 10 { 130 }
    else if v == 11 { 140 }
    else if v == 12 { 150 }
    else if v == 13 { 160 }
    else if v == 14 { 172 }
    else if v == 15 { 184 }
    else if v == 16 { 197 }
    else if v == 17 { 212 }
    else if v == 18 { 227 }
    else if v == 19 { 243 }
    else if v == 20 { 260 }
    else if v == 21 { 279 }
    else if v == 22 { 299 }
    else if v == 23 { 321 }
    else if v == 24 { 343 }
    else if v == 25 { 368 }
    else if v == 26 { 394 }
    else if v == 27 { 423 }
    else if v == 28 { 453 }
    else if v == 29 { 485 }
    else if v == 30 { 520 }
    else if v == 31 { 557 }
    else if v == 32 { 597 }
    else if v == 33 { 640 }
    else if v == 34 { 686 }
    else if v == 35 { 735 }
    else if v == 36 { 788 }
    else if v == 37 { 844 }
    else if v == 38 { 904 }
    else if v == 39 { 969 }
    else if v == 40 { 1038 }
    else if v == 41 { 1113 }
    else if v == 42 { 1192 }
    else if v == 43 { 1278 }
    else if v == 44 { 1369 }
    else if v == 45 { 1467 }
    else if v == 46 { 1572 }
    else if v == 47 { 1684 }
    else if v == 48 { 1805 }
    else if v == 49 { 1934 }
    else if v == 50 { 2072 }
    else if v == 51 { 2220 }
    else if v == 52 { 2379 }
    else if v == 53 { 2550 }
    else if v == 54 { 2732 }
    else if v == 55 { 2927 }
    else if v == 56 { 3137 }
    else if v == 57 { 3361 }
    else if v == 58 { 3602 }
    else if v == 59 { 3859 }
    else if v == 60 { 4135 }
    else if v == 61 { 4431 }
    else if v == 62 { 4748 }
    else if v == 63 { 5088 }
    else if v == 64 { 5452 }
    else if v == 65 { 5841 }
    else if v == 66 { 6260 }
    else if v == 67 { 6707 }
    else if v == 68 { 7187 }
    else if v == 69 { 7701 }
    else if v == 70 { 8252 }
    else if v == 71 { 8842 }
    else if v == 72 { 9475 }
    else if v == 73 { 10152 }
    else if v == 74 { 10878 }
    else if v == 75 { 11657 }
    else if v == 76 { 12490 }
    else if v == 77 { 13383 }
    else if v == 78 { 14341 }
    else if v == 79 { 15366 }
    else if v == 80 { 16464 }
    else if v == 81 { 17643 }
    else if v == 82 { 18904 }
    else if v == 83 { 20258 }
    else if v == 84 { 21706 }
    else if v == 85 { 23258 }
    else if v == 86 { 24923 }
    else if v == 87 { 26704 }
    else if v == 88 { 28613 }
    else if v == 89 { 30662 }
    else if v == 90 { 32854 }
    else if v == 91 { 35202 }
    else if v == 92 { 37723 }
    else if v == 93 { 40419 }
    else if v == 94 { 43308 }
    else if v == 95 { 46409 }
    else if v == 96 { 49727 }
    else if v == 97 { 53281 }
    else if v == 98 { 57096 }
    else if v == 99 { 61177 }
    else { 65535 }
}

/// The background worker that owns the streaming session.  `active` tracks
/// whether output is currently running.
pub struct PlayerWorker {
    pub active: bool,
}

impl PlayerWorker {
    /// A worker that has not started playback yet.
    pub fn new() -> (r: Self)
        ensures
            !r.active,
    {
        PlayerWorker { active: false }
    }

    /// Decide what one directive means for the session: which session call
    /// to make and which transport event (if any) to report back.
    /// `Load` emits no event — playback start is signalled only by the
    /// following `Play`; `Stop` emits no event either, since stopped status
    /// is driven queue-side by the command itself.
    pub fn handle_event(&mut self, command: PlayerCommand) -> (r: (
        Option<SessionAction>,
        Option<PlayerEvent>,
    ))
        ensures
            match command {
                PlayerCommand::Load(id) => r == (
                    Some(SessionAction::LoadTrack(id)),
                    None::<PlayerEvent>,
                ) && final(self).active == old(self).active,
                PlayerCommand::Play => r == (
                    Some(SessionAction::StartPlayback),
                    Some(PlayerEvent::Playing),
                ) && final(self).active,
                PlayerCommand::Pause => r == (
                    Some(SessionAction::PausePlayback),
                    Some(PlayerEvent::Paused),
                ) && !final(self).active,
                PlayerCommand::Stop => r == (
                    Some(SessionAction::StopPlayback),
                    None::<PlayerEvent>,
                ) && !final(self).active,
                PlayerCommand::SetVolume(v) => r == (
                    Some(SessionAction::SetMixerGain(spec_mixer_gain(v))),
                    None::<PlayerEvent>,
                ) && final(self).active == old(self).active,
                PlayerCommand::Seek(_) => r == (
                    None::<SessionAction>,
                    None::<PlayerEvent>,
                ) && final(self).active == old(self).active,
            },
    {
        match command {
            PlayerCommand::Load(id) => (Some(SessionAction::LoadTrack(id)), None),
            PlayerCommand::Play => {
                self.active = true;
                (Some(SessionAction::StartPlayback), Some(PlayerEvent::Playing))
            }
            PlayerCommand::Pause => {
                self.active = false;
                (Some(SessionAction::PausePlayback), Some(PlayerEvent::Paused))
            }
            PlayerCommand::Stop => {
                self.active = false;
                (Some(SessionAction::StopPlayback), None)
            }
            PlayerCommand::SetVolume(v) => {
                (Some(SessionAction::SetMixerGain(Self::calc_logarithmic_volume(v))), None)
            }
            PlayerCommand::Seek(_) => (None, None),
        }
    }

    /// Convert a linear 0..=100 volume to the mixer's gain domain through
    /// the exponential curve (inputs above 100 saturate at full gain).
    pub fn calc_logarithmic_volume(volume: u16) -> (r: u16)
        ensures
            r == spec_mixer_gain(volume),
    {
        let v = volume;
    if v == 0 { 65 }
    else if v == 1 { 70 }
    else if v == 2 { 75 }
    else if v == 3 { 80 }
    else if v == 4 { 86 }
    else if v == 5 { 92 }
    else if v == 6 { 99 }
    else if v == 7 { 106 }
    else if v == 8 { 113 }
    else if v == 9 { 122 }
    else if v == 10 { 130 }
    else if v == 11 { 140 }
    else if v == 12 { 150 }
    else if v == 13 { 160 }
    else if v == 14 { 172 }
    else if v == 15 { 184 }
    else if v == 16 { 197 }
    else if v == 17 { 212 }
    else if v == 18 { 227 }
    else if v == 19 { 243 }
    else if v == 20 { 260 }
    else if v == 21 { 279 }
    else if v == 22 { 299 }
    else if v == 23 { 321 }
    else if v == 24 { 343 }
    else if v == 25 { 368 }
    else if v == 26 { 394 }
    else if v == 27 { 423 }
    else if v == 28 { 453 }
    else if v == 29 { 485 }
    else if v == 30 { 520 }
    else if v == 31 { 557 }
    else if v == 32 { 597 }
    else if v == 33 { 640 }
    else if v == 34 { 686 }
    else if v == 35 { 735 }
    else if v == 36 { 788 }
    else if v == 37 { 844 }
    else if v == 38 { 904 }
    else if v == 39 { 969 }
    else if v == 40 { 1038 }
    else if v == 41 { 1113 }
    else if v == 42 { 1192 }
    else if v == 43 { 1278 }
    else if v == 44 { 1369 }
    else if v == 45 { 1467 }
    else if v == 46 { 1572 }
    else if v == 47 { 1684 }
    else if v == 48 { 1805 }
    else if v == 49 { 1934 }
    else if v == 50 { 2072 }
    else if v == 51 { 2220 }
    else if v == 52 { 2379 }
    else if v == 53 { 2550 }
    else if v == 54 { 2732 }
    else if v == 55 { 2927 }
    else if v == 56 { 3137 }
    else if v == 57 { 3361 }
    else if v == 58 { 3602 }
    else if v == 59 { 3859 }
    else if v == 60 { 4135 }
    else if v == 61 { 4431 }
    else if v == 62 { 4748 }
    else if v == 63 { 5088 }
    else if v == 64 { 5452 }
    else if v == 65 { 5841 }
    else if v == 66 { 6260 }
    else if v == 67 { 6707 }
    else if v == 68 { 7187 }
    else if v == 69 { 7701 }
    else if v == 70 { 8252 }
    else if v == 71 { 8842 }
    else if v == 72 { 9475 }
    else if v == 73 { 10152 }
    else if v == 74 { 10878 }
    else if v == 75 { 11657 }
    else if v == 76 { 12490 }
    else if v == 77 { 13383 }
    else if v == 78 { 14341 }
    else if v == 79 { 15366 }
    else if v == 80 { 16464 }
    else if v == 81 { 17643 }
    else if v == 82 { 18904 }
    else if v == 83 { 20258 }
    else if v == 84 { 21706 }
    else if v == 85 { 23258 }
    else if v == 86 { 24923 }
    else if v == 87 { 26704 }
    else if v == 88 { 28613 }
    else if v == 89 { 30662 }
    else if v == 90 { 32854 }
    else if v == 91 { 35202 }
    else if v == 92 { 37723 }
    else if v == 93 { 40419 }
    else if v == 94 { 43308 }
    else if v == 95 { 46409 }
    else if v == 96 { 49727 }
    else if v == 97 { 53281 }
    else if v == 98 { 57096 }
    else if v == 99 { 61177 }
    else { 65535 }
    }
}

/// The ends of the volume curve: full input maps to the maximum mixer
/// gain, and zero input maps to less than one percent of the maximum.
pub proof fn lemma_volume_curve_endpoints()
    ensures
        spec_mixer_gain(100) == 65535,
        100 * spec_mixer_gain(0) < 65535,
{
}

/// The volume curve never decreases as the linear input grows.
pub proof fn lemma_volume_curve_monotonic(a: u16, b: u16)
    requires
        a <= b,
    ensures
        spec_mixer_gain(a) <= spec_mixer_gain(b),
    decreases b - a,
{
    if a < b {
        assert(spec_mixer_gain(a) <= spec_mixer_gain((a + 1) as u16));
        lemma_volume_curve_monotonic((a + 1) as u16, b);
    }
}

} // verus!
