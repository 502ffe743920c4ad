//! The playback queue: the single source of truth for playlist contents,
//! current position, transport status, volume and elapsed time.  Mutators
//! never touch the streaming session directly; they append directives to an
//! outbox which the surrounding process drains and forwards to the player
//! bridge, so the queue's behaviour is a pure function of its state.

use vstd::prelude::*;

use crate::respot::{PlayerCommand, PlayerCommandModel, PlayerEvent};
use crate::track::{Track, TrackModel};

verus! {

/// The mathematical state of the queue.
#[verifier::ext_equal]
pub struct QueueModel {
    /// Insertion order is play order.
    pub tracks: Seq<TrackModel>,
    /// Index of the current track, always within bounds when present.
    pub current: Option<int>,
    /// Transport status as last folded from events (never `FinishedTrack`).
    pub status: PlayerEvent,
    /// Accumulated playing time of the current track, in milliseconds.
    pub elapsed_ms: int,
    /// When playing: the clock value at which playback last resumed.
    pub since_ms: Option<int>,
    /// Volume on the linear 0..=100 scale.
    pub volume: int,
    /// Directives issued but not yet forwarded to the player bridge.
    pub outbox: Seq<PlayerCommandModel>,
}

impl QueueModel {
    /// Everything well-formedness asks of the queue except that the
    /// current index be in bounds: every queued track has a resolved id,
    /// the volume is on its scale, the elapsed state is consistent, and
    /// `since` is only set while playing.
    pub open spec fn wf_core(self) -> bool {
        &&& forall|i: int| 0 <= i < self.tracks.len() ==> (#[trigger] self.tracks[i].id) is Some
        &&& 0 <= self.volume <= 100
        &&& self.elapsed_ms >= 0
        &&& match self.since_ms {
            Some(t) => t >= 0 && self.status == PlayerEvent::Playing,
            None => true,
        }
        &&& self.status != PlayerEvent::FinishedTrack
    }

    /// Well-formedness: [`Self::wf_core`] and the current index, when
    /// present, lies within the queue.
    pub open spec fn wf(self) -> bool {
        &&& self.wf_core()
        &&& match self.current {
            Some(i) => 0 <= i < self.tracks.len(),
            None => true,
        }
    }

    /// The index that `next` would play: one past the current index, when
    /// that still lies within the queue.  No wraparound.
    pub open spec fn spec_next_index(self) -> Option<int> {
        match self.current {
            Some(i) => if i + 1 < self.tracks.len() {
                Some(i + 1)
            } else {
                None
            },
            None => None,
        }
    }

    /// The index that `previous` would play: one before the current index,
    /// when the current index is positive.  No wraparound.
    pub open spec fn spec_previous_index(self) -> Option<int> {
        match self.current {
            Some(i) => if i > 0 {
                Some(i - 1)
            } else {
                None
            },
            None => None,
        }
    }

    /// Live elapsed time at clock value `now`: the accumulator plus the
    /// time since playback last resumed.
    pub open spec fn spec_progress(self, now: int) -> int {
        self.elapsed_ms + match self.since_ms {
            Some(s) => now - s,
            None => 0,
        }
    }

    /// The clock value is not before the resume point and the sum fits in
    /// the machine word used for milliseconds.
    pub open spec fn progress_in_range(self, now: int) -> bool {
        &&& match self.since_ms {
            Some(s) => s <= now,
            None => true,
        }
        &&& self.spec_progress(now) <= u64::MAX
    }
}

/// Effect of `append`: the track goes to the end; nothing else moves.
pub open spec fn append_model(m: QueueModel, t: TrackModel) -> QueueModel {
    QueueModel { tracks: m.tracks.push(t), ..m }
}

/// Effect of `insert_after_current`: the block goes immediately after the
/// current index, or at the end when nothing is current.
pub open spec fn append_next_model(m: QueueModel, ts: Seq<TrackModel>) -> QueueModel {
    let first = append_next_first(m);
    QueueModel {
        tracks: m.tracks.subrange(0, first) + ts + m.tracks.subrange(first, m.tracks.len() as int),
        ..m
    }
}

/// Where `insert_after_current` puts the first inserted track.
pub open spec fn append_next_first(m: QueueModel) -> int {
    match m.current {
        Some(i) => i + 1,
        None => m.tracks.len() as int,
    }
}

/// Effect of `play`: in range, issue `Load` then `Play` and move the
/// current index; out of range, do nothing.
pub open spec fn play_model(m: QueueModel, index: int) -> QueueModel {
    if 0 <= index < m.tracks.len() {
        QueueModel {
            current: Some(index),
            outbox: m.outbox + seq![
                PlayerCommandModel::Load(m.tracks[index].id.unwrap()),
                PlayerCommandModel::Play,
            ],
            ..m
        }
    } else {
        m
    }
}

/// Effect of `stop`: clear the current index and the elapsed state, mark
/// the transport stopped, and issue `Stop`.
pub open spec fn stop_model(m: QueueModel) -> QueueModel {
    QueueModel {
        current: None,
        status: PlayerEvent::Stopped,
        elapsed_ms: 0,
        since_ms: None,
        outbox: m.outbox.push(PlayerCommandModel::Stop),
        ..m
    }
}

/// Effect of `next`: play the following index, or stop at the end of the
/// queue.
pub open spec fn next_model(m: QueueModel) -> QueueModel {
    match m.spec_next_index() {
        Some(i) => play_model(m, i),
        None => stop_model(m),
    }
}

/// Effect of `previous`: play the preceding index, or stop at the start.
pub open spec fn previous_model(m: QueueModel) -> QueueModel {
    match m.spec_previous_index() {
        Some(i) => play_model(m, i),
        None => stop_model(m),
    }
}

/// Effect of `remove`.  Out of range: no change.  Otherwise the track
/// leaves the sequence; an emptied queue stops; removing the current track
/// replays the new occupant of that position (or stops when it was the
/// last); removing below the current index shifts it left by one.
pub open spec fn remove_model(m: QueueModel, index: int) -> QueueModel {
    if !(0 <= index < m.tracks.len()) {
        m
    } else {
        let m1 = QueueModel { tracks: m.tracks.remove(index), ..m };
        if m1.tracks.len() == 0 {
            stop_model(m1)
        } else {
            match m.current {
                Some(c) => if c == index {
                    if c == m1.tracks.len() {
                        stop_model(m1)
                    } else {
                        play_model(m1, index)
                    }
                } else if c > index {
                    QueueModel { current: Some(c - 1), ..m1 }
                } else {
                    m1
                },
                None => m1,
            }
        }
    }
}

/// Effect of `clear`: stop, then empty the sequence.
pub open spec fn clear_model(m: QueueModel) -> QueueModel {
    QueueModel { tracks: Seq::empty(), ..stop_model(m) }
}

/// Effect of `set_volume`: store the level (clamped to 100) and forward it.
pub open spec fn set_volume_model(m: QueueModel, vol: u16) -> QueueModel {
    let v = if vol > 100 { 100 as u16 } else { vol };
    QueueModel {
        volume: v as int,
        outbox: m.outbox.push(PlayerCommandModel::SetVolume(v)),
        ..m
    }
}

/// Effect of `toggle_playback`: `Pause` while playing, else `Play`.
pub open spec fn toggle_playback_model(m: QueueModel) -> QueueModel {
    if m.status == PlayerEvent::Playing {
        QueueModel { outbox: m.outbox.push(PlayerCommandModel::Pause), ..m }
    } else {
        QueueModel { outbox: m.outbox.push(PlayerCommandModel::Play), ..m }
    }
}

/// Effect of folding one transport event, at clock value `now`:
/// `Playing` starts the live timer; `Paused` banks the elapsed time and
/// stops the timer; `Stopped` clears the elapsed state; `FinishedTrack`
/// auto-advances (it is never stored as a status).
pub open spec fn handle_event_model(m: QueueModel, e: PlayerEvent, now: int) -> QueueModel {
    match e {
        PlayerEvent::Playing => QueueModel {
            since_ms: Some(now),
            status: PlayerEvent::Playing,
            ..m
        },
        PlayerEvent::Paused => QueueModel {
            elapsed_ms: m.spec_progress(now),
            since_ms: None,
            status: PlayerEvent::Paused,
            ..m
        },
        PlayerEvent::Stopped => QueueModel {
            elapsed_ms: 0,
            since_ms: None,
            status: PlayerEvent::Stopped,
            ..m
        },
        PlayerEvent::FinishedTrack => next_model(m),
    }
}

/// Where `shift` leaves the current index: it keeps following the same
/// logical track as the moved item passes over it.
pub open spec fn shift_current(c: Option<int>, from: int, to: int) -> Option<int> {
    match c {
        Some(i) => if i == from {
            Some(to)
        } else if from < i && i <= to {
            Some(i - 1)
        } else if to <= i && i < from {
            Some(i + 1)
        } else {
            Some(i)
        },
        None => None,
    }
}

/// Effect of `shift`: move the track at `from` so that it ends up at
/// `to`, adjusting the current index to keep naming the same track.
/// Out-of-range indices: no change.
pub open spec fn shift_model(m: QueueModel, from: int, to: int) -> QueueModel {
    if 0 <= from < m.tracks.len() && 0 <= to < m.tracks.len() {
        QueueModel {
            tracks: m.tracks.remove(from).insert(to, m.tracks[from]),
            current: shift_current(m.current, from, to),
            ..m
        }
    } else {
        m
    }
}

/// The playback queue.  One instance is shared (behind the process's
/// chosen exclusion discipline) by all connections and the event worker.
pub struct Queue {
    /// Ordered track list; insertion order is play order.
    pub queue: Vec<Track>,
    /// Index of the currently playing or paused track.
    pub current_track: Option<usize>,
    /// Transport status as last folded from events.
    pub status: PlayerEvent,
    /// Accumulated playing time of the current track, in milliseconds.
    pub elapsed_ms: u64,
    /// Clock value (milliseconds) when playback last resumed, while playing.
    pub since_ms: Option<u64>,
    /// Volume on the linear 0..=100 scale.
    pub volume: u16,
    /// Directives issued and awaiting dispatch to the player bridge.
    pub outbox: Vec<PlayerCommand>,
}

impl View for Queue {
    type V = QueueModel;

    open spec fn view(&self) -> QueueModel {
        QueueModel {
            tracks: self.queue@.map_values(|t: Track| t@),
            current: match self.current_track {
                Some(i) => Some(i as int),
                None => None,
            },
            status: self.status,
            elapsed_ms: self.elapsed_ms as int,
            since_ms: match self.since_ms {
                Some(t) => Some(t as int),
                None => None,
            },
            volume: self.volume as int,
            outbox: self.outbox@.map_values(|c: PlayerCommand| c@),
        }
    }
}

impl Queue {
    /// An empty, stopped queue at full volume.
    pub fn new() -> (r: Queue)
        ensures
            r@.wf(),
            r@.tracks.len() == 0,
            (r@.current is None),
            r@.status == PlayerEvent::Stopped,
            r@.elapsed_ms == 0,
            (r@.since_ms is None),
            r@.volume == 100,
            r@.outbox.len() == 0,
    {
        let r = Queue {
            queue: Vec::new(),
            current_track: None,
            status: PlayerEvent::Stopped,
            elapsed_ms: 0,
            since_ms: None,
            volume: 100,
            outbox: Vec::new(),
        };
        proof {
            assert(r@.tracks =~= Seq::<TrackModel>::empty());
            assert(r@.outbox =~= Seq::<PlayerCommandModel>::empty());
        }
        r
    }

    /// Take the directives issued so far, leaving the outbox empty.  The
    /// caller forwards them, in order, to the player bridge — after
    /// releasing any exclusive hold on the queue.
    pub fn drain_commands(&mut self) -> (r: Vec<PlayerCommand>)
        ensures
            (r@.map_values(|c: PlayerCommand| c@) == old(self)@.outbox),
            final(self)@ == (QueueModel { outbox: Seq::empty(), ..old(self)@ }),
    {
        let mut out: Vec<PlayerCommand> = Vec::new();
        core::mem::swap(&mut self.outbox, &mut out);
        proof {
            assert(self@.outbox =~= Seq::<PlayerCommandModel>::empty());
            assert(self@ =~= (QueueModel { outbox: Seq::empty(), ..old(self)@ }));
        }
        out
    }

    /// Number of tracks in the queue.
    pub fn len(&self) -> (r: usize)
        ensures
            r == self@.tracks.len(),
    {
        self.queue.len()
    }

    /// The current index, when a track is current.
    pub fn get_current_index(&self) -> (r: Option<usize>)
        ensures
            match r {
                Some(i) => self@.current == Some(i as int),
                None => (self@.current is None),
            },
    {
        match self.current_track {
            Some(index) => Some(index),
            None => None,
        }
    }

    /// The index `next` would play, when there is one.
    pub fn next_index(&self) -> (r: Option<usize>)
        ensures
            match r {
                Some(i) => self@.spec_next_index() == Some(i as int),
                None => (self@.spec_next_index() is None),
            },
    {
        proof {
            assert(self@.tracks.len() == self.queue@.len());
        }
        let len = self.queue.len();
        match self.current_track {
            Some(index) => {
                if len > 0 && index < len - 1 {
                    Some(index + 1)
                } else {
                    None
                }
            }
            None => None,
        }
    }

    /// The index `previous` would play, when there is one.
    pub fn previous_index(&self) -> (r: Option<usize>)
        ensures
            match r {
                Some(i) => self@.spec_previous_index() == Some(i as int),
                None => (self@.spec_previous_index() is None),
            },
    {
        match self.current_track {
            Some(index) => {
                if index > 0 {
                    Some(index - 1)
                } else {
                    None
                }
            }
            None => None,
        }
    }

    /// A copy of the current track, when a track is current.
    pub fn get_current(&self) -> (r: Option<Track>)
        requires
            self@.wf(),
        ensures
            match r {
                Some(t) => (self@.current matches Some(i) && t@ == self@.tracks[i]),
                None => (self@.current is None),
            },
    {
        match self.current_track {
            Some(index) => Some(self.queue[index].clone()),
            None => None,
        }
    }

    /// The transport status.
    pub fn get_status(&self) -> (r: PlayerEvent)
        ensures
            r == self@.status,
    {
        self.status
    }

    /// Duration of the current track in whole seconds (zero when nothing
    /// is current).
    pub fn get_duration(&self) -> (r: u32)
        requires
            self@.wf(),
        ensures
            r == match self@.current {
                Some(i) => self@.tracks[i].duration / 1000,
                None => 0u32,
            },
    {
        match self.current_track {
            Some(index) => self.queue[index].duration / 1000,
            None => 0,
        }
    }

    /// The volume on the linear scale.
    pub fn get_volume(&self) -> (r: u16)
        ensures
            r == self@.volume,
    {
        self.volume
    }

    /// Live elapsed time of the current track at clock value `now_ms`:
    /// the banked accumulator plus the time since playback last resumed.
    pub fn get_current_progress(&self, now_ms: u64) -> (r: u64)
        requires
            self@.progress_in_range(now_ms as int),
        ensures
            r == self@.spec_progress(now_ms as int),
    {
        match self.since_ms {
            Some(s) => self.elapsed_ms + (now_ms - s),
            None => self.elapsed_ms,
        }
    }

    /// Insert at the end; the returned position is the new index.
    pub fn append(&mut self, track: &Track) -> (pos: usize)
        requires
            old(self)@.wf(),
            (track@.id is Some),
            old(self)@.tracks.len() < usize::MAX,
        ensures
            final(self)@ == append_model(old(self)@, track@),
            final(self)@.wf(),
            pos == old(self)@.tracks.len(),
    {
        self.queue.push(track.clone());
        proof {
            assert(self@.tracks =~= old(self)@.tracks.push(track@));
            assert(self@ =~= append_model(old(self)@, track@));
        }
        self.queue.len() - 1
    }

    /// Insert a contiguous block immediately after the current index (or
    /// at the end when nothing is current); returns the first inserted
    /// position.
    pub fn append_next(&mut self, tracks: &Vec<Track>) -> (first: usize)
        requires
            old(self)@.wf(),
            forall|i: int| 0 <= i < tracks@.len() ==> (#[trigger] tracks@[i]@.id) is Some,
            old(self)@.tracks.len() + tracks@.len() < usize::MAX,
        ensures
            final(self)@ == append_next_model(
                old(self)@,
                tracks@.map_values(|t: Track| t@),
            ),
            final(self)@.wf(),
            first == append_next_first(old(self)@),
    {
        proof {
            assert(self@.tracks.len() == self.queue@.len());
        }
        let first = match self.current_track {
            Some(index) => index + 1,
            None => self.queue.len(),
        };
        let ghost tm = tracks@.map_values(|t: Track| t@);
        let mut rebuilt: Vec<Track> = Vec::new();
        let mut j: usize = 0;
        while j < first
            invariant
                *self == *old(self),
                old(self)@.wf(),
                first <= self.queue@.len(),
                j <= first,
                rebuilt@.len() == j,
                forall|l: int| 0 <= l < j ==> (#[trigger] rebuilt@[l])@ == self.queue@[l]@,
            decreases first - j,
        {
            rebuilt.push(self.queue[j].clone());
            j = j + 1;
        }
        let mut k: usize = 0;
        while k < tracks.len()
            invariant
                *self == *old(self),
                old(self)@.wf(),
                first <= self.queue@.len(),
                old(self)@.tracks.len() + tracks@.len() < usize::MAX,
                k <= tracks@.len(),
                rebuilt@.len() == first + k,
                forall|l: int| 0 <= l < first ==> (#[trigger] rebuilt@[l])@ == self.queue@[l]@,
                forall|l: int| first <= l < first + k
                    ==> (#[trigger] rebuilt@[l])@ == tracks@[l - first]@,
            decreases tracks@.len() - k,
        {
            rebuilt.push(tracks[k].clone());
            k = k + 1;
        }
        let n = tracks.len();
        let mut j2: usize = first;
        while j2 < self.queue.len()
            invariant
                *self == *old(self),
                old(self)@.wf(),
                first <= self.queue@.len(),
                old(self)@.tracks.len() + tracks@.len() < usize::MAX,
                n == tracks@.len(),
                first <= j2 <= self.queue@.len(),
                rebuilt@.len() == j2 + n,
                forall|l: int| 0 <= l < first ==> (#[trigger] rebuilt@[l])@ == self.queue@[l]@,
                forall|l: int| first <= l < first + n
                    ==> (#[trigger] rebuilt@[l])@ == tracks@[l - first]@,
                forall|l: int| first + n <= l < j2 + n
                    ==> (#[trigger] rebuilt@[l])@ == self.queue@[l - n]@,
            decreases self.queue@.len() - j2,
        {
            rebuilt.push(self.queue[j2].clone());
            j2 = j2 + 1;
        }
        core::mem::swap(&mut self.queue, &mut rebuilt);
        proof {
            assert(self@.tracks =~= old(self)@.tracks.subrange(0, first as int)
                + tm
                + old(self)@.tracks.subrange(first as int, old(self)@.tracks.len() as int));
            assert(self@ =~= append_next_model(old(self)@, tm));
        }
        first
    }

    /// Play the track at `index`: issue `Load` for its id, move the
    /// current index, then issue `Play`.  Out of range: no effect.
    pub fn play(&mut self, index: usize)
        requires
            old(self)@.wf_core(),
        ensures
            final(self)@ == play_model(old(self)@, index as int),
            final(self)@.wf_core(),
            (old(self)@.wf() || index < old(self)@.tracks.len()) ==> final(self)@.wf(),
    {
        proof {
            assert(self@.tracks.len() == self.queue@.len());
        }
        if index < self.queue.len() {
            let id: String = self.queue[index].id.as_ref().unwrap().clone();
            self.outbox.push(PlayerCommand::Load(id));
            self.current_track = Some(index);
            self.outbox.push(PlayerCommand::Play);
            proof {
                assert(self@.outbox =~= old(self)@.outbox + seq![
                    PlayerCommandModel::Load(old(self)@.tracks[index as int].id.unwrap()),
                    PlayerCommandModel::Play,
                ]);
                assert(self@ =~= play_model(old(self)@, index as int));
            }
        } else {
            proof {
                assert(self@ =~= play_model(old(self)@, index as int));
            }
        }
    }

    /// Clear the current index, mark the transport stopped, clear the
    /// elapsed state and issue `Stop`.
    pub fn stop(&mut self)
        requires
            old(self)@.wf_core(),
        ensures
            final(self)@ == stop_model(old(self)@),
            final(self)@.wf(),
    {
        self.current_track = None;
        self.status = PlayerEvent::Stopped;
        self.elapsed_ms = 0;
        self.since_ms = None;
        self.outbox.push(PlayerCommand::Stop);
        proof {
            assert(self@.outbox =~= old(self)@.outbox.push(PlayerCommandModel::Stop));
            assert(self@ =~= stop_model(old(self)@));
        }
    }

    /// Play the following index, or stop at the end of the queue — no
    /// wraparound.
    pub fn next(&mut self)
        requires
            old(self)@.wf(),
        ensures
            final(self)@ == next_model(old(self)@),
            final(self)@.wf(),
    {
        match self.next_index() {
            Some(index) => self.play(index),
            None => self.stop(),
        }
    }

    /// Play the preceding index, or stop at the start of the queue — no
    /// wraparound.
    pub fn previous(&mut self)
        requires
            old(self)@.wf(),
        ensures
            final(self)@ == previous_model(old(self)@),
            final(self)@.wf(),
    {
        match self.previous_index() {
            Some(index) => self.play(index),
            None => self.stop(),
        }
    }

    /// Remove the track at `index`.  Out of range is a no-op; an emptied
    /// queue stops; removing the current track replays the new occupant of
    /// that position (or stops when it was the last); removing below the
    /// current index shifts it left by one, so it keeps naming the same
    /// track.
    pub fn remove(&mut self, index: usize)
        requires
            old(self)@.wf(),
        ensures
            final(self)@ == remove_model(old(self)@, index as int),
            final(self)@.wf(),
    {
        if index >= self.queue.len() {
            proof {
                assert(self@ =~= remove_model(old(self)@, index as int));
            }
            return;
        }
        self.queue.remove(index);
        proof {
            assert(self@.tracks =~= old(self)@.tracks.remove(index as int));
        }
        let ghost m1 = QueueModel { tracks: old(self)@.tracks.remove(index as int), ..old(self)@ };
        proof {
            assert(self@ =~= m1);
        }
        let len = self.queue.len();
        if len == 0 {
            self.stop();
            return;
        }
        match self.current_track {
            Some(current) => {
                if current == index {
                    if current == len {
                        self.stop();
                    } else {
                        self.play(index);
                    }
                } else if current > index {
                    self.current_track = Some(current - 1);
                    proof {
                        assert(self@ =~= (QueueModel { current: Some(current - 1 as int), ..m1 }));
                    }
                }
            }
            None => {}
        }
    }

    /// Move the track at `from` so that it ends up at position `to`,
    /// keeping the current index pointed at the same logical track.
    /// Out-of-range indices are a no-op.
    pub fn shift(&mut self, from: usize, to: usize)
        requires
            old(self)@.wf(),
        ensures
            final(self)@ == shift_model(old(self)@, from as int, to as int),
            final(self)@.wf(),
            (final(self)@.current matches Some(c2) ==> old(self)@.current matches Some(c1)
                ==> final(self)@.tracks[c2] == old(self)@.tracks[c1]),
    {
        proof {
            assert(self@.tracks.len() == self.queue@.len());
        }
        let len = self.queue.len();
        if from >= len || to >= len {
            proof {
                assert(self@ =~= shift_model(old(self)@, from as int, to as int));
            }
            return;
        }
        let moved = self.queue.remove(from);
        self.queue.insert(to, moved);
        match self.current_track {
            Some(i) => {
                if i == from {
                    self.current_track = Some(to);
                } else if from < i && i <= to {
                    self.current_track = Some(i - 1);
                } else if to <= i && i < from {
                    self.current_track = Some(i + 1);
                }
            }
            None => {}
        }
        proof {
            let m = old(self)@;
            assert(self@.tracks =~= m.tracks.remove(from as int).insert(to as int, m.tracks[from as int]));
            assert(self@ =~= shift_model(m, from as int, to as int));
            let r = shift_model(m, from as int, to as int);
            if m.current is Some {
                let c1 = m.current.unwrap();
                let c2 = r.current.unwrap();
                assert(r.tracks[c2] == m.tracks[c1]);
            }
        }
    }

    /// Stop playback and empty the queue.
    pub fn clear(&mut self)
        requires
            old(self)@.wf(),
        ensures
            final(self)@ == clear_model(old(self)@),
            final(self)@.wf(),
    {
        self.stop();
        self.queue.clear();
        proof {
            assert(self@.tracks =~= Seq::<TrackModel>::empty());
            assert(self@ =~= clear_model(old(self)@));
        }
    }

    /// Store the volume (inputs above 100 clamp to 100) and forward a
    /// `SetVolume` directive, so the stored value and the mixer never
    /// diverge for longer than one dispatch.
    pub fn set_volume(&mut self, vol: u16)
        requires
            old(self)@.wf(),
        ensures
            final(self)@ == set_volume_model(old(self)@, vol),
            final(self)@.wf(),
    {
        let v = if vol > 100 { 100 } else { vol };
        self.volume = v;
        self.outbox.push(PlayerCommand::SetVolume(v));
        proof {
            assert(self@.outbox =~= old(self)@.outbox.push(PlayerCommandModel::SetVolume(
                if vol > 100 { 100 as u16 } else { vol },
            )));
            assert(self@ =~= set_volume_model(old(self)@, vol));
        }
    }

    /// Issue `Pause` while playing, else `Play`.
    pub fn toggle_playback(&mut self)
        requires
            old(self)@.wf(),
        ensures
            final(self)@ == toggle_playback_model(old(self)@),
            final(self)@.wf(),
    {
        if self.get_status() == PlayerEvent::Playing {
            self.outbox.push(PlayerCommand::Pause);
            proof {
                assert(self@.outbox =~= old(self)@.outbox.push(PlayerCommandModel::Pause));
                assert(self@ =~= toggle_playback_model(old(self)@));
            }
        } else {
            self.outbox.push(PlayerCommand::Play);
            proof {
                assert(self@.outbox =~= old(self)@.outbox.push(PlayerCommandModel::Play));
                assert(self@ =~= toggle_playback_model(old(self)@));
            }
        }
    }

    /// Fold one transport event into the status, at clock value `now_ms`.
    /// `FinishedTrack` is intercepted and turned into an internal `next`
    /// rather than surfaced as a status.
    pub fn handle_event(&mut self, event: PlayerEvent, now_ms: u64)
        requires
            old(self)@.wf(),
            event == PlayerEvent::Paused ==> old(self)@.progress_in_range(now_ms as int),
        ensures
            final(self)@ == handle_event_model(old(self)@, event, now_ms as int),
            final(self)@.wf(),
    {
        match event {
            PlayerEvent::Paused => {
                let progress = self.get_current_progress(now_ms);
                self.elapsed_ms = progress;
                self.since_ms = None;
                self.status = PlayerEvent::Paused;
                proof {
                    assert(self@ =~= handle_event_model(old(self)@, event, now_ms as int));
                }
            }
            PlayerEvent::Playing => {
                self.since_ms = Some(now_ms);
                self.status = PlayerEvent::Playing;
                proof {
                    assert(self@ =~= handle_event_model(old(self)@, event, now_ms as int));
                }
            }
            PlayerEvent::Stopped => {
                self.elapsed_ms = 0;
                self.since_ms = None;
                self.status = PlayerEvent::Stopped;
                proof {
                    assert(self@ =~= handle_event_model(old(self)@, event, now_ms as int));
                }
            }
            PlayerEvent::FinishedTrack => {
                self.next();
            }
        }
    }
}


/// One queue-contents operation, for stating laws over whole histories.
pub enum QueueOp {
    Append(TrackModel),
    Remove(int),
}

/// Fold a history of operations over a starting state.
pub open spec fn apply_ops(m: QueueModel, ops: Seq<QueueOp>) -> QueueModel
    decreases ops.len(),
{
    if ops.len() == 0 {
        m
    } else {
        let prev = apply_ops(m, ops.drop_last());
        match ops.last() {
            QueueOp::Append(t) => append_model(prev, t),
            QueueOp::Remove(i) => remove_model(prev, i),
        }
    }
}

/// How many appends a history holds.
pub open spec fn count_appends(ops: Seq<QueueOp>) -> int
    decreases ops.len(),
{
    if ops.len() == 0 {
        0
    } else {
        count_appends(ops.drop_last()) + match ops.last() {
            QueueOp::Append(_) => 1int,
            QueueOp::Remove(_) => 0int,
        }
    }
}

/// How many removes of a history actually hit a track: those whose index
/// was in range when they were applied.
pub open spec fn count_effective_removes(m: QueueModel, ops: Seq<QueueOp>) -> int
    decreases ops.len(),
{
    if ops.len() == 0 {
        0
    } else {
        let prev = apply_ops(m, ops.drop_last());
        count_effective_removes(m, ops.drop_last()) + match ops.last() {
            QueueOp::Append(_) => 0int,
            QueueOp::Remove(i) => if 0 <= i < prev.tracks.len() {
                1int
            } else {
                0int
            },
        }
    }
}

/// Removing never grows the queue and touches only the track sequence's
/// length by at most one; in particular an out-of-range index changes
/// nothing at all.
pub proof fn lemma_remove_out_of_range_is_noop(m: QueueModel, i: int)
    requires
        !(0 <= i < m.tracks.len()),
    ensures
        remove_model(m, i) == m,
{
}

/// Over any history of appends and removes, the queue's length is the
/// starting length plus the number of appends minus the number of removes
/// whose index was in range when applied.
pub proof fn lemma_queue_length_law(m: QueueModel, ops: Seq<QueueOp>)
    ensures
        apply_ops(m, ops).tracks.len()
            == m.tracks.len() + count_appends(ops) - count_effective_removes(m, ops),
    decreases ops.len(),
{
    if ops.len() > 0 {
        lemma_queue_length_law(m, ops.drop_last());
        let prev = apply_ops(m, ops.drop_last());
        match ops.last() {
            QueueOp::Append(t) => {}
            QueueOp::Remove(i) => {
                if 0 <= i < prev.tracks.len() {
                    assert(remove_model(prev, i).tracks.len() == prev.tracks.len() - 1);
                }
            }
        }
    }
}

/// Removing the track at the current index replays the new occupant of
/// that position — `Load` of the id now living there, then `Play` — unless
/// the removed track was the last one, in which case playback stops and
/// the current index clears.
pub proof fn lemma_remove_current(m: QueueModel, i: int)
    requires
        m.wf(),
        m.current == Some(i),
    ensures
        i < m.tracks.len() - 1 ==> {
            let r = remove_model(m, i);
            &&& r.current == Some(i)
            &&& r.tracks[i] == m.tracks[i + 1]
            &&& r.outbox == m.outbox + seq![
                PlayerCommandModel::Load(m.tracks[i + 1].id.unwrap()),
                PlayerCommandModel::Play,
            ]
        },
        i == m.tracks.len() - 1 ==> {
            let r = remove_model(m, i);
            &&& r.current is None
            &&& r.status == PlayerEvent::Stopped
        },
{
    if i < m.tracks.len() - 1 {
        let m1 = QueueModel { tracks: m.tracks.remove(i), ..m };
        m.tracks.remove_ensures(i);
        assert(m1.tracks[i] == m.tracks[i + 1]);
    }
}

/// Removing an index strictly below the current one shifts the current
/// index left by exactly one, and the track it names — its identity, not
/// just its number — is unchanged.
pub proof fn lemma_remove_below_current(m: QueueModel, c: int, i: int)
    requires
        m.wf(),
        m.current == Some(c),
        0 <= i < c,
    ensures
        remove_model(m, i).current == Some(c - 1),
        remove_model(m, i).tracks[c - 1] == m.tracks[c],
{
    m.tracks.remove_ensures(i);
}

/// `next` at the last index stops playback — the current index becomes
/// none — rather than wrapping to the front.
pub proof fn lemma_next_at_end_stops(m: QueueModel)
    requires
        m.wf(),
        m.current == Some(m.tracks.len() - 1),
    ensures
        next_model(m).current is None,
        next_model(m).status == PlayerEvent::Stopped,
{
}

/// `previous` at index zero stops playback rather than wrapping to the
/// back.
pub proof fn lemma_previous_at_start_stops(m: QueueModel)
    requires
        m.wf(),
        m.current == Some(0int),
    ensures
        previous_model(m).current is None,
        previous_model(m).status == PlayerEvent::Stopped,
{
}

/// Pausing and later resuming preserves elapsed time across the pause:
/// after a `Paused` event at `t_pause` and a `Playing` event at
/// `t_resume`, the live elapsed time at any later `t_query` is what it was
/// at the pause plus only the time spent playing since the resume.
pub proof fn lemma_pause_resume_preserves_elapsed(
    m: QueueModel,
    t_pause: int,
    t_resume: int,
    t_query: int,
)
    ensures
        ({
            let paused = handle_event_model(m, PlayerEvent::Paused, t_pause);
            let resumed = handle_event_model(paused, PlayerEvent::Playing, t_resume);
            resumed.spec_progress(t_query) == m.spec_progress(t_pause) + (t_query - t_resume)
        }),
{
}

} // verus!
