//! The per-connection protocol state machine: command framing, the idle
//! long-poll mode, dispatch to the command implementations, and atomic
//! command-list batches.  The surrounding process does the socket reads and
//! writes; every decision in between is made here.

pub mod mpd_commands;

use vstd::prelude::*;

use crate::mpd::mpd_commands::{
    ack_line, commands_lines, decoders_lines, outputs_lines, spec_ack_line, spec_commands_lines,
    spec_find_playlist, spec_playlist_tracks_lines, spec_playlists_lines, AddCommand,
    ListPlaylistInfoCommand, ListPlaylistsCommand, Playlist, PlaylistEntry, PlaylistEntryModel,
    PlaylistModel, ACK_ERROR_NO_EXIST,
    spec_decoders_lines, spec_outputs_lines, spec_parse_index, spec_parse_volume,
    spec_playlistinfo_lines, spec_status_lines, spec_stats_lines, spec_tagtypes_lines,
    spec_urlhandlers_lines, spec_apply_volume_delta, tagtypes_lines, urlhandlers_lines,
    ClearCommand, CurrentSongCommand, DeleteIdCommand, NextCommand, PauseCommand, PlayCommand,
    PlaylistInfoCommand, PrevCommand, SetVolCommand, StatsCommand, StatusCommand, VolumeCommand,
    ACK_ERROR_ARG,
};
use crate::queue::{
    append_model, clear_model, next_model, play_model, previous_model, remove_model,
    set_volume_model, toggle_playback_model, Queue, QueueModel,
};
use crate::respot::PlayerEvent;
use crate::strutil::{
    extract_arg, first_token, is_error_line, join_lines, join_sep, spec_extract_arg,
    spec_first_token, spec_join_lines, spec_join_sep, str_eq,
};
use crate::track::{spec_mpd_format, Track, TrackModel};

verus! {

/// A named category of server state used to scope idle notifications.
#[derive(Clone, Copy, Debug, PartialEq, Eq, Structural)]
pub enum SubsystemEvent {
    Database,
    Update,
    StoragePlaylist,
    Playlist,
    Player,
    Mixer,
    Output,
    Options,
    Partition,
    Sticker,
    Subscription,
    Message,
}

/// The subsystem at a given rank: the delivery order of names in a
/// `changed:` line.
pub open spec fn spec_subsystem_of_rank(k: int) -> SubsystemEvent {
    if k == 0 { SubsystemEvent::Database }
    else if k == 1 { SubsystemEvent::Update }
    else if k == 2 { SubsystemEvent::StoragePlaylist }
    else if k == 3 { SubsystemEvent::Playlist }
    else if k == 4 { SubsystemEvent::Player }
    else if k == 5 { SubsystemEvent::Mixer }
    else if k == 6 { SubsystemEvent::Output }
    else if k == 7 { SubsystemEvent::Options }
    else if k == 8 { SubsystemEvent::Partition }
    else if k == 9 { SubsystemEvent::Sticker }
    else if k == 10 { SubsystemEvent::Subscription }
    else { SubsystemEvent::Message }
}

/// The lowercase protocol name of a subsystem.
pub open spec fn spec_subsystem_name(e: SubsystemEvent) -> Seq<char> {
    match e {
        SubsystemEvent::Database => "database"@,
        SubsystemEvent::Update => "update"@,
        SubsystemEvent::StoragePlaylist => "storageplaylist"@,
        SubsystemEvent::Playlist => "playlist"@,
        SubsystemEvent::Player => "player"@,
        SubsystemEvent::Mixer => "mixer"@,
        SubsystemEvent::Output => "output"@,
        SubsystemEvent::Options => "options"@,
        SubsystemEvent::Partition => "partition"@,
        SubsystemEvent::Sticker => "sticker"@,
        SubsystemEvent::Subscription => "subscription"@,
        SubsystemEvent::Message => "message"@,
    }
}

impl SubsystemEvent {
    /// The name used in `changed:` lines.
    pub fn as_str(&self) -> (r: &'static str)
        ensures
            r@ == spec_subsystem_name(*self),
    {
        match self {
            SubsystemEvent::Database => "database",
            SubsystemEvent::Update => "update",
            SubsystemEvent::StoragePlaylist => "storageplaylist",
            SubsystemEvent::Playlist => "playlist",
            SubsystemEvent::Player => "player",
            SubsystemEvent::Mixer => "mixer",
            SubsystemEvent::Output => "output",
            SubsystemEvent::Options => "options",
            SubsystemEvent::Partition => "partition",
            SubsystemEvent::Sticker => "sticker",
            SubsystemEvent::Subscription => "subscription",
            SubsystemEvent::Message => "message",
        }
    }
}

fn subsystem_of_rank(k: u8) -> (r: SubsystemEvent)
    ensures
        r == spec_subsystem_of_rank(k as int),
{
    if k == 0 { SubsystemEvent::Database }
    else if k == 1 { SubsystemEvent::Update }
    else if k == 2 { SubsystemEvent::StoragePlaylist }
    else if k == 3 { SubsystemEvent::Playlist }
    else if k == 4 { SubsystemEvent::Player }
    else if k == 5 { SubsystemEvent::Mixer }
    else if k == 6 { SubsystemEvent::Output }
    else if k == 7 { SubsystemEvent::Options }
    else if k == 8 { SubsystemEvent::Partition }
    else if k == 9 { SubsystemEvent::Sticker }
    else if k == 10 { SubsystemEvent::Subscription }
    else { SubsystemEvent::Message }
}

fn contains_event(v: &Vec<SubsystemEvent>, e: SubsystemEvent) -> (r: bool)
    ensures
        r == v@.contains(e),
{
    let mut i: usize = 0;
    while i < v.len()
        invariant
            i <= v.len(),
            forall|j: int| 0 <= j < i ==> v@[j] != e,
        decreases v.len() - i,
    {
        if v[i] == e {
            assert(v@[i as int] == e);
            return true;
        }
        i = i + 1;
    }
    assert(!v@.contains(e));
    false
}

/// The subsystem names present in `pending`, from rank `k` up, in rank
/// order and without repetition.
pub open spec fn spec_changed_names_from(pending: Seq<SubsystemEvent>, k: int) -> Seq<Seq<char>>
    decreases 12 - k when 0 <= k <= 12
{
    if k >= 12 {
        Seq::empty()
    } else {
        (if pending.contains(spec_subsystem_of_rank(k)) {
            seq![spec_subsystem_name(spec_subsystem_of_rank(k))]
        } else {
            Seq::<Seq<char>>::empty()
        }) + spec_changed_names_from(pending, k + 1)
    }
}

/// The notification sent to an idle client: the affected subsystem names,
/// deduplicated and in delivery order, then the success terminator.
pub open spec fn spec_changed_message(pending: Seq<SubsystemEvent>) -> Seq<char> {
    "changed: "@ + spec_join_sep(spec_changed_names_from(pending, 0), ", "@) + "\nOK\n"@
}

/// Whether any of the accumulated response lines carries the error marker.
pub open spec fn spec_has_error(lines: Seq<Seq<char>>) -> bool {
    exists|i: int| 0 <= i < lines.len() && crate::spec_is_error_line(lines[i])
}

/// Whether any accumulated response line carries the error marker.
pub fn has_error(output: &Vec<String>) -> (r: bool)
    ensures
        r == spec_has_error(output@.map_values(|l: String| l@)),
{
    let ghost views = output@.map_values(|l: String| l@);
    let mut i: usize = 0;
    while i < output.len()
        invariant
            views == output@.map_values(|l: String| l@),
            i <= output.len(),
            forall|j: int| 0 <= j < i ==> !crate::spec_is_error_line(views[j]),
        decreases output.len() - i,
    {
        if is_error_line(output[i].as_str()) {
            assert(crate::spec_is_error_line(views[i as int]));
            return true;
        }
        i = i + 1;
    }
    false
}

/// The mathematical state of a connection handler.
#[verifier::ext_equal]
pub struct HandlerModel {
    /// Whether the connection is waiting in idle mode.
    pub idle: bool,
    /// Subsystem changes accumulated since this client last observed them.
    pub pending: Seq<SubsystemEvent>,
    /// Whether a command list is being buffered.
    pub buffering: bool,
    /// The lines buffered so far for the open command list.
    pub buffered: Seq<Seq<char>>,
}

/// Effect of observing one trimmed input line on the framing state: a
/// list-begin marker opens a buffer, a list-end marker closes it and
/// yields the whole batch, any other line while buffering is collected,
/// and any other line otherwise is a one-command batch of its own.
pub open spec fn feed_line_model(h: HandlerModel, line: Seq<char>) -> (
    HandlerModel,
    Option<Seq<Seq<char>>>,
) {
    if h.buffering {
        if line == "command_list_end"@ {
            (HandlerModel { buffering: false, buffered: Seq::empty(), ..h }, Some(h.buffered))
        } else {
            (HandlerModel { buffered: h.buffered.push(line), ..h }, None)
        }
    } else {
        if line == "command_list_begin"@ || line == "command_list_ok_begin"@ {
            (HandlerModel { buffering: true, buffered: Seq::empty(), ..h }, None)
        } else {
            (h, Some(seq![line]))
        }
    }
}

/// Effect of the `idle` command: with changes already pending the reply is
/// immediate and the handler stays active; with none the connection goes
/// idle and nothing is written.
pub open spec fn handle_idle_model(h: HandlerModel) -> (HandlerModel, Option<Seq<char>>) {
    if h.pending.len() > 0 {
        (
            HandlerModel { idle: false, pending: Seq::empty(), ..h },
            Some(spec_changed_message(h.pending)),
        )
    } else {
        (HandlerModel { idle: true, ..h }, None)
    }
}

/// Effect of a subsystem-change notification reaching this connection.
pub open spec fn notify_model(h: HandlerModel, e: SubsystemEvent) -> HandlerModel {
    HandlerModel { pending: h.pending.push(e), ..h }
}

/// Effect of flushing the pending changes: the message is delivered, the
/// set is cleared, and the connection returns to active.
pub open spec fn take_changed_model(h: HandlerModel) -> (HandlerModel, Seq<char>) {
    (
        HandlerModel { idle: false, pending: Seq::empty(), ..h },
        spec_changed_message(h.pending),
    )
}

/// The per-connection protocol handler: framing state, idle state and the
/// pending subsystem notifications.
pub struct MpdRequestHandler {
    /// Whether the connection is waiting in idle mode.
    pub idle: bool,
    /// Subsystem changes accumulated since this client last observed them.
    pub subsystems_changed: Vec<SubsystemEvent>,
    /// Whether a command list is being buffered.
    pub buffering: bool,
    /// The lines buffered so far for the open command list.
    pub buffered: Vec<String>,
}

impl View for MpdRequestHandler {
    type V = HandlerModel;

    open spec fn view(&self) -> HandlerModel {
        HandlerModel {
            idle: self.idle,
            pending: self.subsystems_changed@,
            buffering: self.buffering,
            buffered: self.buffered@.map_values(|l: String| l@),
        }
    }
}

impl MpdRequestHandler {
    /// A fresh handler: active, nothing pending, no open command list.
    pub fn new() -> (r: MpdRequestHandler)
        ensures
            !r@.idle,
            r@.pending.len() == 0,
            !r@.buffering,
            r@.buffered.len() == 0,
    {
        let r = MpdRequestHandler {
            idle: false,
            subsystems_changed: Vec::new(),
            buffering: false,
            buffered: Vec::new(),
        };
        proof {
            assert(r@.buffered =~= Seq::<Seq<char>>::empty());
        }
        r
    }

    /// Whether the connection is waiting in idle mode.
    pub fn is_idle(&self) -> (r: bool)
        ensures
            r == self@.idle,
    {
        self.idle
    }

    /// Whether subsystem changes await delivery to this connection.
    pub fn has_pending(&self) -> (r: bool)
        ensures
            r == (self@.pending.len() > 0),
    {
        self.subsystems_changed.len() > 0
    }

    /// Record a subsystem change for later delivery.
    pub fn notify(&mut self, e: SubsystemEvent)
        ensures
            final(self)@ == notify_model(old(self)@, e),
    {
        self.subsystems_changed.push(e);
        proof {
            assert(self@ =~= notify_model(old(self)@, e));
        }
    }

    /// Leave idle mode on arriving input (the `noidle` line itself then
    /// runs as an ordinary command, which answers with the terminator).
    pub fn handle_noidle(&mut self)
        ensures
            final(self)@ == (HandlerModel { idle: false, ..old(self)@ }),
    {
        self.idle = false;
        proof {
            assert(self@ =~= (HandlerModel { idle: false, ..old(self)@ }));
        }
    }

    /// Observe one trimmed input line; yields a complete batch when one
    /// closes.
    pub fn feed_line(&mut self, line: String) -> (r: Option<Vec<String>>)
        ensures
            ({
                let (h, batch) = feed_line_model(old(self)@, line@);
                &&& final(self)@ == h
                &&& match r {
                    Some(b) => batch == Some(b@.map_values(|l: String| l@)),
                    None => (batch is None),
                }
            }),
    {
        if self.buffering {
            if str_eq(line.as_str(), "command_list_end") {
                self.buffering = false;
                let mut batch: Vec<String> = Vec::new();
                core::mem::swap(&mut self.buffered, &mut batch);
                proof {
                    assert(self@.buffered =~= Seq::<Seq<char>>::empty());
                    assert(self@ =~= feed_line_model(old(self)@, line@).0);
                }
                Some(batch)
            } else {
                self.buffered.push(line);
                proof {
                    assert(self@.buffered =~= old(self)@.buffered.push(line@));
                    assert(self@ =~= feed_line_model(old(self)@, line@).0);
                }
                None
            }
        } else {
            if str_eq(line.as_str(), "command_list_begin") || str_eq(
                line.as_str(),
                "command_list_ok_begin",
            ) {
                self.buffering = true;
                self.buffered = Vec::new();
                proof {
                    assert(self@.buffered =~= Seq::<Seq<char>>::empty());
                    assert(self@ =~= feed_line_model(old(self)@, line@).0);
                }
                None
            } else {
                let mut batch: Vec<String> = Vec::new();
                batch.push(line);
                proof {
                    assert(batch@.map_values(|l: String| l@) =~= seq![line@]);
                }
                Some(batch)
            }
        }
    }

    /// Deliver and clear the pending changes: one `changed:` line with the
    /// affected subsystems, deduplicated and in delivery order, then the
    /// terminator; the connection returns to active.
    pub fn take_changed(&mut self) -> (r: String)
        ensures
            ({
                let (h, msg) = take_changed_model(old(self)@);
                &&& final(self)@ == h
                &&& r@ == msg
            }),
    {
        let mut names: Vec<String> = Vec::new();
        let mut k: u8 = 0;
        while k < 12
            invariant
                k <= 12,
                *self == *old(self),
                names@.map_values(|l: String| l@) + spec_changed_names_from(
                    self@.pending,
                    k as int,
                ) == spec_changed_names_from(self@.pending, 0),
            decreases 12 - k,
        {
            let e = subsystem_of_rank(k);
            if contains_event(&self.subsystems_changed, e) {
                names.push(String::from_str(e.as_str()));
            }
            proof {
                assert(names@.map_values(|l: String| l@) + spec_changed_names_from(
                    self@.pending,
                    k + 1,
                ) =~= spec_changed_names_from(self@.pending, 0));
            }
            k = k + 1;
        }
        proof {
            assert(names@.map_values(|l: String| l@) =~= spec_changed_names_from(
                self@.pending,
                0,
            ));
        }
        let mut msg = String::from_str("changed: ");
        let joined = join_sep(&names, ", ");
        msg.append(joined.as_str());
        msg.append("\nOK\n");
        self.subsystems_changed = Vec::new();
        self.idle = false;
        proof {
            assert(self@.pending =~= Seq::<SubsystemEvent>::empty());
            assert(self@ =~= take_changed_model(old(self)@).0);
            assert(msg@ =~= spec_changed_message(old(self)@.pending));
        }
        msg
    }

    /// Handle the `idle` line: answer at once when changes are pending,
    /// else go idle and stay silent until a change arrives.
    pub fn handle_idle(&mut self) -> (r: Option<String>)
        ensures
            ({
                let (h, msg) = handle_idle_model(old(self)@);
                &&& final(self)@ == h
                &&& match r {
                    Some(s) => msg == Some(s@),
                    None => (msg is None),
                }
            }),
    {
        if self.subsystems_changed.len() > 0 {
            Some(self.take_changed())
        } else {
            self.idle = true;
            proof {
                assert(self@ =~= handle_idle_model(old(self)@).0);
            }
            None
        }
    }
}

/// Issuing `idle` with nothing pending produces no output and leaves the
/// connection waiting; once a mutating command elsewhere notifies a
/// subsystem change — even the same subsystem more than once — leaving
/// idle delivers exactly one `changed:` message naming it once, and the
/// connection returns to active with the pending set cleared.
pub proof fn lemma_idle_protocol(h: HandlerModel, e: SubsystemEvent)
    requires
        h.pending.len() == 0,
    ensures
        ({
            let (h1, out1) = handle_idle_model(h);
            &&& out1 is None
            &&& h1.idle
            &&& {
                let h2 = notify_model(h1, e);
                let (h3, msg) = take_changed_model(h2);
                &&& msg == spec_changed_message(seq![e])
                &&& !h3.idle
                &&& h3.pending.len() == 0
            }
            &&& {
                let h2twice = notify_model(notify_model(h1, e), e);
                let (h3t, msg_t) = take_changed_model(h2twice);
                &&& msg_t == spec_changed_message(seq![e])
                &&& !h3t.idle
            }
        }),
{
    let (h1, out1) = handle_idle_model(h);
    let h2 = notify_model(h1, e);
    assert(h2.pending =~= seq![e]);
    let h2twice = notify_model(notify_model(h1, e), e);
    assert(h2twice.pending =~= seq![e, e]);
    assert forall|x: SubsystemEvent| h2twice.pending.contains(x) == seq![e].contains(x) by {
        if h2twice.pending.contains(x) {
            assert(seq![e].contains(x)) by {
                assert(seq![e][0] == e);
            }
        }
        if seq![e].contains(x) {
            assert(h2twice.pending.contains(x)) by {
                assert(h2twice.pending[0] == e);
            }
        }
    }
    lemma_changed_names_membership(h2twice.pending, seq![e], 0);
}

/// The `changed:` names depend only on which subsystems are present, not
/// on how often or in what order they were recorded.
proof fn lemma_changed_names_membership(a: Seq<SubsystemEvent>, b: Seq<SubsystemEvent>, k: int)
    requires
        0 <= k <= 12,
        forall|e: SubsystemEvent| a.contains(e) == b.contains(e),
    ensures
        spec_changed_names_from(a, k) == spec_changed_names_from(b, k),
    decreases 12 - k,
{
    if k < 12 {
        lemma_changed_names_membership(a, b, k + 1);
    }
}


/// Whether a line's verb needs the catalog: those commands are run through
/// [`BatchRun`]'s fetch steps rather than executed locally.
pub open spec fn spec_is_catalog_verb(line: Seq<char>) -> bool {
    let verb = spec_first_token(line);
    verb == "add"@ || verb == "addid"@ || verb == "listplaylists"@ || verb
        == "listplaylistinfo"@
}

/// Effect of one local (catalog-free) command line: the queue afterwards,
/// the response lines, and the subsystems the command declares changed
/// (none when it fails).  Unknown verbs produce no output and no error.
pub open spec fn spec_execute_local(m: QueueModel, line: Seq<char>, now: int) -> (
    QueueModel,
    Seq<Seq<char>>,
    Seq<SubsystemEvent>,
) {
    let verb = spec_first_token(line);
    let arg = spec_extract_arg(line);
    if verb == "status"@ {
        (m, spec_status_lines(m, now), Seq::empty())
    } else if verb == "stats"@ {
        (m, spec_stats_lines(), Seq::empty())
    } else if verb == "play"@ || verb == "playid"@ {
        match spec_parse_index(arg) {
            Some(i) => (play_model(m, i), Seq::empty(), seq![SubsystemEvent::Player]),
            None => (
                m,
                seq![spec_ack_line(ACK_ERROR_ARG as nat, "play"@, "bad song index"@)],
                Seq::empty(),
            ),
        }
    } else if verb == "pause"@ {
        (toggle_playback_model(m), Seq::empty(), seq![SubsystemEvent::Player])
    } else if verb == "next"@ {
        (next_model(m), Seq::empty(), seq![SubsystemEvent::Player])
    } else if verb == "prev"@ {
        (previous_model(m), Seq::empty(), seq![SubsystemEvent::Player])
    } else if verb == "clear"@ {
        (clear_model(m), Seq::empty(), seq![SubsystemEvent::Playlist, SubsystemEvent::Player])
    } else if verb == "playlistinfo"@ || verb == "plchanges"@ {
        (m, spec_playlistinfo_lines(m.tracks), Seq::empty())
    } else if verb == "currentsong"@ {
        (
            m,
            match m.current {
                Some(i) => spec_mpd_format(m.tracks[i], 0),
                None => Seq::empty(),
            },
            Seq::empty(),
        )
    } else if verb == "setvol"@ {
        match spec_parse_volume(arg) {
            Some(v) => (set_volume_model(m, v), Seq::empty(), seq![SubsystemEvent::Mixer]),
            None => (
                m,
                seq![spec_ack_line(ACK_ERROR_ARG as nat, "setvol"@, "bad volume level"@)],
                Seq::empty(),
            ),
        }
    } else if verb == "volume"@ {
        match arg {
            Some(s) => if crate::strutil::spec_is_signed_decimal(s)
                && crate::strutil::spec_signed_val(s) <= i32::MAX
                && crate::strutil::spec_signed_val(s) >= i32::MIN {
                let v = spec_apply_volume_delta(m.volume, crate::strutil::spec_signed_val(s));
                (set_volume_model(m, v as u16), Seq::empty(), seq![SubsystemEvent::Mixer])
            } else {
                (
                    m,
                    seq![spec_ack_line(ACK_ERROR_ARG as nat, "volume"@, "bad volume delta"@)],
                    Seq::empty(),
                )
            },
            None => (
                m,
                seq![spec_ack_line(ACK_ERROR_ARG as nat, "volume"@, "bad volume delta"@)],
                Seq::empty(),
            ),
        }
    } else if verb == "deleteid"@ {
        match spec_parse_index(arg) {
            Some(i) => (remove_model(m, i), Seq::empty(), seq![SubsystemEvent::Playlist]),
            None => (
                m,
                seq![spec_ack_line(ACK_ERROR_ARG as nat, "deleteid"@, "bad song index"@)],
                Seq::empty(),
            ),
        }
    } else if verb == "urlhandlers"@ {
        (m, spec_urlhandlers_lines(), Seq::empty())
    } else if verb == "outputs"@ {
        (m, spec_outputs_lines(), Seq::empty())
    } else if verb == "decoders"@ {
        (m, spec_decoders_lines(), Seq::empty())
    } else if verb == "tagtypes"@ {
        (m, spec_tagtypes_lines(), Seq::empty())
    } else if verb == "commands"@ {
        (m, spec_commands_lines(), Seq::empty())
    } else {
        (m, Seq::empty(), Seq::empty())
    }
}

/// Run one local command line against the queue at clock value `now_ms`:
/// returns the response lines and the subsystems declared changed.
pub fn execute_command(queue: &mut Queue, line: &String, now_ms: u64) -> (r: (
    Vec<String>,
    Vec<SubsystemEvent>,
))
    requires
        old(queue)@.wf(),
        old(queue)@.status == PlayerEvent::Playing ==> old(queue)@.progress_in_range(
            now_ms as int,
        ),
        old(queue)@.tracks.len() <= i32::MAX,
        !spec_is_catalog_verb(line@),
    ensures
        ({
            let (m2, lines, tags) = spec_execute_local(old(queue)@, line@, now_ms as int);
            &&& final(queue)@ == m2
            &&& r.0@.map_values(|l: String| l@) == lines
            &&& r.1@ == tags
        }),
        final(queue)@.wf(),
{
    let verb = first_token(line.as_str());
    let arg = extract_arg(line.as_str());
    let v = verb.as_str();
    let mut tags: Vec<SubsystemEvent> = Vec::new();
    let ghost none_tags = Seq::<SubsystemEvent>::empty();
    proof {
        assert(tags@ =~= none_tags);
    }
    if str_eq(v, "status") {
        let lines = StatusCommand.execute(queue, now_ms);
        (lines, tags)
    } else if str_eq(v, "stats") {
        (StatsCommand.execute(), tags)
    } else if str_eq(v, "play") || str_eq(v, "playid") {
        let lines = PlayCommand.execute(queue, &arg);
        if lines.len() == 0 {
            tags.push(SubsystemEvent::Player);
            proof {
                assert(tags@ =~= seq![SubsystemEvent::Player]);
                assert(lines@.map_values(|l: String| l@) =~= Seq::<Seq<char>>::empty());
            }
        }
        (lines, tags)
    } else if str_eq(v, "pause") {
        let lines = PauseCommand.execute(queue);
        tags.push(SubsystemEvent::Player);
        proof {
            assert(tags@ =~= seq![SubsystemEvent::Player]);
            assert(lines@.map_values(|l: String| l@) =~= Seq::<Seq<char>>::empty());
        }
        (lines, tags)
    } else if str_eq(v, "next") {
        let lines = NextCommand.execute(queue);
        tags.push(SubsystemEvent::Player);
        proof {
            assert(tags@ =~= seq![SubsystemEvent::Player]);
            assert(lines@.map_values(|l: String| l@) =~= Seq::<Seq<char>>::empty());
        }
        (lines, tags)
    } else if str_eq(v, "prev") {
        let lines = PrevCommand.execute(queue);
        tags.push(SubsystemEvent::Player);
        proof {
            assert(tags@ =~= seq![SubsystemEvent::Player]);
            assert(lines@.map_values(|l: String| l@) =~= Seq::<Seq<char>>::empty());
        }
        (lines, tags)
    } else if str_eq(v, "clear") {
        let lines = ClearCommand.execute(queue);
        tags.push(SubsystemEvent::Playlist);
        tags.push(SubsystemEvent::Player);
        proof {
            assert(tags@ =~= seq![SubsystemEvent::Playlist, SubsystemEvent::Player]);
            assert(lines@.map_values(|l: String| l@) =~= Seq::<Seq<char>>::empty());
        }
        (lines, tags)
    } else if str_eq(v, "playlistinfo") || str_eq(v, "plchanges") {
        (PlaylistInfoCommand.execute(queue), tags)
    } else if str_eq(v, "currentsong") {
        (CurrentSongCommand.execute(queue), tags)
    } else if str_eq(v, "setvol") {
        let lines = SetVolCommand.execute(queue, &arg);
        if lines.len() == 0 {
            tags.push(SubsystemEvent::Mixer);
            proof {
                assert(tags@ =~= seq![SubsystemEvent::Mixer]);
                assert(lines@.map_values(|l: String| l@) =~= Seq::<Seq<char>>::empty());
            }
        }
        (lines, tags)
    } else if str_eq(v, "volume") {
        let lines = VolumeCommand.execute(queue, &arg);
        if lines.len() == 0 {
            tags.push(SubsystemEvent::Mixer);
            proof {
                assert(tags@ =~= seq![SubsystemEvent::Mixer]);
                assert(lines@.map_values(|l: String| l@) =~= Seq::<Seq<char>>::empty());
            }
        }
        (lines, tags)
    } else if str_eq(v, "deleteid") {
        let lines = DeleteIdCommand.execute(queue, &arg);
        if lines.len() == 0 {
            tags.push(SubsystemEvent::Playlist);
            proof {
                assert(tags@ =~= seq![SubsystemEvent::Playlist]);
                assert(lines@.map_values(|l: String| l@) =~= Seq::<Seq<char>>::empty());
            }
        }
        (lines, tags)
    } else if str_eq(v, "urlhandlers") {
        (urlhandlers_lines(), tags)
    } else if str_eq(v, "outputs") {
        (outputs_lines(), tags)
    } else if str_eq(v, "decoders") {
        (decoders_lines(), tags)
    } else if str_eq(v, "tagtypes") {
        (tagtypes_lines(), tags)
    } else if str_eq(v, "commands") {
        (commands_lines(), tags)
    } else {
        let lines: Vec<String> = Vec::new();
        proof {
            assert(lines@.map_values(|l: String| l@) =~= Seq::<Seq<char>>::empty());
        }
        (lines, tags)
    }
}


/// One catalog call a batch needs before it can continue.
#[derive(Debug)]
pub enum CatalogRequest {
    /// Resolve one track id.
    GetTrack(String),
    /// List the user's playlists.
    GetPlaylists,
    /// List the tracks of the playlist with this id.
    GetPlaylistTracks(String),
}

/// The mathematical value of a [`CatalogRequest`].
pub enum CatalogRequestModel {
    GetTrack(Seq<char>),
    GetPlaylists,
    GetPlaylistTracks(Seq<char>),
}

impl View for CatalogRequest {
    type V = CatalogRequestModel;

    open spec fn view(&self) -> CatalogRequestModel {
        match self {
            CatalogRequest::GetTrack(id) => CatalogRequestModel::GetTrack(id@),
            CatalogRequest::GetPlaylists => CatalogRequestModel::GetPlaylists,
            CatalogRequest::GetPlaylistTracks(id) => CatalogRequestModel::GetPlaylistTracks(id@),
        }
    }
}

/// The outcome of a catalog call; `None` inside a variant is a failed call.
#[derive(Debug)]
pub enum CatalogAnswer {
    Track(Option<Track>),
    Playlists(Option<Vec<Playlist>>),
    PlaylistTracks(Option<Vec<PlaylistEntry>>),
}

/// The mathematical value of a [`CatalogAnswer`].
pub enum CatalogAnswerModel {
    Track(Option<TrackModel>),
    Playlists(Option<Seq<PlaylistModel>>),
    PlaylistTracks(Option<Seq<PlaylistEntryModel>>),
}

impl View for CatalogAnswer {
    type V = CatalogAnswerModel;

    open spec fn view(&self) -> CatalogAnswerModel {
        match self {
            CatalogAnswer::Track(t) => CatalogAnswerModel::Track(
                match t {
                    Some(v) => Some(v@),
                    None => None,
                },
            ),
            CatalogAnswer::Playlists(p) => CatalogAnswerModel::Playlists(
                match p {
                    Some(v) => Some(v@.map_values(|x: Playlist| x@)),
                    None => None,
                },
            ),
            CatalogAnswer::PlaylistTracks(e) => CatalogAnswerModel::PlaylistTracks(
                match e {
                    Some(v) => Some(v@.map_values(|x: PlaylistEntry| x@)),
                    None => None,
                },
            ),
        }
    }
}

/// The view of an optional answer.
pub open spec fn view_opt_answer(a: Option<CatalogAnswer>) -> Option<CatalogAnswerModel> {
    match a {
        Some(v) => Some(v@),
        None => None,
    }
}

/// Where a batch stands between commands: ready for the next one, or
/// waiting for one catalog answer.
#[derive(Debug)]
pub enum BatchPhase {
    Ready,
    AwaitTrack,
    AwaitPlaylists,
    AwaitNamedPlaylists(String),
    AwaitPlaylistTracks,
}

/// The mathematical value of a [`BatchPhase`].
pub enum BatchPhaseModel {
    Ready,
    AwaitTrack,
    AwaitPlaylists,
    AwaitNamedPlaylists(Seq<char>),
    AwaitPlaylistTracks,
}

impl View for BatchPhase {
    type V = BatchPhaseModel;

    open spec fn view(&self) -> BatchPhaseModel {
        match self {
            BatchPhase::Ready => BatchPhaseModel::Ready,
            BatchPhase::AwaitTrack => BatchPhaseModel::AwaitTrack,
            BatchPhase::AwaitPlaylists => BatchPhaseModel::AwaitPlaylists,
            BatchPhase::AwaitNamedPlaylists(n) => BatchPhaseModel::AwaitNamedPlaylists(n@),
            BatchPhase::AwaitPlaylistTracks => BatchPhaseModel::AwaitPlaylistTracks,
        }
    }
}

/// What one step of a batch asks of its driver: fetch a catalog answer,
/// call again, or write the finished response (with the subsystems the
/// batch changed) and stop.
#[derive(Debug)]
pub enum BatchStep {
    Fetch(CatalogRequest),
    Continue,
    Done(String, Vec<SubsystemEvent>),
}

/// The mathematical value of a [`BatchStep`].
pub enum BatchStepModel {
    Fetch(CatalogRequestModel),
    Continue,
    Done(Seq<char>, Seq<SubsystemEvent>),
}

impl View for BatchStep {
    type V = BatchStepModel;

    open spec fn view(&self) -> BatchStepModel {
        match self {
            BatchStep::Fetch(r) => BatchStepModel::Fetch(r@),
            BatchStep::Continue => BatchStepModel::Continue,
            BatchStep::Done(s, c) => BatchStepModel::Done(s@, c@),
        }
    }
}

/// The mathematical state of a batch run.
#[verifier::ext_equal]
pub struct BatchModel {
    /// The buffered command lines, in order.
    pub commands: Seq<Seq<char>>,
    /// The next command to execute.
    pub next: int,
    /// The response lines accumulated so far.
    pub output: Seq<Seq<char>>,
    /// The subsystems changed by the commands executed so far.
    pub changed: Seq<SubsystemEvent>,
    /// Whether a catalog answer is awaited, and for what.
    pub phase: BatchPhaseModel,
}

impl BatchModel {
    /// The next-command cursor stays within the list, and strictly within
    /// it while a catalog answer for the command at the cursor is awaited.
    pub open spec fn wf(self) -> bool {
        &&& 0 <= self.next <= self.commands.len()
        &&& !(self.phase matches BatchPhaseModel::Ready) ==> self.next < self.commands.len()
    }
}

/// A batch model advanced past the command just finished, with its lines
/// and changed subsystems folded in.
pub open spec fn batch_advance(
    b: BatchModel,
    lines: Seq<Seq<char>>,
    tags: Seq<SubsystemEvent>,
) -> BatchModel {
    BatchModel {
        next: b.next + 1,
        output: b.output + lines,
        changed: b.changed + tags,
        phase: BatchPhaseModel::Ready,
        ..b
    }
}

/// Effect of one step from the ready state: finish when everything ran or
/// an error line stopped the batch; otherwise run the next command, or
/// step out to fetch what it needs.
pub open spec fn spec_batch_step_ready(b: BatchModel, q: QueueModel, now: int) -> (
    BatchModel,
    QueueModel,
    BatchStepModel,
) {
    if spec_has_error(b.output) || b.next >= b.commands.len() {
        let resp = if spec_has_error(b.output) {
            spec_join_lines(b.output)
        } else {
            spec_join_lines(b.output.push("OK\n"@))
        };
        (b, q, BatchStepModel::Done(resp, b.changed))
    } else {
        let line = b.commands[b.next];
        let verb = spec_first_token(line);
        let arg = spec_extract_arg(line);
        if verb == "add"@ || verb == "addid"@ {
            match arg {
                Some(a) => (
                    BatchModel { phase: BatchPhaseModel::AwaitTrack, ..b },
                    q,
                    BatchStepModel::Fetch(CatalogRequestModel::GetTrack(a)),
                ),
                None => (
                    batch_advance(
                        b,
                        seq![spec_ack_line(ACK_ERROR_ARG as nat, "add"@, "missing track id"@)],
                        Seq::empty(),
                    ),
                    q,
                    BatchStepModel::Continue,
                ),
            }
        } else if verb == "listplaylists"@ {
            (
                BatchModel { phase: BatchPhaseModel::AwaitPlaylists, ..b },
                q,
                BatchStepModel::Fetch(CatalogRequestModel::GetPlaylists),
            )
        } else if verb == "listplaylistinfo"@ {
            match arg {
                Some(a) => (
                    BatchModel { phase: BatchPhaseModel::AwaitNamedPlaylists(a), ..b },
                    q,
                    BatchStepModel::Fetch(CatalogRequestModel::GetPlaylists),
                ),
                None => (
                    batch_advance(
                        b,
                        seq![
                            spec_ack_line(
                                ACK_ERROR_ARG as nat,
                                "listplaylistinfo"@,
                                "missing playlist name"@,
                            ),
                        ],
                        Seq::empty(),
                    ),
                    q,
                    BatchStepModel::Continue,
                ),
            }
        } else {
            let (q2, lines, tags) = spec_execute_local(q, line, now);
            (batch_advance(b, lines, tags), q2, BatchStepModel::Continue)
        }
    }
}

/// The response lines of a resolved `add`: the new position on success,
/// an error line when the track could not be resolved.
pub open spec fn spec_add_fold_lines(q: QueueModel, t: Option<TrackModel>) -> Seq<Seq<char>> {
    match t {
        Some(tm) => if tm.id is Some {
            seq!["Id: "@ + crate::strutil::spec_u64_dec(q.tracks.len())]
        } else {
            seq![spec_ack_line(ACK_ERROR_NO_EXIST as nat, "add"@, "track not found"@)]
        },
        None => seq![spec_ack_line(ACK_ERROR_NO_EXIST as nat, "add"@, "track not found"@)],
    }
}

/// Effect of one batch step: from the ready state it runs the next
/// command; from a waiting state it folds the catalog answer in.  An
/// answer of the wrong shape counts as a failed call.
pub open spec fn spec_batch_step(
    b: BatchModel,
    q: QueueModel,
    answer: Option<CatalogAnswerModel>,
    now: int,
) -> (BatchModel, QueueModel, BatchStepModel) {
    match b.phase {
        BatchPhaseModel::Ready => spec_batch_step_ready(b, q, now),
        BatchPhaseModel::AwaitTrack => {
            let t = match answer {
                Some(CatalogAnswerModel::Track(opt)) => opt,
                _ => None,
            };
            let q2 = match t {
                Some(tm) => if tm.id is Some {
                    append_model(q, tm)
                } else {
                    q
                },
                None => q,
            };
            let tags: Seq<SubsystemEvent> = match t {
                Some(tm) => if tm.id is Some {
                    seq![SubsystemEvent::Playlist]
                } else {
                    Seq::empty()
                },
                None => Seq::empty(),
            };
            (batch_advance(b, spec_add_fold_lines(q, t), tags), q2, BatchStepModel::Continue)
        },
        BatchPhaseModel::AwaitPlaylists => {
            let lines = match answer {
                Some(CatalogAnswerModel::Playlists(Some(ps))) => spec_playlists_lines(ps),
                _ => Seq::empty(),
            };
            (batch_advance(b, lines, Seq::empty()), q, BatchStepModel::Continue)
        },
        BatchPhaseModel::AwaitNamedPlaylists(name) => {
            match answer {
                Some(CatalogAnswerModel::Playlists(Some(ps))) => match spec_find_playlist(
                    ps,
                    name,
                ) {
                    Some(i) => (
                        BatchModel { phase: BatchPhaseModel::AwaitPlaylistTracks, ..b },
                        q,
                        BatchStepModel::Fetch(CatalogRequestModel::GetPlaylistTracks(ps[i].id)),
                    ),
                    None => (
                        batch_advance(
                            b,
                            seq![
                                spec_ack_line(
                                    ACK_ERROR_NO_EXIST as nat,
                                    "listplaylistinfo"@,
                                    "no such playlist"@,
                                ),
                            ],
                            Seq::empty(),
                        ),
                        q,
                        BatchStepModel::Continue,
                    ),
                },
                _ => (
                    batch_advance(
                        b,
                        seq![
                            spec_ack_line(
                                ACK_ERROR_NO_EXIST as nat,
                                "listplaylistinfo"@,
                                "no such playlist"@,
                            ),
                        ],
                        Seq::empty(),
                    ),
                    q,
                    BatchStepModel::Continue,
                ),
            }
        },
        BatchPhaseModel::AwaitPlaylistTracks => {
            let lines = match answer {
                Some(CatalogAnswerModel::PlaylistTracks(Some(es))) => spec_playlist_tracks_lines(
                    es,
                ),
                _ => Seq::empty(),
            };
            (batch_advance(b, lines, Seq::empty()), q, BatchStepModel::Continue)
        },
    }
}

fn copy_events(v: &Vec<SubsystemEvent>) -> (r: Vec<SubsystemEvent>)
    ensures
        r@ == v@,
{
    let mut out: Vec<SubsystemEvent> = Vec::new();
    let mut i: usize = 0;
    while i < v.len()
        invariant
            i <= v.len(),
            out@ =~= v@.take(i as int),
        decreases v.len() - i,
    {
        out.push(v[i]);
        i = i + 1;
    }
    proof {
        assert(v@.take(v@.len() as int) =~= v@);
    }
    out
}

/// One batch of commands being executed as a unit.  The driver calls
/// [`BatchRun::step`] until it answers `Done`, fetching a catalog answer
/// whenever a step asks for one; every decision in between is made here.
pub struct BatchRun {
    /// The buffered command lines, in order.
    pub commands: Vec<String>,
    /// The next command to execute.
    pub next: usize,
    /// The response lines accumulated so far.
    pub output: Vec<String>,
    /// The subsystems changed by the commands executed so far.
    pub changed: Vec<SubsystemEvent>,
    /// Whether a catalog answer is awaited, and for what.
    pub phase: BatchPhase,
}

impl View for BatchRun {
    type V = BatchModel;

    open spec fn view(&self) -> BatchModel {
        BatchModel {
            commands: self.commands@.map_values(|l: String| l@),
            next: self.next as int,
            output: self.output@.map_values(|l: String| l@),
            changed: self.changed@,
            phase: self.phase@,
        }
    }
}

impl BatchRun {
    /// Start a batch over the given command lines.
    pub fn new(commands: Vec<String>) -> (r: BatchRun)
        ensures
            r@.commands == commands@.map_values(|l: String| l@),
            r@.next == 0,
            r@.output.len() == 0,
            r@.changed.len() == 0,
            r@.phase == BatchPhaseModel::Ready,
    {
        let r = BatchRun {
            commands,
            next: 0,
            output: Vec::new(),
            changed: Vec::new(),
            phase: BatchPhase::Ready,
        };
        proof {
            assert(r@.output =~= Seq::<Seq<char>>::empty());
            assert(r@.changed =~= Seq::<SubsystemEvent>::empty());
        }
        r
    }

    /// Run one step of the batch: execute the next command, or fold in the
    /// catalog answer the previous step asked for.
    pub fn step(&mut self, queue: &mut Queue, answer: Option<CatalogAnswer>, now_ms: u64) -> (r:
        BatchStep)
        requires
            old(self)@.wf(),
            old(queue)@.wf(),
            old(queue)@.status == PlayerEvent::Playing ==> old(queue)@.progress_in_range(
                now_ms as int,
            ),
            old(queue)@.tracks.len() <= i32::MAX,
            match answer {
                Some(CatalogAnswer::PlaylistTracks(Some(es))) => forall|j: int|
                    0 <= j < es@.len() && !(#[trigger] es@[j])@.is_local ==> es@[j]@.id is Some
                        && es@[j]@.last_modified is Some,
                _ => true,
            },
        ensures
            ({
                let (b2, q2, s) = spec_batch_step(
                    old(self)@,
                    old(queue)@,
                    view_opt_answer(answer),
                    now_ms as int,
                );
                &&& final(self)@ == b2
                &&& final(queue)@ == q2
                &&& r@ == s
            }),
            final(queue)@.wf(),
            final(self)@.wf(),
    {
        proof {
            assert(i32::MAX < usize::MAX);
        }
        let total = self.commands.len();
        proof {
            assert(self@.commands.len() == self.commands@.len());
            assert(self@.commands.len() == total);
        }
        let mut ph = BatchPhase::Ready;
        core::mem::swap(&mut self.phase, &mut ph);
        match ph {
            BatchPhase::Ready => {
                let err = has_error(&self.output);
                if err || self.next >= total {
                    let mut resp = join_lines(&self.output);
                    if !err {
                        proof {
                            reveal_strlit("\n");
                        }
                        if self.output.len() > 0 {
                            resp.append("\n");
                        }
                        resp.append("OK\n");
                        proof {
                            let out = old(self)@.output;
                            assert(out.push("OK\n"@).drop_last() =~= out);
                            if out.len() == 0 {
                                assert(resp@ =~= spec_join_lines(out.push("OK\n"@)));
                            } else {
                                assert(resp@ =~= spec_join_lines(out.push("OK\n"@)));
                            }
                        }
                    }
                    let tags = copy_events(&self.changed);
                    proof {
                        assert(self@ =~= old(self)@);
                    }
                    BatchStep::Done(resp, tags)
                } else {
                    let verb = first_token(self.commands[self.next].as_str());
                    let v = verb.as_str();
                    if str_eq(v, "add") || str_eq(v, "addid") {
                        match extract_arg(self.commands[self.next].as_str()) {
                            Some(a) => {
                                self.phase = BatchPhase::AwaitTrack;
                                proof {
                                    assert(self@ =~= (BatchModel {
                                        phase: BatchPhaseModel::AwaitTrack,
                                        ..old(self)@
                                    }));
                                }
                                BatchStep::Fetch(CatalogRequest::GetTrack(a))
                            }
                            None => {
                                self.output.push(ack_line(
                                    ACK_ERROR_ARG,
                                    "add",
                                    "missing track id",
                                ));
                                self.next = self.next + 1;
                                proof {
                                    let (b2, q2, s) = spec_batch_step(
                                        old(self)@,
                                        old(queue)@,
                                        view_opt_answer(answer),
                                        now_ms as int,
                                    );
                                    assert(self@.output =~= b2.output);
                                    assert(self@.changed =~= b2.changed);
                                    assert(self@ =~= b2);
                                }
                                BatchStep::Continue
                            }
                        }
                    } else if str_eq(v, "listplaylists") {
                        self.phase = BatchPhase::AwaitPlaylists;
                        proof {
                            assert(self@ =~= (BatchModel {
                                phase: BatchPhaseModel::AwaitPlaylists,
                                ..old(self)@
                            }));
                        }
                        BatchStep::Fetch(CatalogRequest::GetPlaylists)
                    } else if str_eq(v, "listplaylistinfo") {
                        match extract_arg(self.commands[self.next].as_str()) {
                            Some(a) => {
                                let ghost aview = a@;
                                self.phase = BatchPhase::AwaitNamedPlaylists(a);
                                proof {
                                    assert(self@ =~= (BatchModel {
                                        phase: BatchPhaseModel::AwaitNamedPlaylists(aview),
                                        ..old(self)@
                                    }));
                                }
                                BatchStep::Fetch(CatalogRequest::GetPlaylists)
                            }
                            None => {
                                self.output.push(ack_line(
                                    ACK_ERROR_ARG,
                                    "listplaylistinfo",
                                    "missing playlist name",
                                ));
                                self.next = self.next + 1;
                                proof {
                                    let (b2, q2, s) = spec_batch_step(
                                        old(self)@,
                                        old(queue)@,
                                        view_opt_answer(answer),
                                        now_ms as int,
                                    );
                                    assert(self@.output =~= b2.output);
                                    assert(self@.changed =~= b2.changed);
                                    assert(self@ =~= b2);
                                }
                                BatchStep::Continue
                            }
                        }
                    } else {
                        let (mut lines, mut tags) = execute_command(
                            queue,
                            &self.commands[self.next],
                            now_ms,
                        );
                        let ghost lviews = lines@.map_values(|l: String| l@);
                        let ghost tviews = tags@;
                        self.output.append(&mut lines);
                        self.changed.append(&mut tags);
                        self.next = self.next + 1;
                        proof {
                            let (b2, q2, s) = spec_batch_step(
                                old(self)@,
                                old(queue)@,
                                view_opt_answer(answer),
                                now_ms as int,
                            );
                            assert(self@.output =~= old(self)@.output + lviews);
                            assert(self@.changed =~= old(self)@.changed + tviews);
                            assert(self@ =~= b2);
                        }
                        BatchStep::Continue
                    }
                }
            }
            BatchPhase::AwaitTrack => {
                let track: Option<Track> = match answer {
                    Some(CatalogAnswer::Track(t)) => t,
                    _ => None,
                };
                let ok = match &track {
                    Some(t) => t.id.is_some(),
                    None => false,
                };
                let mut lines = AddCommand.execute(queue, &track);
                let ghost lviews = lines@.map_values(|l: String| l@);
                if ok {
                    self.changed.push(SubsystemEvent::Playlist);
                }
                self.output.append(&mut lines);
                self.next = self.next + 1;
                proof {
                    let (b2, q2, s) = spec_batch_step(
                        old(self)@,
                        old(queue)@,
                        view_opt_answer(answer),
                        now_ms as int,
                    );
                    assert(self@.output =~= b2.output);
                    assert(self@.changed =~= b2.changed);
                    assert(self@ =~= b2);
                }
                BatchStep::Continue
            }
            BatchPhase::AwaitPlaylists => {
                let playlists: Option<Vec<Playlist>> = match answer {
                    Some(CatalogAnswer::Playlists(p)) => p,
                    _ => None,
                };
                let mut lines = ListPlaylistsCommand.execute(&playlists);
                let ghost lviews = lines@.map_values(|l: String| l@);
                self.output.append(&mut lines);
                self.next = self.next + 1;
                proof {
                    let (b2, q2, s) = spec_batch_step(
                        old(self)@,
                        old(queue)@,
                        view_opt_answer(answer),
                        now_ms as int,
                    );
                    assert(self@.output =~= b2.output);
                    assert(self@.changed =~= b2.changed);
                    assert(self@ =~= b2);
                }
                BatchStep::Continue
            }
            BatchPhase::AwaitNamedPlaylists(name) => {
                let found: Option<Playlist> = match &answer {
                    Some(CatalogAnswer::Playlists(Some(ps))) => ListPlaylistInfoCommand
                        .get_playlist_by_name(ps, name.as_str()),
                    _ => None,
                };
                match found {
                    Some(playlist) => {
                        self.phase = BatchPhase::AwaitPlaylistTracks;
                        proof {
                            let (b2, q2, s) = spec_batch_step(
                                old(self)@,
                                old(queue)@,
                                view_opt_answer(answer),
                                now_ms as int,
                            );
                            assert(self@ =~= b2);
                        }
                        BatchStep::Fetch(CatalogRequest::GetPlaylistTracks(playlist.id))
                    }
                    None => {
                        self.output.push(ack_line(
                            ACK_ERROR_NO_EXIST,
                            "listplaylistinfo",
                            "no such playlist",
                        ));
                        self.next = self.next + 1;
                        proof {
                            let (b2, q2, s) = spec_batch_step(
                                old(self)@,
                                old(queue)@,
                                view_opt_answer(answer),
                                now_ms as int,
                            );
                            assert(self@.output =~= b2.output);
                            assert(self@.changed =~= b2.changed);
                            assert(self@ =~= b2);
                        }
                        BatchStep::Continue
                    }
                }
            }
            BatchPhase::AwaitPlaylistTracks => {
                let entries: Option<Vec<PlaylistEntry>> = match answer {
                    Some(CatalogAnswer::PlaylistTracks(e)) => e,
                    _ => None,
                };
                let mut lines = ListPlaylistInfoCommand.execute(&entries);
                let ghost lviews = lines@.map_values(|l: String| l@);
                self.output.append(&mut lines);
                self.next = self.next + 1;
                proof {
                    let (b2, q2, s) = spec_batch_step(
                        old(self)@,
                        old(queue)@,
                        view_opt_answer(answer),
                        now_ms as int,
                    );
                    assert(self@.output =~= b2.output);
                    assert(self@.changed =~= b2.changed);
                    assert(self@ =~= b2);
                }
                BatchStep::Continue
            }
        }
    }
}


/// Once an error line stands in the batch's output, the batch is over:
/// the very next step finalizes without touching the queue, the output or
/// the cursor, and the response is exactly the lines written so far.
pub proof fn lemma_batch_stops_on_error(b: BatchModel, q: QueueModel, now: int)
    requires
        (b.phase matches BatchPhaseModel::Ready),
        spec_has_error(b.output),
    ensures
        spec_batch_step(b, q, None, now) == (
            b,
            q,
            BatchStepModel::Done(spec_join_lines(b.output), b.changed),
        ),
{
}

/// Command-list batch atomicity.  Take a batch about to run a failing
/// command — a local command whose execution yields output ending in an
/// error line — with another command buffered after it.  The failing
/// command's lines are written, the step after it finalizes at once — the
/// command after the failing one never executes, the queue is untouched
/// by it — and the error line is the last line of the response.
pub proof fn lemma_batch_atomicity(b: BatchModel, q: QueueModel, now: int)
    requires
        (b.phase matches BatchPhaseModel::Ready),
        !spec_has_error(b.output),
        0 <= b.next < b.commands.len() - 1,
        !spec_is_catalog_verb(b.commands[b.next]),
        ({
            let (q2, lines, tags) = spec_execute_local(q, b.commands[b.next], now);
            &&& lines.len() > 0
            &&& crate::spec_is_error_line(lines.last())
        }),
    ensures
        ({
            let (q2, lines, tags) = spec_execute_local(q, b.commands[b.next], now);
            let (b1, q1, s1) = spec_batch_step(b, q, None, now);
            let (b2, q2b, s2) = spec_batch_step(b1, q1, None, now);
            &&& s1 == BatchStepModel::Continue
            &&& b1.output == b.output + lines
            &&& b2 == b1
            &&& q2b == q1
            &&& s2 == BatchStepModel::Done(spec_join_lines(b1.output), b1.changed)
            &&& crate::spec_is_error_line(b1.output.last())
        }),
{
    let (q2, lines, tags) = spec_execute_local(q, b.commands[b.next], now);
    let (b1, q1, s1) = spec_batch_step(b, q, None, now);
    let verb = spec_first_token(b.commands[b.next]);
    assert(b1.output == b.output + lines);
    let i = choose|i: int| 0 <= i < lines.len() && crate::spec_is_error_line(lines[i]);
    assert(crate::spec_is_error_line(lines.last()));
    assert(b1.output[b.output.len() + lines.len() - 1] == lines.last());
    assert(spec_has_error(b1.output));
    lemma_batch_stops_on_error(b1, q1, now);
}

} // verus!
