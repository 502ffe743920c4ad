//! The command implementations behind the protocol verbs.  Each command is
//! a unit struct with the verbs it answers to and an `execute` whose
//! contract states the exact response lines and the exact queue effect.
//! Commands that need the catalog take the already-fetched answer as an
//! argument; the fetching itself happens outside the library.

use vstd::prelude::*;

use crate::queue::{
    clear_model, next_model, play_model, previous_model, remove_model, set_volume_model,
    toggle_playback_model, Queue, QueueModel,
};
use crate::respot::{spec_state_name, PlayerEvent};
use crate::strutil::{
    concat2, extract_arg, join_sep, millis_to_fixed_string, parse_i32, parse_u64, parse_usize,
    spec_digits_val, spec_extract_arg, spec_join_sep, spec_millis_fixed, spec_u64_dec,
    u64_to_string,
};
use crate::track::{spec_mpd_format, Track, TrackModel};

verus! {

/// A playlist as summarised by the catalog.
#[derive(Debug)]
pub struct Playlist {
    pub id: String,
    pub name: String,
}

/// The mathematical value of a [`Playlist`].
pub struct PlaylistModel {
    pub id: Seq<char>,
    pub name: Seq<char>,
}

impl View for Playlist {
    type V = PlaylistModel;

    open spec fn view(&self) -> PlaylistModel {
        PlaylistModel { id: self.id@, name: self.name@ }
    }
}

impl Clone for Playlist {
    /// A copy with the same value.
    fn clone(&self) -> (r: Playlist)
        ensures
            r@ == self@,
    {
        Playlist { id: self.id.clone(), name: self.name.clone() }
    }
}

/// One entry of a playlist listing, as the catalog reports it.
#[derive(Debug)]
pub struct PlaylistEntry {
    /// Local items cut the listing short and are never played.
    pub is_local: bool,
    pub id: Option<String>,
    /// The release date reported for the entry's album.
    pub last_modified: Option<String>,
    pub artists: Vec<String>,
    pub album_artists: Vec<String>,
    pub title: String,
    pub album: String,
    pub duration_ms: u32,
}

/// The mathematical value of a [`PlaylistEntry`].
pub struct PlaylistEntryModel {
    pub is_local: bool,
    pub id: Option<Seq<char>>,
    pub last_modified: Option<Seq<char>>,
    pub artists: Seq<Seq<char>>,
    pub album_artists: Seq<Seq<char>>,
    pub title: Seq<char>,
    pub album: Seq<char>,
    pub duration_ms: u32,
}

impl View for PlaylistEntry {
    type V = PlaylistEntryModel;

    open spec fn view(&self) -> PlaylistEntryModel {
        PlaylistEntryModel {
            is_local: self.is_local,
            id: crate::track::view_opt_string(self.id),
            last_modified: crate::track::view_opt_string(self.last_modified),
            artists: crate::track::view_string_vec(self.artists@),
            album_artists: crate::track::view_string_vec(self.album_artists@),
            title: self.title@,
            album: self.album@,
            duration_ms: self.duration_ms,
        }
    }
}

/// A protocol error line: the `ACK` marker, an error code, the failing
/// verb in braces, and a message.
pub open spec fn spec_ack_line(code: nat, verb: Seq<char>, msg: Seq<char>) -> Seq<char> {
    "ACK ["@ + spec_u64_dec(code) + "@0] {"@ + verb + "} "@ + msg
}

/// Build a protocol error line.
pub fn ack_line(code: u64, verb: &str, msg: &str) -> (r: String)
    ensures
        r@ == spec_ack_line(code as nat, verb@, msg@),
{
    let mut s = concat2("ACK [", u64_to_string(code).as_str());
    s.append("@0] {");
    s.append(verb);
    s.append("} ");
    s.append(msg);
    proof {
        assert(s@ =~= spec_ack_line(code as nat, verb@, msg@));
    }
    s
}

/// An `ACK` line always marks an error, whatever the code, verb and
/// message.
pub proof fn lemma_ack_line_is_error(code: nat, verb: Seq<char>, msg: Seq<char>)
    ensures
        crate::spec_is_error_line(spec_ack_line(code, verb, msg)),
{
    reveal_strlit("ACK [");
    reveal_strlit("ACK");
    assert(spec_ack_line(code, verb, msg).subrange(0, 3) =~= "ACK"@);
}

/// The error code for a missing or malformed argument.
pub const ACK_ERROR_ARG: u64 = 2;

/// The error code for a failed lookup or backend call.
pub const ACK_ERROR_NO_EXIST: u64 = 50;

/// The `status` reply.  Always: the fixed option lines, the volume, the
/// queue length and the transport state; while playing or paused also the
/// position, times and stream facts.
pub open spec fn spec_status_lines(m: QueueModel, now: int) -> Seq<Seq<char>> {
    let fixed = seq![
        "repeat: 0"@,
        "random: 0"@,
        "single: 0"@,
        "consume: 0"@,
        "playlist: 1"@,
        "mixrampdb: 0.00000"@,
        "volume: "@ + spec_u64_dec(m.volume as nat),
        "playlistlength: "@ + spec_u64_dec(m.tracks.len()),
        "state: "@ + spec_state_name(m.status),
    ];
    if m.status == PlayerEvent::Playing || m.status == PlayerEvent::Paused {
        let song = match m.current {
            Some(i) => seq![
                "song: "@ + spec_u64_dec(i as nat),
                "songid: "@ + spec_u64_dec(i as nat),
            ],
            None => Seq::empty(),
        };
        let progress = m.spec_progress(now);
        let duration = match m.current {
            Some(i) => m.tracks[i].duration / 1000,
            None => 0u32,
        };
        fixed + song + seq![
            "time: "@ + spec_u64_dec((progress / 1000) as nat) + ":"@
                + spec_u64_dec(duration as nat),
            "elapsed: "@ + spec_millis_fixed(progress as nat),
            "duration: "@ + spec_u64_dec(duration as nat),
            "audio: 44100:24:2"@,
            "bitrate: 320"@,
        ]
    } else {
        fixed
    }
}

/// `status`: report transport state, volume and queue facts.
pub struct StatusCommand;

impl StatusCommand {
    /// The verbs this command answers to.
    pub fn get_type(&self) -> (r: Vec<&'static str>)
        ensures
            r@.len() == 1,
            r@[0]@ == "status"@,
    {
        vec!["status"]
    }

    /// Render the status reply for the queue's state at clock value
    /// `now_ms`.
    pub fn execute(&self, queue: &Queue, now_ms: u64) -> (r: Vec<String>)
        requires
            queue@.wf(),
            queue@.status == PlayerEvent::Playing ==> queue@.progress_in_range(now_ms as int),
        ensures
            r@.map_values(|l: String| l@) == spec_status_lines(queue@, now_ms as int),
    {
        let mut out: Vec<String> = Vec::new();
        out.push(String::from_str("repeat: 0"));
        out.push(String::from_str("random: 0"));
        out.push(String::from_str("single: 0"));
        out.push(String::from_str("consume: 0"));
        out.push(String::from_str("playlist: 1"));
        out.push(String::from_str("mixrampdb: 0.00000"));
        let vol = u64_to_string(queue.get_volume() as u64);
        out.push(concat2("volume: ", vol.as_str()));
        let len = u64_to_string(queue.len() as u64);
        out.push(concat2("playlistlength: ", len.as_str()));
        let status = queue.get_status();
        out.push(concat2("state: ", status.as_str()));
        if status == PlayerEvent::Playing || status == PlayerEvent::Paused {
            match queue.get_current_index() {
                Some(songid) => {
                    let id = u64_to_string(songid as u64);
                    out.push(concat2("song: ", id.as_str()));
                    out.push(concat2("songid: ", id.as_str()));
                }
                None => {}
            }
            let progress = queue.get_current_progress(now_ms);
            let duration = queue.get_duration();
            let mut time_line = concat2("time: ", u64_to_string(progress / 1000).as_str());
            time_line.append(":");
            let dur = u64_to_string(duration as u64);
            time_line.append(dur.as_str());
            out.push(time_line);
            let fixed = millis_to_fixed_string(progress);
            out.push(concat2("elapsed: ", fixed.as_str()));
            out.push(concat2("duration: ", dur.as_str()));
            out.push(String::from_str("audio: 44100:24:2"));
            out.push(String::from_str("bitrate: 320"));
        }
        proof {
            assert(out@.map_values(|l: String| l@) =~= spec_status_lines(
                queue@,
                now_ms as int,
            ));
        }
        out
    }
}

/// The `stats` reply: this server keeps no statistics.
pub open spec fn spec_stats_lines() -> Seq<Seq<char>> {
    seq!["uptime: 0"@, "playtime: 0"@]
}

/// `stats`: fixed placeholder statistics.
pub struct StatsCommand;

impl StatsCommand {
    /// The verbs this command answers to.
    pub fn get_type(&self) -> (r: Vec<&'static str>)
        ensures
            r@.len() == 1,
            r@[0]@ == "stats"@,
    {
        vec!["stats"]
    }

    /// Render the statistics reply.
    pub fn execute(&self) -> (r: Vec<String>)
        ensures
            r@.map_values(|l: String| l@) == spec_stats_lines(),
    {
        let mut out: Vec<String> = Vec::new();
        out.push(String::from_str("uptime: 0"));
        out.push(String::from_str("playtime: 0"));
        proof {
            assert(out@.map_values(|l: String| l@) =~= spec_stats_lines());
        }
        out
    }
}


/// The `listplaylists` reply: a name line and a placeholder modification
/// time for each playlist (the catalog reports no times).
pub open spec fn spec_playlists_lines(ps: Seq<PlaylistModel>) -> Seq<Seq<char>>
    decreases ps.len(),
{
    if ps.len() == 0 {
        Seq::empty()
    } else {
        spec_playlists_lines(ps.drop_last()) + seq![
            "playlist: "@ + ps.last().name,
            "Last-Modified: 1970-01-01T00:00:00Z"@,
        ]
    }
}

/// `listplaylists`: list the user's playlists.  The catalog answer is
/// fetched outside the library and handed in.
pub struct ListPlaylistsCommand;

impl ListPlaylistsCommand {
    /// The verbs this command answers to.
    pub fn get_type(&self) -> (r: Vec<&'static str>)
        ensures
            r@.len() == 1,
            r@[0]@ == "listplaylists"@,
    {
        vec!["listplaylists"]
    }

    /// Render the playlists reply; a failed fetch (`None`) yields no lines
    /// — listing is best-effort.
    pub fn execute(&self, playlists: &Option<Vec<Playlist>>) -> (r: Vec<String>)
        ensures
            match playlists {
                Some(ps) => r@.map_values(|l: String| l@)
                    == spec_playlists_lines(ps@.map_values(|p: Playlist| p@)),
                None => r@.len() == 0,
            },
    {
        let mut out: Vec<String> = Vec::new();
        match playlists {
            Some(ps) => {
                let ghost views = ps@.map_values(|p: Playlist| p@);
                let mut i: usize = 0;
                while i < ps.len()
                    invariant
                        views == ps@.map_values(|p: Playlist| p@),
                        i <= ps.len(),
                        out@.map_values(|l: String| l@) == spec_playlists_lines(
                            views.take(i as int),
                        ),
                    decreases ps.len() - i,
                {
                    out.push(concat2("playlist: ", ps[i].name.as_str()));
                    out.push(String::from_str("Last-Modified: 1970-01-01T00:00:00Z"));
                    proof {
                        assert(views.take(i + 1).drop_last() =~= views.take(i as int));
                        assert(views.take(i + 1).last() == views[i as int]);
                        assert(out@.map_values(|l: String| l@) =~= spec_playlists_lines(
                            views.take(i + 1),
                        ));
                    }
                    i = i + 1;
                }
                proof {
                    assert(views.take(ps@.len() as int) =~= views);
                }
            }
            None => {}
        }
        out
    }
}

/// The index of the first playlist with the given name, scanning from `i`.
pub open spec fn spec_find_playlist_from(ps: Seq<PlaylistModel>, name: Seq<char>, i: int) -> Option<
    int,
>
    recommends
        0 <= i <= ps.len(),
    decreases ps.len() - i when 0 <= i <= ps.len()
{
    if i >= ps.len() {
        None
    } else if ps[i].name == name {
        Some(i)
    } else {
        spec_find_playlist_from(ps, name, i + 1)
    }
}

/// The index of the first playlist with the given name.
pub open spec fn spec_find_playlist(ps: Seq<PlaylistModel>, name: Seq<char>) -> Option<int> {
    spec_find_playlist_from(ps, name, 0)
}

/// The reply block for one playlist entry.
pub open spec fn spec_entry_lines(e: PlaylistEntryModel) -> Seq<Seq<char>>
    recommends
        e.id is Some,
        e.last_modified is Some,
{
    seq![
        "file: "@ + e.id.unwrap(),
        "Last-Modified: "@ + e.last_modified.unwrap(),
        "Artist: "@ + spec_join_sep(e.artists, ";"@),
        "AlbumArtist: "@ + spec_join_sep(e.album_artists, ";"@),
        "Title: "@ + e.title,
        "Album: "@ + e.album,
        "Time: "@ + spec_u64_dec((e.duration_ms / 1000) as nat),
        "duration: "@ + spec_u64_dec((e.duration_ms / 1000) as nat),
    ]
}

/// The `listplaylistinfo` track block from entry `i` on: one block per
/// entry, cut short at the first local item (local items are unplayable
/// here).
pub open spec fn spec_playlist_tracks_lines_from(es: Seq<PlaylistEntryModel>, i: int) -> Seq<
    Seq<char>,
>
    recommends
        0 <= i <= es.len(),
    decreases es.len() - i when 0 <= i <= es.len()
{
    if i >= es.len() {
        Seq::empty()
    } else if es[i].is_local {
        Seq::empty()
    } else {
        spec_entry_lines(es[i]) + spec_playlist_tracks_lines_from(es, i + 1)
    }
}

/// The `listplaylistinfo` track block.
pub open spec fn spec_playlist_tracks_lines(es: Seq<PlaylistEntryModel>) -> Seq<Seq<char>> {
    spec_playlist_tracks_lines_from(es, 0)
}

/// `listplaylistinfo <name>`: list the tracks of the named playlist.  The
/// two catalog answers it needs (the playlist list, then the named
/// playlist's tracks) are fetched outside the library and handed in.
pub struct ListPlaylistInfoCommand;

impl ListPlaylistInfoCommand {
    /// The verbs this command answers to.
    pub fn get_type(&self) -> (r: Vec<&'static str>)
        ensures
            r@.len() == 1,
            r@[0]@ == "listplaylistinfo"@,
    {
        vec!["listplaylistinfo"]
    }

    /// The first playlist carrying the given name, if any.
    pub fn get_playlist_by_name(&self, playlists: &Vec<Playlist>, name: &str) -> (r: Option<
        Playlist,
    >)
        ensures
            ({
                let ps = playlists@.map_values(|p: Playlist| p@);
                match r {
                    Some(p) => spec_find_playlist(ps, name@) matches Some(i) && p@ == ps[i],
                    None => (spec_find_playlist(ps, name@) is None),
                }
            }),
    {
        let ghost ps = playlists@.map_values(|p: Playlist| p@);
        let mut i: usize = 0;
        while i < playlists.len()
            invariant
                ps == playlists@.map_values(|p: Playlist| p@),
                i <= playlists.len(),
                spec_find_playlist_from(ps, name@, 0) == spec_find_playlist_from(
                    ps,
                    name@,
                    i as int,
                ),
            decreases playlists.len() - i,
        {
            if crate::strutil::str_eq(playlists[i].name.as_str(), name) {
                return Some(playlists[i].clone());
            }
            i = i + 1;
        }
        None
    }

    /// Semicolon-join a list of artist names.
    pub fn get_artists(&self, artists: &Vec<String>) -> (r: String)
        ensures
            r@ == spec_join_sep(artists@.map_values(|s: String| s@), ";"@),
    {
        join_sep(artists, ";")
    }

    /// Render the track block for the fetched entries; a failed fetch
    /// (`None`) yields no lines — listing is best-effort.
    pub fn execute(&self, tracks: &Option<Vec<PlaylistEntry>>) -> (r: Vec<String>)
        requires
            match tracks {
                Some(es) => forall|j: int|
                    0 <= j < es@.len() && !(#[trigger] es@[j])@.is_local ==> es@[j]@.id is Some
                        && es@[j]@.last_modified is Some,
                None => true,
            },
        ensures
            match tracks {
                Some(es) => r@.map_values(|l: String| l@) == spec_playlist_tracks_lines(
                    es@.map_values(|e: PlaylistEntry| e@),
                ),
                None => r@.len() == 0,
            },
    {
        let mut out: Vec<String> = Vec::new();
        match tracks {
            Some(es) => {
                let ghost views = es@.map_values(|e: PlaylistEntry| e@);
                let mut i: usize = 0;
                let mut stopped = false;
                while !stopped && i < es.len()
                    invariant
                        views == es@.map_values(|e: PlaylistEntry| e@),
                        forall|j: int|
                            0 <= j < es@.len() && !(#[trigger] es@[j])@.is_local ==> es@[j]@.id
                                is Some && es@[j]@.last_modified is Some,
                        i <= es.len(),
                        spec_playlist_tracks_lines_from(views, 0) == out@.map_values(
                            |l: String| l@,
                        ) + if stopped {
                            Seq::<Seq<char>>::empty()
                        } else {
                            spec_playlist_tracks_lines_from(views, i as int)
                        },
                    decreases es.len() - i, (if stopped { 0int } else { 1int }),
                {
                    let e = &es[i];
                    if e.is_local {
                        stopped = true;
                    } else {
                        let ghost before = out@.map_values(|l: String| l@);
                        out.push(concat2("file: ", e.id.as_ref().unwrap().as_str()));
                        out.push(concat2(
                            "Last-Modified: ",
                            e.last_modified.as_ref().unwrap().as_str(),
                        ));
                        let artists = self.get_artists(&e.artists);
                        out.push(concat2("Artist: ", artists.as_str()));
                        let album_artists = self.get_artists(&e.album_artists);
                        out.push(concat2("AlbumArtist: ", album_artists.as_str()));
                        out.push(concat2("Title: ", e.title.as_str()));
                        out.push(concat2("Album: ", e.album.as_str()));
                        let secs = u64_to_string((e.duration_ms / 1000) as u64);
                        out.push(concat2("Time: ", secs.as_str()));
                        out.push(concat2("duration: ", secs.as_str()));
                        proof {
                            assert(out@.map_values(|l: String| l@) =~= before + spec_entry_lines(
                                views[i as int],
                            ));
                        }
                        i = i + 1;
                    }
                }
                proof {
                    if !stopped {
                        assert(spec_playlist_tracks_lines_from(views, i as int)
                            =~= Seq::<Seq<char>>::empty());
                    }
                    assert(out@.map_values(|l: String| l@) =~= spec_playlist_tracks_lines(views));
                }
            }
            None => {}
        }
        out
    }
}

/// The value of a parsed index argument: present exactly when the
/// argument was extracted and is all digits with a value that fits the
/// machine's index type.
pub open spec fn spec_parse_index(arg: Option<Seq<char>>) -> Option<int> {
    match arg {
        Some(s) => if s.len() > 0 && crate::strutil::spec_all_digits(s) && spec_digits_val(s)
            <= usize::MAX {
            Some(spec_digits_val(s) as int)
        } else {
            None
        },
        None => None,
    }
}

/// `add <id>` / `addid <id>`: resolve a catalog id and append the track.
/// The resolution happens outside the library; this command takes its
/// outcome.
pub struct AddCommand;

impl AddCommand {
    /// The verbs this command answers to.
    pub fn get_type(&self) -> (r: Vec<&'static str>)
        ensures
            r@.len() == 2,
            r@[0]@ == "add"@,
            r@[1]@ == "addid"@,
    {
        vec!["add", "addid"]
    }

    /// Append the resolved track and answer with its position; a failed
    /// resolution (or one without an id) is this command's whole purpose,
    /// so it answers with an error line.
    pub fn execute(&self, queue: &mut Queue, resolved: &Option<Track>) -> (r: Vec<String>)
        requires
            old(queue)@.wf(),
            old(queue)@.tracks.len() < usize::MAX,
        ensures
            match resolved {
                Some(t) => if t@.id is Some {
                    &&& final(queue)@ == crate::queue::append_model(old(queue)@, t@)
                    &&& r@.map_values(|l: String| l@) == seq![
                        "Id: "@ + spec_u64_dec(old(queue)@.tracks.len()),
                    ]
                } else {
                    &&& final(queue)@ == old(queue)@
                    &&& r@.map_values(|l: String| l@) == seq![
                        spec_ack_line(ACK_ERROR_NO_EXIST as nat, "add"@, "track not found"@),
                    ]
                },
                None => {
                    &&& final(queue)@ == old(queue)@
                    &&& r@.map_values(|l: String| l@) == seq![
                        spec_ack_line(ACK_ERROR_NO_EXIST as nat, "add"@, "track not found"@),
                    ]
                },
            },
            final(queue)@.wf(),
    {
        let mut out: Vec<String> = Vec::new();
        match resolved {
            Some(track) => {
                if track.id.is_some() {
                    let song_id = queue.append(track);
                    let id_str = u64_to_string(song_id as u64);
                    out.push(concat2("Id: ", id_str.as_str()));
                } else {
                    out.push(ack_line(ACK_ERROR_NO_EXIST, "add", "track not found"));
                }
            }
            None => {
                out.push(ack_line(ACK_ERROR_NO_EXIST, "add", "track not found"));
            }
        }
        proof {
            assert(out@.map_values(|l: String| l@) =~= out@.map_values(|l: String| l@));
        }
        out
    }
}

/// `play <index>` / `playid <index>`: start playback at an index.
pub struct PlayCommand;

impl PlayCommand {
    /// The verbs this command answers to.
    pub fn get_type(&self) -> (r: Vec<&'static str>)
        ensures
            r@.len() == 2,
            r@[0]@ == "play"@,
            r@[1]@ == "playid"@,
    {
        vec!["play", "playid"]
    }

    /// Play the given index (an out-of-range index is the queue's no-op);
    /// a missing or malformed index is a protocol error.
    pub fn execute(&self, queue: &mut Queue, arg: &Option<String>) -> (r: Vec<String>)
        requires
            old(queue)@.wf(),
        ensures
            ({
                let parsed = spec_parse_index(crate::track::view_opt_string(*arg));
                match parsed {
                    Some(i) => final(queue)@ == play_model(old(queue)@, i) && r@.len() == 0,
                    None => final(queue)@ == old(queue)@ && r@.map_values(|l: String| l@)
                        == seq![
                        spec_ack_line(ACK_ERROR_ARG as nat, "play"@, "bad song index"@),
                    ],
                }
            }),
            final(queue)@.wf(),
    {
        let mut out: Vec<String> = Vec::new();
        let mut parsed: Option<usize> = None;
        match arg {
            Some(s) => {
                parsed = parse_usize(s.as_str());
            }
            None => {}
        }
        match parsed {
            Some(index) => {
                queue.play(index);
            }
            None => {
                out.push(ack_line(ACK_ERROR_ARG, "play", "bad song index"));
            }
        }
        out
    }
}

/// `pause`: toggle between playing and paused.
pub struct PauseCommand;

impl PauseCommand {
    /// The verbs this command answers to.
    pub fn get_type(&self) -> (r: Vec<&'static str>)
        ensures
            r@.len() == 1,
            r@[0]@ == "pause"@,
    {
        vec!["pause"]
    }

    /// Issue `Pause` while playing, else `Play`.
    pub fn execute(&self, queue: &mut Queue) -> (r: Vec<String>)
        requires
            old(queue)@.wf(),
        ensures
            final(queue)@ == toggle_playback_model(old(queue)@),
            final(queue)@.wf(),
            r@.len() == 0,
    {
        queue.toggle_playback();
        Vec::new()
    }
}

/// `next`: advance to the following track.
pub struct NextCommand;

impl NextCommand {
    /// The verbs this command answers to.
    pub fn get_type(&self) -> (r: Vec<&'static str>)
        ensures
            r@.len() == 1,
            r@[0]@ == "next"@,
    {
        vec!["next"]
    }

    /// Play the following index, or stop at the end.
    pub fn execute(&self, queue: &mut Queue) -> (r: Vec<String>)
        requires
            old(queue)@.wf(),
        ensures
            final(queue)@ == next_model(old(queue)@),
            final(queue)@.wf(),
            r@.len() == 0,
    {
        queue.next();
        Vec::new()
    }
}

/// `prev`: go back to the preceding track.
pub struct PrevCommand;

impl PrevCommand {
    /// The verbs this command answers to.
    pub fn get_type(&self) -> (r: Vec<&'static str>)
        ensures
            r@.len() == 1,
            r@[0]@ == "prev"@,
    {
        vec!["prev"]
    }

    /// Play the preceding index, or stop at the start.
    pub fn execute(&self, queue: &mut Queue) -> (r: Vec<String>)
        requires
            old(queue)@.wf(),
        ensures
            final(queue)@ == previous_model(old(queue)@),
            final(queue)@.wf(),
            r@.len() == 0,
    {
        queue.previous();
        Vec::new()
    }
}

/// `clear`: stop playback and empty the queue.
pub struct ClearCommand;

impl ClearCommand {
    /// The verbs this command answers to.
    pub fn get_type(&self) -> (r: Vec<&'static str>)
        ensures
            r@.len() == 1,
            r@[0]@ == "clear"@,
    {
        vec!["clear"]
    }

    /// Stop and empty the queue.
    pub fn execute(&self, queue: &mut Queue) -> (r: Vec<String>)
        requires
            old(queue)@.wf(),
        ensures
            final(queue)@ == clear_model(old(queue)@),
            final(queue)@.wf(),
            r@.len() == 0,
    {
        queue.clear();
        Vec::new()
    }
}

/// The `playlistinfo` reply: every queued track's block, in play order,
/// each at its position.
pub open spec fn spec_playlistinfo_lines(tracks: Seq<TrackModel>) -> Seq<Seq<char>>
    decreases tracks.len(),
{
    if tracks.len() == 0 {
        Seq::empty()
    } else {
        spec_playlistinfo_lines(tracks.drop_last()) + spec_mpd_format(
            tracks.last(),
            tracks.len() - 1,
        )
    }
}

/// `playlistinfo` / `plchanges`: list the whole queue.
pub struct PlaylistInfoCommand;

impl PlaylistInfoCommand {
    /// The verbs this command answers to.
    pub fn get_type(&self) -> (r: Vec<&'static str>)
        ensures
            r@.len() == 2,
            r@[0]@ == "playlistinfo"@,
            r@[1]@ == "plchanges"@,
    {
        vec!["playlistinfo", "plchanges"]
    }

    /// Render every queued track's block.
    pub fn execute(&self, queue: &Queue) -> (r: Vec<String>)
        requires
            queue@.wf(),
            queue@.tracks.len() <= i32::MAX,
        ensures
            r@.map_values(|l: String| l@) == spec_playlistinfo_lines(queue@.tracks),
    {
        let mut out: Vec<String> = Vec::new();
        let mut pos: usize = 0;
        proof {
            assert(queue@.tracks.len() == queue.queue@.len());
        }
        while pos < queue.queue.len()
            invariant
                queue@.wf(),
                queue@.tracks.len() <= i32::MAX,
                queue@.tracks.len() == queue.queue@.len(),
                pos <= queue.queue@.len(),
                out@.map_values(|l: String| l@) == spec_playlistinfo_lines(
                    queue@.tracks.take(pos as int),
                ),
            decreases queue.queue@.len() - pos,
        {
            let ghost before = out@.map_values(|l: String| l@);
            proof {
                assert(queue@.tracks[pos as int].id is Some);
            }
            let mut block = queue.queue[pos].to_mpd_format(pos as i32);
            out.append(&mut block);
            proof {
                assert(queue@.tracks.take(pos + 1).drop_last() =~= queue@.tracks.take(pos as int));
                assert(queue@.tracks.take(pos + 1).last() == queue@.tracks[pos as int]);
                assert(out@.map_values(|l: String| l@) =~= before + spec_mpd_format(
                    queue@.tracks[pos as int],
                    pos as int,
                ));
                assert(out@.map_values(|l: String| l@) =~= spec_playlistinfo_lines(
                    queue@.tracks.take(pos + 1),
                ));
            }
            pos = pos + 1;
        }
        proof {
            assert(queue@.tracks.take(queue@.tracks.len() as int) =~= queue@.tracks);
        }
        out
    }
}

/// `currentsong`: the current track's block, at position zero.
pub struct CurrentSongCommand;

impl CurrentSongCommand {
    /// The verbs this command answers to.
    pub fn get_type(&self) -> (r: Vec<&'static str>)
        ensures
            r@.len() == 1,
            r@[0]@ == "currentsong"@,
    {
        vec!["currentsong"]
    }

    /// Render the current track's block (nothing when nothing is current).
    pub fn execute(&self, queue: &Queue) -> (r: Vec<String>)
        requires
            queue@.wf(),
        ensures
            match queue@.current {
                Some(i) => r@.map_values(|l: String| l@) == spec_mpd_format(
                    queue@.tracks[i],
                    0,
                ),
                None => r@.len() == 0,
            },
    {
        match queue.get_current() {
            Some(track) => {
                proof {
                    let i = queue@.current.unwrap();
                    assert(queue@.tracks[i].id is Some);
                }
                track.to_mpd_format(0)
            }
            None => Vec::new(),
        }
    }
}

/// The value of a parsed volume argument: present exactly when the
/// argument is all digits and fits the volume word (the queue clamps it
/// to the 0..=100 scale afterwards).
pub open spec fn spec_parse_volume(arg: Option<Seq<char>>) -> Option<u16> {
    match arg {
        Some(s) => if s.len() > 0 && crate::strutil::spec_all_digits(s) && spec_digits_val(s)
            <= u16::MAX {
            Some(spec_digits_val(s) as u16)
        } else {
            None
        },
        None => None,
    }
}

/// `setvol <0-100>`: set the absolute volume.
pub struct SetVolCommand;

impl SetVolCommand {
    /// The verbs this command answers to.
    pub fn get_type(&self) -> (r: Vec<&'static str>)
        ensures
            r@.len() == 1,
            r@[0]@ == "setvol"@,
    {
        vec!["setvol"]
    }

    /// Store and forward the volume; a missing or malformed level is a
    /// protocol error.
    pub fn execute(&self, queue: &mut Queue, arg: &Option<String>) -> (r: Vec<String>)
        requires
            old(queue)@.wf(),
        ensures
            ({
                let parsed = spec_parse_volume(crate::track::view_opt_string(*arg));
                match parsed {
                    Some(v) => final(queue)@ == set_volume_model(old(queue)@, v) && r@.len()
                        == 0,
                    None => final(queue)@ == old(queue)@ && r@.map_values(|l: String| l@)
                        == seq![
                        spec_ack_line(ACK_ERROR_ARG as nat, "setvol"@, "bad volume level"@),
                    ],
                }
            }),
            final(queue)@.wf(),
    {
        let mut out: Vec<String> = Vec::new();
        let mut parsed: Option<u16> = None;
        match arg {
            Some(s) => {
                match parse_u64(s.as_str()) {
                    Some(v) => {
                        if v <= u16::MAX as u64 {
                            parsed = Some(v as u16);
                        }
                    }
                    None => {}
                }
            }
            None => {}
        }
        match parsed {
            Some(level) => {
                queue.set_volume(level);
            }
            None => {
                out.push(ack_line(ACK_ERROR_ARG, "setvol", "bad volume level"));
            }
        }
        out
    }
}

/// The volume after applying a signed delta, clamped to the 0..=100 scale.
pub open spec fn spec_apply_volume_delta(volume: int, delta: int) -> int {
    if volume + delta < 0 {
        0
    } else if volume + delta > 100 {
        100
    } else {
        volume + delta
    }
}

/// `volume <±delta>`: adjust the volume by a signed amount, clamping at
/// the ends of the scale.
pub struct VolumeCommand;

impl VolumeCommand {
    /// The verbs this command answers to.
    pub fn get_type(&self) -> (r: Vec<&'static str>)
        ensures
            r@.len() == 1,
            r@[0]@ == "volume"@,
    {
        vec!["volume"]
    }

    /// Apply a signed delta to the stored volume, clamped to the scale; a
    /// missing or malformed delta is a protocol error.
    pub fn execute(&self, queue: &mut Queue, arg: &Option<String>) -> (r: Vec<String>)
        requires
            old(queue)@.wf(),
        ensures
            ({
                match crate::track::view_opt_string(*arg) {
                    Some(s) => if crate::strutil::spec_is_signed_decimal(s)
                        && crate::strutil::spec_signed_val(s) <= i32::MAX
                        && crate::strutil::spec_signed_val(s) >= i32::MIN {
                        let v = spec_apply_volume_delta(
                            old(queue)@.volume,
                            crate::strutil::spec_signed_val(s),
                        );
                        final(queue)@ == set_volume_model(old(queue)@, v as u16) && r@.len() == 0
                    } else {
                        final(queue)@ == old(queue)@ && r@.map_values(|l: String| l@) == seq![
                            spec_ack_line(ACK_ERROR_ARG as nat, "volume"@, "bad volume delta"@),
                        ]
                    },
                    None => final(queue)@ == old(queue)@ && r@.map_values(|l: String| l@)
                        == seq![
                        spec_ack_line(ACK_ERROR_ARG as nat, "volume"@, "bad volume delta"@),
                    ],
                }
            }),
            final(queue)@.wf(),
    {
        let mut out: Vec<String> = Vec::new();
        let mut parsed: Option<i32> = None;
        match arg {
            Some(s) => {
                parsed = parse_i32(s.as_str());
            }
            None => {}
        }
        match parsed {
            Some(delta) => {
                let cur = queue.get_volume() as i64;
                let shifted = cur + delta as i64;
                let clamped: u16 = if shifted < 0 {
                    0
                } else if shifted > 100 {
                    100
                } else {
                    shifted as u16
                };
                queue.set_volume(clamped);
            }
            None => {
                out.push(ack_line(ACK_ERROR_ARG, "volume", "bad volume delta"));
            }
        }
        out
    }
}

/// `deleteid <index>`: remove the track at an index.
pub struct DeleteIdCommand;

impl DeleteIdCommand {
    /// The verbs this command answers to.
    pub fn get_type(&self) -> (r: Vec<&'static str>)
        ensures
            r@.len() == 1,
            r@[0]@ == "deleteid"@,
    {
        vec!["deleteid"]
    }

    /// Remove the given index (out of range is the queue's quiet no-op);
    /// a missing or malformed index is a protocol error.
    pub fn execute(&self, queue: &mut Queue, arg: &Option<String>) -> (r: Vec<String>)
        requires
            old(queue)@.wf(),
        ensures
            ({
                let parsed = spec_parse_index(crate::track::view_opt_string(*arg));
                match parsed {
                    Some(i) => final(queue)@ == remove_model(old(queue)@, i) && r@.len() == 0,
                    None => final(queue)@ == old(queue)@ && r@.map_values(|l: String| l@)
                        == seq![
                        spec_ack_line(ACK_ERROR_ARG as nat, "deleteid"@, "bad song index"@),
                    ],
                }
            }),
            final(queue)@.wf(),
    {
        let mut out: Vec<String> = Vec::new();
        let mut parsed: Option<usize> = None;
        match arg {
            Some(s) => {
                parsed = parse_usize(s.as_str());
            }
            None => {}
        }
        match parsed {
            Some(index) => {
                queue.remove(index);
            }
            None => {
                out.push(ack_line(ACK_ERROR_ARG, "deleteid", "bad song index"));
            }
        }
        out
    }
}


/// The `urlhandlers` reply: the one scheme this server plays.
pub open spec fn spec_urlhandlers_lines() -> Seq<Seq<char>> {
    seq!["handler: spotify:"@]
}

/// The `outputs` reply: the single default output.
pub open spec fn spec_outputs_lines() -> Seq<Seq<char>> {
    seq![
        "outputsoutputid: 0"@,
        "outputname: default detected output"@,
        "plugin: alsa"@,
        "outputenabled: 1"@,
        "attribute: allowed_formats="@,
        "attribute: dop=0"@,
    ]
}

/// The `decoders` reply.
pub open spec fn spec_decoders_lines() -> Seq<Seq<char>> {
    seq![
        "plugin: mad"@,
        "suffix: mp3"@,
        "suffix: mp2"@,
        "mime_type: audio/mpeg"@,
        "plugin: mpcdec"@,
        "suffix: mpc"@,
    ]
}

/// The `tagtypes` reply.
pub open spec fn spec_tagtypes_lines() -> Seq<Seq<char>> {
    seq![
        "tagtype: Artist"@,
        "tagtype: ArtistSort"@,
        "tagtype: Album"@,
        "tagtype: AlbumSort"@,
        "tagtype: AlbumArtist"@,
        "tagtype: AlbumArtistSort"@,
        "tagtype: Title"@,
        "tagtype: Name"@,
        "tagtype: Genre"@,
        "tagtype: Date"@,
    ]
}

/// The `commands` reply: every verb the registry answers to, then the
/// introspection verbs.
pub open spec fn spec_commands_lines() -> Seq<Seq<char>> {
    seq![
        "command: "@ + "status"@,
        "command: "@ + "stats"@,
        "command: "@ + "listplaylists"@,
        "command: "@ + "listplaylistinfo"@,
        "command: "@ + "add"@,
        "command: "@ + "addid"@,
        "command: "@ + "play"@,
        "command: "@ + "playid"@,
        "command: "@ + "pause"@,
        "command: "@ + "next"@,
        "command: "@ + "prev"@,
        "command: "@ + "clear"@,
        "command: "@ + "playlistinfo"@,
        "command: "@ + "plchanges"@,
        "command: "@ + "currentsong"@,
        "command: "@ + "setvol"@,
        "command: "@ + "volume"@,
        "command: "@ + "deleteid"@,
        "command: "@ + "urlhandlers"@,
        "command: "@ + "outputs"@,
        "command: "@ + "decoders"@,
        "command: "@ + "tagtypes"@,
        "command: "@ + "commands"@,
    ]
}

/// Render the `urlhandlers` reply.
pub fn urlhandlers_lines() -> (r: Vec<String>)
    ensures
        r@.map_values(|l: String| l@) == spec_urlhandlers_lines(),
{
    let mut out: Vec<String> = Vec::new();
    out.push(String::from_str("handler: spotify:"));
    proof {
        assert(out@.map_values(|l: String| l@) =~= spec_urlhandlers_lines());
    }
    out
}

/// Render the `outputs` reply.
pub fn outputs_lines() -> (r: Vec<String>)
    ensures
        r@.map_values(|l: String| l@) == spec_outputs_lines(),
{
    let mut out: Vec<String> = Vec::new();
    out.push(String::from_str("outputsoutputid: 0"));
    out.push(String::from_str("outputname: default detected output"));
    out.push(String::from_str("plugin: alsa"));
    out.push(String::from_str("outputenabled: 1"));
    out.push(String::from_str("attribute: allowed_formats="));
    out.push(String::from_str("attribute: dop=0"));
    proof {
        assert(out@.map_values(|l: String| l@) =~= spec_outputs_lines());
    }
    out
}

/// Render the `decoders` reply.
pub fn decoders_lines() -> (r: Vec<String>)
    ensures
        r@.map_values(|l: String| l@) == spec_decoders_lines(),
{
    let mut out: Vec<String> = Vec::new();
    out.push(String::from_str("plugin: mad"));
    out.push(String::from_str("suffix: mp3"));
    out.push(String::from_str("suffix: mp2"));
    out.push(String::from_str("mime_type: audio/mpeg"));
    out.push(String::from_str("plugin: mpcdec"));
    out.push(String::from_str("suffix: mpc"));
    proof {
        assert(out@.map_values(|l: String| l@) =~= spec_decoders_lines());
    }
    out
}

/// Render the `tagtypes` reply.
pub fn tagtypes_lines() -> (r: Vec<String>)
    ensures
        r@.map_values(|l: String| l@) == spec_tagtypes_lines(),
{
    let mut out: Vec<String> = Vec::new();
    out.push(String::from_str("tagtype: Artist"));
    out.push(String::from_str("tagtype: ArtistSort"));
    out.push(String::from_str("tagtype: Album"));
    out.push(String::from_str("tagtype: AlbumSort"));
    out.push(String::from_str("tagtype: AlbumArtist"));
    out.push(String::from_str("tagtype: AlbumArtistSort"));
    out.push(String::from_str("tagtype: Title"));
    out.push(String::from_str("tagtype: Name"));
    out.push(String::from_str("tagtype: Genre"));
    out.push(String::from_str("tagtype: Date"));
    proof {
        assert(out@.map_values(|l: String| l@) =~= spec_tagtypes_lines());
    }
    out
}

fn push_command_lines(out: &mut Vec<String>, verbs: Vec<&'static str>)
    ensures
        final(out)@.map_values(|l: String| l@) == old(out)@.map_values(|l: String| l@)
            + verbs@.map_values(|v: &'static str| "command: "@ + v@),
{
    let ghost vviews = verbs@.map_values(|v: &'static str| "command: "@ + v@);
    let ghost before = out@.map_values(|l: String| l@);
    let mut i: usize = 0;
    while i < verbs.len()
        invariant
            vviews == verbs@.map_values(|v: &'static str| "command: "@ + v@),
            i <= verbs.len(),
            out@.map_values(|l: String| l@) == before + vviews.take(i as int),
        decreases verbs.len() - i,
    {
        let ghost prev = out@.map_values(|l: String| l@);
        out.push(concat2("command: ", verbs[i]));
        proof {
            assert(vviews[i as int] == "command: "@ + verbs@[i as int]@);
            assert(vviews.take(i + 1) =~= vviews.take(i as int).push(vviews[i as int]));
            assert(out@.map_values(|l: String| l@) =~= prev.push(vviews[i as int]));
            assert(prev.push(vviews[i as int]) =~= before + vviews.take(i + 1));
        }
        i = i + 1;
    }
    proof {
        assert(vviews.take(verbs@.len() as int) =~= vviews);
    }
}

/// Render the `commands` reply from the registry's own verb lists.
pub fn commands_lines() -> (r: Vec<String>)
    ensures
        r@.map_values(|l: String| l@) == spec_commands_lines(),
{
    let mut out: Vec<String> = Vec::new();
    push_command_lines(&mut out, StatusCommand.get_type());
    push_command_lines(&mut out, StatsCommand.get_type());
    push_command_lines(&mut out, ListPlaylistsCommand.get_type());
    push_command_lines(&mut out, ListPlaylistInfoCommand.get_type());
    push_command_lines(&mut out, AddCommand.get_type());
    push_command_lines(&mut out, PlayCommand.get_type());
    push_command_lines(&mut out, PauseCommand.get_type());
    push_command_lines(&mut out, NextCommand.get_type());
    push_command_lines(&mut out, PrevCommand.get_type());
    push_command_lines(&mut out, ClearCommand.get_type());
    push_command_lines(&mut out, PlaylistInfoCommand.get_type());
    push_command_lines(&mut out, CurrentSongCommand.get_type());
    push_command_lines(&mut out, SetVolCommand.get_type());
    push_command_lines(&mut out, VolumeCommand.get_type());
    push_command_lines(&mut out, DeleteIdCommand.get_type());
    let mut intro: Vec<&'static str> = Vec::new();
    intro.push("urlhandlers");
    intro.push("outputs");
    intro.push("decoders");
    intro.push("tagtypes");
    intro.push("commands");
    push_command_lines(&mut out, intro);
    proof {
        assert(out@.map_values(|l: String| l@) =~= spec_commands_lines());
    }
    out
}

} // verus!
