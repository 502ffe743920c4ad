use spotmpd::mpd::mpd_commands::{Playlist, PlaylistEntry};
use spotmpd::mpd::{
    BatchRun, BatchStep, CatalogAnswer, CatalogRequest, MpdRequestHandler, SubsystemEvent,
};
use spotmpd::queue::Queue;
use spotmpd::respot::PlayerEvent;
use spotmpd::track::Track;

fn track(id: &str, title: &str) -> Track {
    Track {
        id: Some(id.to_string()),
        title: title.to_string(),
        track_number: 3,
        disc_number: 1,
        duration: 150_500,
        artists: vec!["Someone".to_string()],
        album: "Some Album".to_string(),
        album_id: None,
        album_artists: vec!["Someone".to_string()],
        url: format!("spotify:track:{}", id),
        added_at: None,
        date: "1999".to_string(),
    }
}

/// Drive one batch to completion, answering catalog requests with the
/// given function.
fn run_batch<F>(
    queue: &mut Queue,
    lines: &[&str],
    catalog: F,
    now_ms: u64,
) -> (String, Vec<SubsystemEvent>)
where
    F: Fn(&CatalogRequest) -> CatalogAnswer,
{
    let mut batch = BatchRun::new(lines.iter().map(|l| l.to_string()).collect());
    let mut answer: Option<CatalogAnswer> = None;
    loop {
        match batch.step(queue, answer.take(), now_ms) {
            BatchStep::Fetch(req) => {
                answer = Some(catalog(&req));
            }
            BatchStep::Continue => {}
            BatchStep::Done(response, changed) => return (response, changed),
        }
    }
}

fn no_catalog(_req: &CatalogRequest) -> CatalogAnswer {
    CatalogAnswer::Track(None)
}

#[test]
fn empty_batch_answers_ok() {
    let mut q = Queue::new();
    let (resp, changed) = run_batch(&mut q, &[], no_catalog, 0);
    assert_eq!(resp, "OK\n");
    assert!(changed.is_empty());
}

#[test]
fn unknown_verb_is_silent_not_an_error() {
    let mut q = Queue::new();
    let (resp, _) = run_batch(&mut q, &["lsinfo"], no_catalog, 0);
    assert_eq!(resp, "OK\n");
}

#[test]
fn status_on_fresh_queue() {
    let mut q = Queue::new();
    let (resp, _) = run_batch(&mut q, &["status"], no_catalog, 0);
    assert_eq!(
        resp,
        "repeat: 0\nrandom: 0\nsingle: 0\nconsume: 0\nplaylist: 1\nmixrampdb: 0.00000\n\
         volume: 100\nplaylistlength: 0\nstate: stop\nOK\n"
    );
}

#[test]
fn stats_reply() {
    let mut q = Queue::new();
    let (resp, _) = run_batch(&mut q, &["stats"], no_catalog, 0);
    assert_eq!(resp, "uptime: 0\nplaytime: 0\nOK\n");
}

#[test]
fn end_to_end_add_play_status_and_auto_advance() {
    let mut q = Queue::new();
    let t = track("ABC", "Song");
    // `add` on an empty queue answers with position zero
    let (resp, changed) = run_batch(
        &mut q,
        &["add spotify:track:ABC"],
        |req| match req {
            CatalogRequest::GetTrack(id) => {
                assert_eq!(id, "spotify:track:ABC");
                CatalogAnswer::Track(Some(track("ABC", "Song")))
            }
            _ => panic!("unexpected catalog request"),
        },
        0,
    );
    assert_eq!(resp, "Id: 0\nOK\n");
    assert_eq!(changed, vec![SubsystemEvent::Playlist]);
    let _ = t;

    // `playid 0` starts playback; the playing event confirms it
    let (resp, changed) = run_batch(&mut q, &["playid 0"], no_catalog, 0);
    assert_eq!(resp, "OK\n");
    assert_eq!(changed, vec![SubsystemEvent::Player]);
    q.drain_commands();
    q.handle_event(PlayerEvent::Playing, 1_000);

    let (resp, _) = run_batch(&mut q, &["status"], no_catalog, 2_000);
    assert!(resp.contains("state: play\n"));
    assert!(resp.contains("song: 0\n"));
    assert!(resp.contains("songid: 0\n"));
    assert!(resp.contains("playlistlength: 1\n"));
    assert!(resp.contains("elapsed: 1.000\n"));
    assert!(resp.contains("duration: 150\n"));
    assert!(resp.contains("time: 1:150\n"));

    // simulated end of track auto-advances to stopped without any client
    q.handle_event(PlayerEvent::FinishedTrack, 3_000);
    let (resp, _) = run_batch(&mut q, &["status"], no_catalog, 4_000);
    assert!(resp.contains("state: stop\n"));
    assert!(resp.contains("playlistlength: 1\n"));
    assert_eq!(q.len(), 1);
}

#[test]
fn batch_stops_at_first_error_line() {
    let mut q = Queue::new();
    let (resp, changed) = run_batch(
        &mut q,
        &["stats", "setvol notanumber", "setvol 50"],
        no_catalog,
        0,
    );
    // the failing command's error line is the last line written,
    // and no trailing OK is sent
    assert_eq!(
        resp,
        "uptime: 0\nplaytime: 0\nACK [2@0] {setvol} bad volume level"
    );
    // the command after the failing one never executed
    assert_eq!(q.get_volume(), 100);
    assert!(changed.is_empty());
}

#[test]
fn batch_runs_all_commands_when_none_fails() {
    let mut q = Queue::new();
    let (resp, changed) = run_batch(&mut q, &["setvol 20", "volume +5"], no_catalog, 0);
    assert_eq!(resp, "OK\n");
    assert_eq!(q.get_volume(), 25);
    assert_eq!(changed, vec![SubsystemEvent::Mixer, SubsystemEvent::Mixer]);
}

#[test]
fn volume_delta_clamps_at_both_ends() {
    let mut q = Queue::new();
    run_batch(&mut q, &["volume +40"], no_catalog, 0);
    assert_eq!(q.get_volume(), 100);
    run_batch(&mut q, &["volume -300"], no_catalog, 0);
    assert_eq!(q.get_volume(), 0);
    run_batch(&mut q, &["volume +15"], no_catalog, 0);
    assert_eq!(q.get_volume(), 15);
}

#[test]
fn bad_arguments_answer_with_error_lines() {
    let mut q = Queue::new();
    let (resp, _) = run_batch(&mut q, &["play zz"], no_catalog, 0);
    assert_eq!(resp, "ACK [2@0] {play} bad song index");
    let (resp, _) = run_batch(&mut q, &["volume x"], no_catalog, 0);
    assert_eq!(resp, "ACK [2@0] {volume} bad volume delta");
    let (resp, _) = run_batch(&mut q, &["deleteid x"], no_catalog, 0);
    assert_eq!(resp, "ACK [2@0] {deleteid} bad song index");
    let (resp, _) = run_batch(&mut q, &["add"], no_catalog, 0);
    assert_eq!(resp, "ACK [2@0] {add} missing track id");
    let (resp, _) = run_batch(&mut q, &["listplaylistinfo"], no_catalog, 0);
    assert_eq!(resp, "ACK [2@0] {listplaylistinfo} missing playlist name");
}

#[test]
fn failed_track_resolution_answers_with_error_line() {
    let mut q = Queue::new();
    let (resp, changed) = run_batch(
        &mut q,
        &["add spotify:track:NOPE"],
        |_| CatalogAnswer::Track(None),
        0,
    );
    assert_eq!(resp, "ACK [50@0] {add} track not found");
    assert_eq!(q.len(), 0);
    assert!(changed.is_empty());
}

#[test]
fn deleteid_out_of_range_is_quietly_ignored() {
    let mut q = Queue::new();
    let (resp, _) = run_batch(&mut q, &["deleteid 5"], no_catalog, 0);
    assert_eq!(resp, "OK\n");
}

#[test]
fn listplaylists_lists_names_with_placeholder_times() {
    let mut q = Queue::new();
    let (resp, _) = run_batch(
        &mut q,
        &["listplaylists"],
        |req| match req {
            CatalogRequest::GetPlaylists => CatalogAnswer::Playlists(Some(vec![
                Playlist {
                    id: "p1".to_string(),
                    name: "Morning".to_string(),
                },
                Playlist {
                    id: "p2".to_string(),
                    name: "Evening".to_string(),
                },
            ])),
            _ => panic!("unexpected catalog request"),
        },
        0,
    );
    assert_eq!(
        resp,
        "playlist: Morning\nLast-Modified: 1970-01-01T00:00:00Z\n\
         playlist: Evening\nLast-Modified: 1970-01-01T00:00:00Z\nOK\n"
    );
}

#[test]
fn listplaylists_failure_is_best_effort_silence() {
    let mut q = Queue::new();
    let (resp, _) = run_batch(
        &mut q,
        &["listplaylists"],
        |_| CatalogAnswer::Playlists(None),
        0,
    );
    assert_eq!(resp, "OK\n");
}

fn entry(id: &str, title: &str, local: bool) -> PlaylistEntry {
    PlaylistEntry {
        is_local: local,
        id: Some(id.to_string()),
        last_modified: Some("2010-05-05".to_string()),
        artists: vec!["X".to_string(), "Y".to_string()],
        album_artists: vec!["X".to_string()],
        title: title.to_string(),
        album: "An Album".to_string(),
        duration_ms: 61_000,
    }
}

#[test]
fn listplaylistinfo_lists_tracks_of_named_playlist() {
    let mut q = Queue::new();
    let (resp, _) = run_batch(
        &mut q,
        &["listplaylistinfo \"Morning\""],
        |req| match req {
            CatalogRequest::GetPlaylists => CatalogAnswer::Playlists(Some(vec![Playlist {
                id: "p1".to_string(),
                name: "Morning".to_string(),
            }])),
            CatalogRequest::GetPlaylistTracks(id) => {
                assert_eq!(id, "p1");
                CatalogAnswer::PlaylistTracks(Some(vec![entry("t1", "One", false)]))
            }
            _ => panic!("unexpected catalog request"),
        },
        0,
    );
    assert_eq!(
        resp,
        "file: t1\nLast-Modified: 2010-05-05\nArtist: X;Y\nAlbumArtist: X\n\
         Title: One\nAlbum: An Album\nTime: 61\nduration: 61\nOK\n"
    );
}

#[test]
fn listplaylistinfo_stops_at_first_local_entry() {
    let mut q = Queue::new();
    let (resp, _) = run_batch(
        &mut q,
        &["listplaylistinfo Morning"],
        |req| match req {
            CatalogRequest::GetPlaylists => CatalogAnswer::Playlists(Some(vec![Playlist {
                id: "p1".to_string(),
                name: "Morning".to_string(),
            }])),
            CatalogRequest::GetPlaylistTracks(_) => CatalogAnswer::PlaylistTracks(Some(vec![
                entry("t1", "One", false),
                entry("t2", "Two", true),
                entry("t3", "Three", false),
            ])),
            _ => panic!("unexpected catalog request"),
        },
        0,
    );
    // everything from the first local entry on is cut off
    assert!(resp.contains("Title: One\n"));
    assert!(!resp.contains("Title: Two"));
    assert!(!resp.contains("Title: Three"));
}

#[test]
fn listplaylistinfo_unknown_playlist_is_an_error() {
    let mut q = Queue::new();
    let (resp, _) = run_batch(
        &mut q,
        &["listplaylistinfo Nothing"],
        |req| match req {
            CatalogRequest::GetPlaylists => CatalogAnswer::Playlists(Some(vec![Playlist {
                id: "p1".to_string(),
                name: "Morning".to_string(),
            }])),
            _ => panic!("unexpected catalog request"),
        },
        0,
    );
    assert_eq!(resp, "ACK [50@0] {listplaylistinfo} no such playlist");
}

#[test]
fn playlistinfo_and_currentsong_render_track_blocks() {
    let mut q = Queue::new();
    run_batch(
        &mut q,
        &["add x"],
        |_| CatalogAnswer::Track(Some(track("x", "Song X"))),
        0,
    );
    let (resp, _) = run_batch(&mut q, &["playlistinfo"], no_catalog, 0);
    assert_eq!(
        resp,
        "file: x\nArtist: Someone\nAlbumArtist: Someone\nTitle: Song X\nAlbum: Some Album\n\
         Track: 3\nDate: 1999\nTime: 150\nduration: 150\nPos: 0\nId: 0\nOK\n"
    );
    // nothing is current yet, so currentsong stays silent
    let (resp, _) = run_batch(&mut q, &["currentsong"], no_catalog, 0);
    assert_eq!(resp, "OK\n");
    run_batch(&mut q, &["play 0"], no_catalog, 0);
    let (resp, _) = run_batch(&mut q, &["currentsong"], no_catalog, 0);
    assert!(resp.starts_with("file: x\n"));
    assert!(resp.contains("Pos: 0\nId: 0\nOK\n"));
}

#[test]
fn introspection_replies() {
    let mut q = Queue::new();
    let (resp, _) = run_batch(&mut q, &["urlhandlers"], no_catalog, 0);
    assert_eq!(resp, "handler: spotify:\nOK\n");
    let (resp, _) = run_batch(&mut q, &["tagtypes"], no_catalog, 0);
    assert!(resp.starts_with("tagtype: Artist\n"));
    assert!(resp.ends_with("tagtype: Date\nOK\n"));
    let (resp, _) = run_batch(&mut q, &["outputs"], no_catalog, 0);
    assert!(resp.starts_with("outputsoutputid: 0\n"));
    let (resp, _) = run_batch(&mut q, &["decoders"], no_catalog, 0);
    assert!(resp.contains("suffix: mp3\n"));
    let (resp, _) = run_batch(&mut q, &["commands"], no_catalog, 0);
    assert!(resp.contains("command: status\n"));
    assert!(resp.contains("command: addid\n"));
    assert!(resp.contains("command: commands\nOK\n"));
}

#[test]
fn framing_collects_command_lists() {
    let mut h = MpdRequestHandler::new();
    assert_eq!(h.feed_line("command_list_begin".to_string()), None);
    assert_eq!(h.feed_line("setvol 30".to_string()), None);
    assert_eq!(h.feed_line("status".to_string()), None);
    assert_eq!(
        h.feed_line("command_list_end".to_string()),
        Some(vec!["setvol 30".to_string(), "status".to_string()])
    );
    // outside a list every line is its own batch
    assert_eq!(
        h.feed_line("status".to_string()),
        Some(vec!["status".to_string()])
    );
    // the alternative begin marker opens a list too
    assert_eq!(h.feed_line("command_list_ok_begin".to_string()), None);
    assert_eq!(
        h.feed_line("command_list_end".to_string()),
        Some(vec![])
    );
}

#[test]
fn idle_blocks_until_a_change_then_delivers_exactly_one_message() {
    let mut h = MpdRequestHandler::new();
    // no pending changes: no output, the connection waits
    assert_eq!(h.handle_idle(), None);
    assert!(h.is_idle());
    // a mutating command elsewhere notifies a change
    h.notify(SubsystemEvent::Player);
    assert!(h.has_pending());
    let msg = h.take_changed();
    assert_eq!(msg, "changed: player\nOK\n");
    assert!(!h.is_idle());
    assert!(!h.has_pending());
}

#[test]
fn idle_with_pending_changes_answers_immediately() {
    let mut h = MpdRequestHandler::new();
    h.notify(SubsystemEvent::Mixer);
    let msg = h.handle_idle();
    assert_eq!(msg, Some("changed: mixer\nOK\n".to_string()));
    assert!(!h.is_idle());
}

#[test]
fn changed_subsystems_are_deduplicated_and_ordered() {
    let mut h = MpdRequestHandler::new();
    h.notify(SubsystemEvent::Mixer);
    h.notify(SubsystemEvent::Playlist);
    h.notify(SubsystemEvent::Mixer);
    h.notify(SubsystemEvent::Player);
    let msg = h.take_changed();
    assert_eq!(msg, "changed: playlist, player, mixer\nOK\n");
}

#[test]
fn noidle_returns_to_active() {
    let mut h = MpdRequestHandler::new();
    h.handle_idle();
    assert!(h.is_idle());
    h.handle_noidle();
    assert!(!h.is_idle());
}

#[test]
fn status_while_paused_shows_frozen_elapsed() {
    let mut q = Queue::new();
    run_batch(
        &mut q,
        &["add x"],
        |_| CatalogAnswer::Track(Some(track("x", "Song X"))),
        0,
    );
    run_batch(&mut q, &["play 0"], no_catalog, 0);
    q.drain_commands();
    q.handle_event(PlayerEvent::Playing, 1_000);
    q.handle_event(PlayerEvent::Paused, 3_500);
    let (resp, _) = run_batch(&mut q, &["status"], no_catalog, 60_000);
    assert!(resp.contains("state: pause\n"));
    // the elapsed time froze at the pause, however late status is asked
    assert!(resp.contains("elapsed: 2.500\n"));
    assert!(resp.contains("song: 0\n"));
}

#[test]
fn pause_command_toggles_between_play_and_pause() {
    let mut q = Queue::new();
    run_batch(
        &mut q,
        &["add x"],
        |_| CatalogAnswer::Track(Some(track("x", "Song X"))),
        0,
    );
    run_batch(&mut q, &["play 0", "pause"], no_catalog, 0);
    let sent = q.drain_commands();
    // not playing yet when pause ran, so it asked to play
    assert_eq!(
        sent,
        vec![
            spotmpd::respot::PlayerCommand::Load("x".to_string()),
            spotmpd::respot::PlayerCommand::Play,
            spotmpd::respot::PlayerCommand::Play,
        ]
    );
    q.handle_event(PlayerEvent::Playing, 1_000);
    run_batch(&mut q, &["pause"], no_catalog, 0);
    assert_eq!(
        q.drain_commands(),
        vec![spotmpd::respot::PlayerCommand::Pause]
    );
}

#[test]
fn mutating_batch_reports_changed_subsystems_for_idle_clients() {
    let mut q = Queue::new();
    let mut idle_client = MpdRequestHandler::new();
    assert_eq!(idle_client.handle_idle(), None);
    // another connection runs a mutating batch; its changed set is
    // broadcast and lands in this handler
    let (_, changed) = run_batch(&mut q, &["setvol 10"], no_catalog, 0);
    for e in changed {
        idle_client.notify(e);
    }
    assert!(idle_client.is_idle() && idle_client.has_pending());
    assert_eq!(idle_client.take_changed(), "changed: mixer\nOK\n");
    assert!(!idle_client.is_idle());
}
