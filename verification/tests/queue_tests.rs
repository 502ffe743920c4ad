use spotmpd::queue::Queue;
use spotmpd::respot::{PlayerCommand, PlayerEvent};
use spotmpd::track::Track;

fn track(id: &str, title: &str) -> Track {
    Track {
        id: Some(id.to_string()),
        title: title.to_string(),
        track_number: 1,
        disc_number: 1,
        duration: 120_000,
        artists: vec!["Artist A".to_string(), "Artist B".to_string()],
        album: "Album".to_string(),
        album_id: Some("album1".to_string()),
        album_artists: vec!["Artist A".to_string()],
        url: format!("spotify:track:{}", id),
        added_at: None,
        date: "2001-01-01".to_string(),
    }
}

#[test]
fn append_returns_positions_and_length_tracks_appends() {
    let mut q = Queue::new();
    assert_eq!(q.len(), 0);
    assert_eq!(q.append(&track("a", "A")), 0);
    assert_eq!(q.append(&track("b", "B")), 1);
    assert_eq!(q.append(&track("c", "C")), 2);
    assert_eq!(q.len(), 3);
}

#[test]
fn length_is_appends_minus_effective_removes() {
    let mut q = Queue::new();
    for i in 0..5 {
        q.append(&track(&format!("t{}", i), "T"));
    }
    q.remove(2);
    q.remove(0);
    assert_eq!(q.len(), 3);
    // out-of-range removes change nothing
    q.remove(3);
    q.remove(1000);
    assert_eq!(q.len(), 3);
}

#[test]
fn remove_out_of_range_is_noop() {
    let mut q = Queue::new();
    q.append(&track("a", "A"));
    q.remove(7);
    assert_eq!(q.len(), 1);
    assert_eq!(q.get_current_index(), None);
}

#[test]
fn remove_current_not_last_replays_same_index() {
    let mut q = Queue::new();
    q.append(&track("a", "A"));
    q.append(&track("b", "B"));
    q.append(&track("c", "C"));
    q.play(1);
    q.drain_commands();
    q.remove(1);
    // the position now holds track "c" and is replayed at the same index
    assert_eq!(q.get_current_index(), Some(1));
    assert_eq!(q.get_current().unwrap().id.as_deref(), Some("c"));
    let sent = q.drain_commands();
    assert_eq!(
        sent,
        vec![PlayerCommand::Load("c".to_string()), PlayerCommand::Play]
    );
}

#[test]
fn remove_current_last_stops_and_clears_current() {
    let mut q = Queue::new();
    q.append(&track("a", "A"));
    q.append(&track("b", "B"));
    q.play(1);
    q.drain_commands();
    q.remove(1);
    assert_eq!(q.get_current_index(), None);
    assert_eq!(q.get_status(), PlayerEvent::Stopped);
    assert_eq!(q.drain_commands(), vec![PlayerCommand::Stop]);
    assert_eq!(q.len(), 1);
}

#[test]
fn remove_below_current_shifts_index_keeps_track_identity() {
    let mut q = Queue::new();
    q.append(&track("a", "A"));
    q.append(&track("b", "B"));
    q.append(&track("c", "C"));
    q.play(2);
    q.drain_commands();
    q.remove(0);
    assert_eq!(q.get_current_index(), Some(1));
    assert_eq!(q.get_current().unwrap().id.as_deref(), Some("c"));
    // no replay was issued for a removal below the current index
    assert_eq!(q.drain_commands(), vec![]);
}

#[test]
fn next_at_last_index_stops_instead_of_wrapping() {
    let mut q = Queue::new();
    q.append(&track("a", "A"));
    q.append(&track("b", "B"));
    q.play(1);
    q.drain_commands();
    q.next();
    assert_eq!(q.get_current_index(), None);
    assert_eq!(q.get_status(), PlayerEvent::Stopped);
    assert_eq!(q.drain_commands(), vec![PlayerCommand::Stop]);
}

#[test]
fn previous_at_first_index_stops_instead_of_wrapping() {
    let mut q = Queue::new();
    q.append(&track("a", "A"));
    q.append(&track("b", "B"));
    q.play(0);
    q.drain_commands();
    q.previous();
    assert_eq!(q.get_current_index(), None);
    assert_eq!(q.get_status(), PlayerEvent::Stopped);
    assert_eq!(q.drain_commands(), vec![PlayerCommand::Stop]);
}

#[test]
fn next_and_previous_move_to_adjacent_indices() {
    let mut q = Queue::new();
    q.append(&track("a", "A"));
    q.append(&track("b", "B"));
    q.append(&track("c", "C"));
    q.play(1);
    q.next();
    assert_eq!(q.get_current_index(), Some(2));
    q.previous();
    assert_eq!(q.get_current_index(), Some(1));
}

#[test]
fn play_issues_load_then_play_and_out_of_range_is_noop() {
    let mut q = Queue::new();
    q.append(&track("a", "A"));
    q.play(5);
    assert_eq!(q.get_current_index(), None);
    assert_eq!(q.drain_commands(), vec![]);
    q.play(0);
    assert_eq!(q.get_current_index(), Some(0));
    assert_eq!(
        q.drain_commands(),
        vec![PlayerCommand::Load("a".to_string()), PlayerCommand::Play]
    );
}

#[test]
fn clear_stops_and_empties() {
    let mut q = Queue::new();
    q.append(&track("a", "A"));
    q.append(&track("b", "B"));
    q.play(0);
    q.drain_commands();
    q.clear();
    assert_eq!(q.len(), 0);
    assert_eq!(q.get_current_index(), None);
    assert_eq!(q.get_status(), PlayerEvent::Stopped);
    assert_eq!(q.drain_commands(), vec![PlayerCommand::Stop]);
}

#[test]
fn append_next_inserts_after_current() {
    let mut q = Queue::new();
    q.append(&track("a", "A"));
    q.append(&track("b", "B"));
    q.play(0);
    let block = vec![track("x", "X"), track("y", "Y")];
    let first = q.append_next(&block);
    assert_eq!(first, 1);
    let ids: Vec<String> = (0..q.len())
        .map(|i| {
            q.play(i);
            q.get_current().unwrap().id.clone().unwrap()
        })
        .collect();
    assert_eq!(ids, vec!["a", "x", "y", "b"]);
}

#[test]
fn append_next_on_empty_queue_inserts_at_end() {
    let mut q = Queue::new();
    let first = q.append_next(&vec![track("x", "X")]);
    assert_eq!(first, 0);
    assert_eq!(q.len(), 1);
}

#[test]
fn shift_keeps_current_pointing_at_same_track() {
    let mut q = Queue::new();
    q.append(&track("a", "A"));
    q.append(&track("b", "B"));
    q.append(&track("c", "C"));
    q.play(0);
    q.drain_commands();
    // move the current track to the back
    q.shift(0, 2);
    assert_eq!(q.get_current_index(), Some(2));
    assert_eq!(q.get_current().unwrap().id.as_deref(), Some("a"));
    // move another track across the current one
    q.shift(0, 2);
    assert_eq!(q.get_current_index(), Some(1));
    assert_eq!(q.get_current().unwrap().id.as_deref(), Some("a"));
    // out-of-range shift changes nothing
    q.shift(9, 0);
    assert_eq!(q.get_current_index(), Some(1));
}

#[test]
fn set_volume_stores_clamps_and_forwards() {
    let mut q = Queue::new();
    assert_eq!(q.get_volume(), 100);
    q.set_volume(40);
    assert_eq!(q.get_volume(), 40);
    assert_eq!(q.drain_commands(), vec![PlayerCommand::SetVolume(40)]);
    q.set_volume(60000);
    assert_eq!(q.get_volume(), 100);
    assert_eq!(q.drain_commands(), vec![PlayerCommand::SetVolume(100)]);
}

#[test]
fn toggle_playback_pauses_only_while_playing() {
    let mut q = Queue::new();
    q.toggle_playback();
    assert_eq!(q.drain_commands(), vec![PlayerCommand::Play]);
    q.handle_event(PlayerEvent::Playing, 1_000);
    q.toggle_playback();
    assert_eq!(q.drain_commands(), vec![PlayerCommand::Pause]);
}

#[test]
fn finished_track_auto_advances_and_stops_at_end() {
    let mut q = Queue::new();
    q.append(&track("a", "A"));
    q.append(&track("b", "B"));
    q.play(0);
    q.drain_commands();
    q.handle_event(PlayerEvent::FinishedTrack, 5_000);
    assert_eq!(q.get_current_index(), Some(1));
    assert_eq!(
        q.drain_commands(),
        vec![PlayerCommand::Load("b".to_string()), PlayerCommand::Play]
    );
    q.handle_event(PlayerEvent::FinishedTrack, 9_000);
    assert_eq!(q.get_current_index(), None);
    assert_eq!(q.get_status(), PlayerEvent::Stopped);
    assert_eq!(q.drain_commands(), vec![PlayerCommand::Stop]);
}
