use sfontplayer::media::MidiMeta;
use sfontplayer::player::{get_save_playlist_tooltip, Player, QueueStep, RepeatMode};
use sfontplayer::playlist::{PlayerError, PlaylistState};

/// A standard MIDI file with one track that holds only its end.
fn demo_midi() -> Vec<u8> {
    vec![
        b'M', b'T', b'h', b'd', 0, 0, 0, 6, 0, 0, 0, 1, 0, 96, b'M', b'T', b'r', b'k', 0, 0, 0, 4,
        0, 0xFF, 0x2F, 0,
    ]
}

fn demo_meta() -> MidiMeta {
    let bytes = demo_midi();
    MidiMeta::new("src/assets/demo.mid".into(), Some(&bytes))
}

#[test]
fn test_rearrange_playlists_cur_wksp_index() {
    let mut player = Player::default();
    player.new_playlist().unwrap();
    player.new_playlist().unwrap();
    player.new_playlist().unwrap();

    player.switch_to_playlist(1).unwrap();
    assert_eq!(player.playlist_idx, 1);
    player.move_playlist_left().unwrap();
    assert_eq!(player.playlist_idx, 0);
    player.move_playlist_left().unwrap_err();
    assert_eq!(player.playlist_idx, 0);
    player.move_playlist_right().unwrap();
    assert_eq!(player.playlist_idx, 1);
    player.move_playlist_right().unwrap();
    assert_eq!(player.playlist_idx, 2);
    player.move_playlist_right().unwrap_err();
    assert_eq!(player.playlist_idx, 2);

    player.move_playlist(0, 1).unwrap();
    assert_eq!(player.playlist_idx, 2);

    player.move_playlist(0, 2).unwrap();
    assert_eq!(player.playlist_idx, 1);

    player.move_playlist(1, 2).unwrap();
    assert_eq!(player.playlist_idx, 2);

    player.move_playlist(2, 2).unwrap();
    assert_eq!(player.playlist_idx, 2);

    player.move_playlist(2, 0).unwrap();
    assert_eq!(player.playlist_idx, 0);

    player.move_playlist(0, 1).unwrap();
    assert_eq!(player.playlist_idx, 1);
}

#[test]
fn test_rearrange_playlists_cur_wksp_index_outofbounds() {
    let mut player = Player::default();
    player.new_playlist().unwrap();
    player.new_playlist().unwrap();
    player.new_playlist().unwrap();

    player.switch_to_playlist(0).unwrap();
    assert_eq!(player.playlist_idx, 0);
    player.move_playlist_left().unwrap_err();
    assert_eq!(player.playlist_idx, 0);

    player.switch_to_playlist(2).unwrap();
    assert_eq!(player.playlist_idx, 2);
    player.move_playlist_right().unwrap_err();
    assert_eq!(player.playlist_idx, 2);

    player.move_playlist(0, 3).unwrap_err();
    assert_eq!(player.playlist_idx, 2);
    player.move_playlist(2, 3).unwrap_err();
    assert_eq!(player.playlist_idx, 2);
    player.move_playlist(2, usize::MAX).unwrap_err();
    assert_eq!(player.playlist_idx, 2);
}

#[test]
fn test_rearrange_playlists_playing_wksp_index() {
    let mut player = Player::default();
    player.new_playlist().unwrap();
    player.new_playlist().unwrap();
    player.new_playlist().unwrap();

    player.switch_to_playlist(1).unwrap();
    player.playing_playlist_idx = 1;
    assert_eq!(player.playing_playlist_idx, 1);
    player.move_playlist_left().unwrap();
    assert_eq!(player.playing_playlist_idx, 0);
    player.move_playlist_left().unwrap_err();
    assert_eq!(player.playing_playlist_idx, 0);
    player.move_playlist_right().unwrap();
    assert_eq!(player.playing_playlist_idx, 1);
    player.move_playlist_right().unwrap();
    assert_eq!(player.playing_playlist_idx, 2);
    player.move_playlist_right().unwrap_err();
    assert_eq!(player.playing_playlist_idx, 2);

    player.move_playlist(0, 1).unwrap();
    assert_eq!(player.playing_playlist_idx, 2);

    player.move_playlist(0, 2).unwrap();
    assert_eq!(player.playing_playlist_idx, 1);

    player.move_playlist(1, 2).unwrap();
    assert_eq!(player.playing_playlist_idx, 2);

    player.move_playlist(2, 2).unwrap();
    assert_eq!(player.playing_playlist_idx, 2);

    player.move_playlist(2, 0).unwrap();
    assert_eq!(player.playing_playlist_idx, 0);

    player.move_playlist(0, 1).unwrap();
    assert_eq!(player.playing_playlist_idx, 1);
}

#[test]
fn test_rearrange_playlists_playing_wksp_index_outofbounds() {
    let mut player = Player::default();
    player.new_playlist().unwrap();
    player.new_playlist().unwrap();
    player.new_playlist().unwrap();

    player.switch_to_playlist(0).unwrap();
    player.playing_playlist_idx = 0;
    assert_eq!(player.playing_playlist_idx, 0);
    player.move_playlist_left().unwrap_err();
    assert_eq!(player.playing_playlist_idx, 0);

    player.switch_to_playlist(2).unwrap();
    player.playing_playlist_idx = 2;
    assert_eq!(player.playing_playlist_idx, 2);
    player.move_playlist_right().unwrap_err();
    assert_eq!(player.playing_playlist_idx, 2);

    player.move_playlist(0, 3).unwrap_err();
    assert_eq!(player.playing_playlist_idx, 2);
    player.move_playlist(2, 3).unwrap_err();
    assert_eq!(player.playing_playlist_idx, 2);
    player.move_playlist(2, usize::MAX).unwrap_err();
    assert_eq!(player.playing_playlist_idx, 2);
}

#[test]
fn test_remove_last_playlist_decreases_index() {
    let mut player = Player::default();
    player.new_playlist().unwrap();
    player.new_playlist().unwrap();
    player.new_playlist().unwrap();

    player.playlist_idx = 2;
    player.remove_playlist(2).unwrap();
    player.update();
    assert_eq!(player.playlist_idx, 1);
}

#[test]
fn test_remove_last_playlist_decreases_playing_index() {
    let mut player = Player::default();
    player.new_playlist().unwrap();
    player.new_playlist().unwrap();
    player.new_playlist().unwrap();

    player.playing_playlist_idx = 2;
    player.remove_playlist(2).unwrap();
    player.update();
    assert_eq!(player.playing_playlist_idx, 1);
}

#[test]
fn test_remove_nonlast_playlist_keeps_index() {
    let mut player = Player::default();
    player.new_playlist().unwrap();
    player.new_playlist().unwrap();
    player.new_playlist().unwrap();

    player.playlist_idx = 1;
    player.remove_playlist(1).unwrap();
    player.update();
    assert_eq!(player.playlist_idx, 1);
}

#[test]
fn test_debug_block_saving() {
    let mut player = Player::default();
    player.debug_block_saving = true;

    player.new_playlist().unwrap();
    player.new_playlist().unwrap();
    player.new_playlist().unwrap();

    player.playlists[0].set_portable_path(Some("fakepath".into()));

    assert!(matches!(
        player.check_save_portable(0).unwrap_err(),
        PlayerError::DebugBlockSaving
    ));
    assert!(matches!(
        player.check_save_all().unwrap_err(),
        PlayerError::DebugBlockSaving
    ));
    assert!(matches!(
        player.prepare_save_as(0, "fakepath2".into(), None).unwrap_err(),
        PlayerError::DebugBlockSaving
    ));
}

#[test]
fn test_midioverride_cant_skip() {
    let mut player = Player::default();
    player.new_playlist().unwrap();
    player.get_playlist_mut().add_song("fakepath1".into(), None).unwrap();
    player.get_playlist_mut().add_song("fakepath2".into(), None).unwrap();
    player.get_playlist_mut().add_song("fakepath3".into(), None).unwrap();
    player.get_playlist_mut().set_song_idx(Some(1)).unwrap();
    assert_eq!(player.get_playlist().get_song_idx(), Some(1));
    player.open_midi_inspector(demo_meta()).unwrap();

    assert!(matches!(player.skip().unwrap_err(), PlayerError::MidiOverride));
    assert_eq!(player.get_playlist().get_song_idx(), None);

    assert!(matches!(
        player.skip_back().unwrap_err(),
        PlayerError::MidiOverride
    ));
    assert_eq!(player.get_playlist().get_song_idx(), None);
}

#[test]
fn test_midioverride_advance() {
    // Advance playback should not advance playback if override.

    let mut player = Player::default();
    player.new_playlist().unwrap();
    player.get_playlist_mut().add_song("fakepath1".into(), None).unwrap();
    player.get_playlist_mut().add_song("fakepath2".into(), None).unwrap();
    player.get_playlist_mut().add_song("fakepath3".into(), None).unwrap();
    player.get_playlist_mut().set_song_idx(Some(1)).unwrap();
    assert_eq!(player.get_playlist().get_song_idx(), Some(1));
    player.open_midi_inspector(demo_meta()).unwrap();
    assert_eq!(player.get_playlist().get_song_idx(), None);

    player.playing_playlist_idx = player.playlist_idx;
    player.get_playing_playlist_mut().rebuild_queue(false);
    player.is_playing = true;

    assert_eq!(player.get_playlist().queue_idx, Some(0));
    player.advance_queue().unwrap();
    assert_eq!(player.get_playlist().queue_idx, Some(0));
}

#[test]
fn test_midioverride_cant_change_playlist() {
    let mut player = Player::default();
    player.new_playlist().unwrap();
    player.new_playlist().unwrap();
    player.new_playlist().unwrap();
    player.switch_to_playlist(1).unwrap();
    player.get_playlist_mut().add_song("fakepath1".into(), None).unwrap();
    player.get_playlist_mut().add_song("fakepath2".into(), None).unwrap();
    player.get_playlist_mut().add_song("fakepath3".into(), None).unwrap();
    assert_eq!(player.get_playlist_idx(), 1);
    player.open_midi_inspector(demo_meta()).unwrap();

    assert!(matches!(
        player.switch_playlist_left().unwrap_err(),
        PlayerError::MidiOverride
    ));
    assert_eq!(player.get_playlist_idx(), 1);

    assert!(matches!(
        player.switch_playlist_right().unwrap_err(),
        PlayerError::MidiOverride
    ));
    assert_eq!(player.get_playlist_idx(), 1);

    assert!(matches!(
        player.switch_to_playlist(0).unwrap_err(),
        PlayerError::MidiOverride
    ));
    assert_eq!(player.get_playlist_idx(), 1);
}

#[test]
fn test_midioverride_manage_playlists() {
    let mut player = Player::default();
    player.new_playlist().unwrap();
    player.new_playlist().unwrap();
    player.new_playlist().unwrap();
    player.switch_to_playlist(1).unwrap();
    player.get_playlist_mut().add_song("fakepath1".into(), None).unwrap();
    player.get_playlist_mut().add_song("fakepath2".into(), None).unwrap();
    player.get_playlist_mut().add_song("fakepath3".into(), None).unwrap();
    assert_eq!(player.get_playlist_idx(), 1);
    player.open_midi_inspector(demo_meta()).unwrap();

    assert!(matches!(
        player.new_playlist().unwrap_err(),
        PlayerError::MidiOverride
    ));
    assert_eq!(player.get_playlists().len(), 3);

    assert!(matches!(
        player.remove_playlist(1).unwrap_err(),
        PlayerError::MidiOverride
    ));
    assert_eq!(player.get_playlists().len(), 3);

    assert!(matches!(
        player.reopen_removed_playlist().unwrap_err(),
        PlayerError::MidiOverride
    ));
    assert_eq!(player.get_playlists().len(), 3);

    assert!(matches!(
        player.duplicate_playlist(1).unwrap_err(),
        PlayerError::MidiOverride
    ));
    assert_eq!(player.get_playlists().len(), 3);
}

// --- Further scenarios

fn three_named_playlists() -> Player {
    let mut player = Player::default();
    for name in ["a", "b", "c"] {
        player.new_playlist().unwrap();
        let last = player.playlists.len() - 1;
        player.playlists[last].name = name.to_string();
    }
    player
}

fn names(player: &Player) -> Vec<String> {
    player.playlists.iter().map(|p| p.name.clone()).collect()
}

#[test]
fn move_playlist_follows_open_playlist() {
    let mut player = three_named_playlists();
    player.switch_to_playlist(0).unwrap();
    player.move_playlist(0, 2).unwrap();
    assert_eq!(names(&player), vec!["b", "c", "a"]);
    assert_eq!(player.playlist_idx, 2);
    assert_eq!(player.get_playlist().name, "a");
}

#[test]
fn move_playlist_back_restores_order() {
    let mut player = three_named_playlists();
    player.switch_to_playlist(1).unwrap();
    player.move_playlist(2, 0).unwrap();
    assert_eq!(names(&player), vec!["c", "a", "b"]);
    assert_eq!(player.playlist_idx, 2);
    player.move_playlist(0, 2).unwrap();
    assert_eq!(names(&player), vec!["a", "b", "c"]);
    assert_eq!(player.playlist_idx, 1);
}

#[test]
fn move_playlist_index_errors() {
    let mut player = three_named_playlists();
    assert_eq!(player.move_playlist(3, 0), Err(PlayerError::PlaylistIndex { index: 3 }));
    assert_eq!(player.move_playlist(0, 5), Err(PlayerError::PlaylistIndex { index: 5 }));
    assert_eq!(player.switch_to_playlist(7), Err(PlayerError::PlaylistIndex { index: 7 }));
    assert_eq!(player.remove_playlist(3), Err(PlayerError::PlaylistIndex { index: 3 }));
    assert_eq!(player.force_remove_playlist(3), Err(PlayerError::PlaylistIndex { index: 3 }));
    assert_eq!(player.cancel_remove_playlist(3), Err(PlayerError::PlaylistIndex { index: 3 }));
    assert_eq!(player.duplicate_playlist(3), Err(PlayerError::PlaylistIndex { index: 3 }));
}

#[test]
fn switch_left_right_bounds() {
    let mut player = three_named_playlists();
    player.switch_to_playlist(0).unwrap();
    assert_eq!(player.switch_playlist_left(), Err(PlayerError::PlaylistCantSwitch));
    player.switch_playlist_right().unwrap();
    player.switch_playlist_right().unwrap();
    assert_eq!(player.playlist_idx, 2);
    assert_eq!(player.switch_playlist_right(), Err(PlayerError::PlaylistCantSwitch));
    player.switch_playlist_left().unwrap();
    assert_eq!(player.playlist_idx, 1);
}

#[test]
fn unsaved_playlist_waits_for_discard() {
    let mut player = three_named_playlists();
    player.playlists[1].unsaved_changes = true;
    player.remove_playlist(1).unwrap();
    assert_eq!(player.update(), 0);
    assert_eq!(player.playlists.len(), 3);
    assert_eq!(player.get_playlist_waiting_for_discard(), Some(1));

    player.cancel_remove_playlist(1).unwrap();
    assert_eq!(player.playlists[1].state, PlaylistState::Open);
    assert_eq!(player.get_playlist_waiting_for_discard(), None);

    player.force_remove_playlist(1).unwrap();
    assert_eq!(player.update(), 1);
    assert_eq!(names(&player), vec!["a", "c"]);
    assert!(player.has_removed_playlist());
}

#[test]
fn closed_playlist_reopens() {
    let mut player = three_named_playlists();
    player.switch_to_playlist(2).unwrap();
    player.remove_playlist(0).unwrap();
    player.update();
    assert_eq!(names(&player), vec!["b", "c"]);
    assert_eq!(player.get_playlist().name, "c");
    assert_eq!(player.playlist_idx, 1);

    player.reopen_removed_playlist().unwrap();
    assert_eq!(names(&player), vec!["b", "c", "a"]);
    assert_eq!(player.playlist_idx, 2);
    assert_eq!(player.playlists[2].state, PlaylistState::Open);
    assert!(!player.has_removed_playlist());
    // Nothing left to reopen.
    player.reopen_removed_playlist().unwrap();
    assert_eq!(player.playlists.len(), 3);
}

#[test]
fn reopen_skips_portable_playlist_open_again() {
    let mut player = three_named_playlists();
    player.playlists[0].set_portable_path(Some("lists/a.midpl".into()));
    player.remove_playlist(0).unwrap();
    player.remove_playlist(1).unwrap();
    player.update();
    assert_eq!(names(&player), vec!["c"]);
    // The history now holds b (closed first, from the top) then a.
    let mut reopened = sfontplayer::playlist::Playlist::default();
    reopened.name = "a again".to_string();
    player.open_portable_playlist(&"lists//a.midpl".to_string(), {
        reopened.set_portable_path(Some("lists/a.midpl".into()));
        reopened
    })
    .unwrap();
    player.reopen_removed_playlist().unwrap();
    assert_eq!(names(&player), vec!["c", "a again", "b"]);
    assert!(!player.has_removed_playlist());
}

#[test]
fn closing_every_playlist_leaves_a_fresh_one() {
    let mut player = three_named_playlists();
    for i in 0..3 {
        player.remove_playlist(i).unwrap();
    }
    assert_eq!(player.update(), 3);
    assert_eq!(player.playlists.len(), 1);
    assert_eq!(player.playlists[0].name, "Playlist");
    assert_eq!(player.playlist_idx, 0);
    assert_eq!(player.removed_playlists.len(), 3);
}

#[test]
fn closed_history_keeps_newest_hundred() {
    let mut player = Player::default();
    for _ in 0..105 {
        player.new_playlist().unwrap();
    }
    for i in 0..105 {
        player.playlists[i].name = i.to_string();
        player.remove_playlist(i).unwrap();
    }
    player.update();
    assert_eq!(player.removed_playlists.len(), 100);
    // Closed from the last one down, so the newest entry is playlist 0.
    assert_eq!(player.removed_playlists[99].name, "0");
    assert_eq!(player.removed_playlists[0].name, "99");
}

#[test]
fn duplicate_names_copy_and_switches() {
    let mut player = three_named_playlists();
    player.playlists[1].set_portable_path(Some("b.midpl".into()));
    player.playlists[1].add_song("x.mid".into(), None).unwrap();
    player.duplicate_playlist(1).unwrap();
    assert_eq!(names(&player), vec!["a", "b", "c", "b (Copy)"]);
    assert_eq!(player.playlist_idx, 3);
    assert_eq!(player.playlists[3].portable_path, None);
    assert_eq!(player.playlists[3].songs.len(), 1);
    assert_eq!(player.playlists[3].songs[0].get_path(), "x.mid");
}

#[test]
fn save_as_copy_is_named_after_file() {
    let mut player = three_named_playlists();
    let copy = player.prepare_save_as(0, "dir/new.midpl".into(), Some("new".into())).unwrap();
    assert_eq!(copy.name, "new");
    assert_eq!(copy.portable_path.as_deref(), Some("dir/new.midpl"));
    let unnamed = player.prepare_save_as(0, "dir/".into(), None).unwrap();
    assert_eq!(unnamed.name, "a (Copy)");
    player.add_saved_playlist(copy);
    assert_eq!(player.playlist_idx, 3);
    assert_eq!(
        player.prepare_save_as(1, "dir/new.midpl".into(), None).unwrap_err(),
        PlayerError::PlaylistAlreadyOpen
    );
    assert_eq!(
        player.open_portable_playlist(&"dir/new.midpl".to_string(), Default::default()),
        Err(PlayerError::PlaylistAlreadyOpen)
    );
    assert_eq!(player.check_save_portable(9), Err(PlayerError::PlaylistIndex { index: 9 }));
    assert_eq!(player.check_save_portable(0), Ok(()));
    assert_eq!(player.check_save_all(), Ok(()));
}

fn playing_three_songs(repeat: RepeatMode) -> Player {
    let mut player = Player::default();
    player.new_playlist().unwrap();
    for name in ["1.mid", "2.mid", "3.mid"] {
        player.get_playlist_mut().add_song(name.into(), None).unwrap();
    }
    player.repeat = repeat;
    player.start();
    player
}

#[test]
fn start_builds_sequential_queue() {
    let player = playing_three_songs(RepeatMode::Disabled);
    assert_eq!(player.get_playing_playlist().queue, vec![0, 1, 2]);
    assert_eq!(player.get_playing_playlist().queue_idx, Some(0));
    assert_eq!(player.queued_song(), Ok(0));
}

#[test]
fn queue_advances_then_stops() {
    let mut player = playing_three_songs(RepeatMode::Disabled);
    player.mark_song_playing(0).unwrap();
    assert!(player.is_playing());
    assert_eq!(player.advance_queue(), Ok(QueueStep::Play));
    assert_eq!(player.get_playing_playlist().song_idx, Some(1));
    assert_eq!(player.advance_queue(), Ok(QueueStep::Play));
    assert_eq!(player.advance_queue(), Ok(QueueStep::Stop));
    assert!(!player.is_playing());
    assert_eq!(player.get_playing_playlist().queue_idx, None);
    assert_eq!(player.get_playing_playlist().song_idx, None);
    assert_eq!(player.advance_queue(), Err(PlayerError::PlaybackNoQueueIndex));
    assert_eq!(player.queued_song(), Err(PlayerError::PlaybackNoQueueIndex));
}

#[test]
fn queue_repeats() {
    let mut player = playing_three_songs(RepeatMode::Queue);
    player.mark_song_playing(0).unwrap();
    player.advance_queue().unwrap();
    player.advance_queue().unwrap();
    assert_eq!(player.advance_queue(), Ok(QueueStep::Play));
    assert_eq!(player.get_playing_playlist().queue_idx, Some(0));

    let mut player = playing_three_songs(RepeatMode::Song);
    player.mark_song_playing(0).unwrap();
    assert_eq!(player.advance_queue(), Ok(QueueStep::Play));
    assert_eq!(player.get_playing_playlist().queue_idx, Some(0));
    assert_eq!(player.get_playing_playlist().song_idx, Some(0));
}

#[test]
fn skip_and_skip_back() {
    let mut player = playing_three_songs(RepeatMode::Disabled);
    assert_eq!(player.skip_back(), Ok(false));
    assert_eq!(player.skip(), Ok(true));
    assert_eq!(player.get_playing_playlist().queue_idx, Some(1));
    assert_eq!(player.skip(), Ok(true));
    assert_eq!(player.skip(), Ok(false));
    assert_eq!(player.get_playing_playlist().queue_idx, Some(2));
    assert_eq!(player.skip_back(), Ok(true));
    assert_eq!(player.get_playing_playlist().queue_idx, Some(1));

    let mut player = playing_three_songs(RepeatMode::Queue);
    // With the queue repeating, skipping still moves one song on...
    assert_eq!(player.skip(), Ok(true));
    assert_eq!(player.get_playing_playlist().queue_idx, Some(1));
    assert_eq!(player.skip_back(), Ok(true));
    assert_eq!(player.get_playing_playlist().queue_idx, Some(0));
    assert_eq!(player.skip_back(), Ok(true));
    assert_eq!(player.get_playing_playlist().queue_idx, Some(2));
    // ...and from the last song starts the queue over.
    assert_eq!(player.skip(), Ok(true));
    assert_eq!(player.get_playing_playlist().queue_idx, Some(0));
}

#[test]
fn repeat_cycles_and_shuffle_toggles() {
    let mut player = playing_three_songs(RepeatMode::Disabled);
    player.cycle_repeat();
    assert_eq!(player.get_repeat(), RepeatMode::Queue);
    player.cycle_repeat();
    assert_eq!(player.get_repeat(), RepeatMode::Song);
    player.cycle_repeat();
    assert_eq!(player.get_repeat(), RepeatMode::Disabled);

    player.get_playlist_mut().set_song_idx(Some(2)).unwrap();
    player.toggle_shuffle();
    assert!(player.get_shuffle());
    let queue = player.get_playing_playlist().queue.clone();
    assert_eq!(queue[0], 2);
    let mut sorted = queue.clone();
    sorted.sort();
    assert_eq!(sorted, vec![0, 1, 2]);
    assert_eq!(player.get_playing_playlist().queue_idx, Some(0));
    player.toggle_shuffle();
    assert!(!player.get_shuffle());
    assert_eq!(player.get_playing_playlist().queue, vec![0, 1, 2]);
    assert_eq!(player.get_playing_playlist().queue_idx, Some(2));
}

#[test]
fn inspector_needs_loaded_file_and_stops() {
    let mut player = playing_three_songs(RepeatMode::Disabled);
    player.mark_song_playing(0).unwrap();
    let broken = MidiMeta::new("broken.mid".into(), Some(b"not midi"));
    assert_eq!(player.open_midi_inspector(broken), Err(PlayerError::MidiInspectorLoad));
    assert!(player.is_playing());
    player.open_midi_inspector(demo_meta()).unwrap();
    assert!(!player.is_playing());
    assert_eq!(player.get_inspected_midi_meta().unwrap().get_path(), "src/assets/demo.mid");
    assert_eq!(player.advance_queue(), Ok(QueueStep::Pause));
    player.close_midi_inspector();
    assert!(player.get_inspected_midi_meta().is_none());
    player.switch_to_playlist(0).unwrap();
}

#[test]
fn mark_song_playing_checks_index() {
    let mut player = playing_three_songs(RepeatMode::Disabled);
    assert_eq!(player.mark_song_playing(3), Err(PlayerError::SongIndex { index: 3 }));
    assert!(!player.is_playing());
    player.mark_song_playing(2).unwrap();
    assert_eq!(player.get_playing_playlist().get_song_idx(), Some(2));
}

#[test]
fn save_tooltip_follows_portability_and_autosave() {
    let mut player = three_named_playlists();
    assert_eq!(
        get_save_playlist_tooltip(&player, 0),
        "Playlists in app memory are saved automatically."
    );
    player.playlists[0].set_portable_path(Some("a.midpl".into()));
    assert_eq!(get_save_playlist_tooltip(&player, 0), "Autosave is enabled.");
    player.autosave = false;
    assert_eq!(get_save_playlist_tooltip(&player, 0), "Save unsaved changes.");
}

#[test]
fn close_then_reopen_gives_playlist_back() {
    let mut player = three_named_playlists();
    player.playlists[1].add_song("x.mid".into(), None).unwrap();
    player.remove_playlist(1).unwrap();
    assert_eq!(player.update(), 1);
    assert_eq!(names(&player), vec!["a", "c"]);
    player.reopen_removed_playlist().unwrap();
    assert_eq!(names(&player), vec!["a", "c", "b"]);
    assert_eq!(player.playlists[2].songs.len(), 1);
    assert_eq!(player.playlists[2].state, PlaylistState::Open);
    assert_eq!(player.playlist_idx, 2);
}

#[test]
fn soundfont_choice_prefers_playlist_font() {
    let mut player = three_named_playlists();
    assert_eq!(player.get_soundfont_meta(), None);
    assert_eq!(player.reload_font(), Err(PlayerError::PlaybackNoSoundfont));

    player.font_lib.fonts.push("lib/default.sf2".into());
    player.font_lib.selected = Some(0);
    assert_eq!(player.get_default_soundfont().map(|s| s.as_str()), Some("lib/default.sf2"));
    assert_eq!(player.get_soundfont_meta().map(|s| s.as_str()), Some("lib/default.sf2"));

    let playlist = player.get_playlist_mut();
    playlist.add_font("fonts/a.sf2".into()).unwrap();
    playlist.add_font("fonts/b.sf2".into()).unwrap();
    assert_eq!(playlist.add_font("fonts//a.sf2".into()), Err(PlayerError::FontAlreadyInPlaylist));
    assert_eq!(playlist.set_font_idx(Some(2)), Err(PlayerError::FontIndex { index: 2 }));
    playlist.set_font_idx(Some(1)).unwrap();
    assert_eq!(player.get_soundfont_meta().map(|s| s.as_str()), Some("fonts/b.sf2"));
    assert_eq!(player.reload_font(), Ok("fonts/b.sf2".to_string()));

    // A choice past the fonts falls back to the default.
    player.get_playlist_mut().font_idx = Some(9);
    assert_eq!(player.reload_font(), Ok("lib/default.sf2".to_string()));
    player.font_lib.selected = None;
    assert_eq!(player.reload_font(), Err(PlayerError::PlaybackNoSoundfont));
}

#[test]
fn duplicate_keeps_fonts() {
    let mut player = three_named_playlists();
    player.playlists[0].add_font("f.sf2".into()).unwrap();
    player.playlists[0].set_font_idx(Some(0)).unwrap();
    player.duplicate_playlist(0).unwrap();
    assert_eq!(player.playlists[3].fonts, vec!["f.sf2".to_string()]);
    assert_eq!(player.playlists[3].font_idx, Some(0));
}

#[test]
fn skip_buttons_follow_queue_position() {
    let mut player = playing_three_songs(RepeatMode::Disabled);
    assert_eq!(player.skip_buttons_enabled(), (false, true));
    player.skip().unwrap();
    assert_eq!(player.skip_buttons_enabled(), (true, true));
    player.skip().unwrap();
    assert_eq!(player.skip_buttons_enabled(), (true, false));
    player.repeat = RepeatMode::Queue;
    player.mark_song_playing(2).unwrap();
    assert_eq!(player.skip_buttons_enabled(), (true, true));
    player.stop();
    assert_eq!(player.skip_buttons_enabled(), (false, false));
    let empty = Player::default();
    let mut empty = empty;
    empty.new_playlist().unwrap();
    assert_eq!(empty.skip_buttons_enabled(), (false, false));
}

#[test]
fn playlists_due_to_close_are_those_the_update_closes() {
    let mut player = Player::default();
    player.new_playlist().unwrap();
    player.new_playlist().unwrap();
    player.new_playlist().unwrap();
    player.new_playlist().unwrap();
    player.get_playlists_mut()[0].state = PlaylistState::QueuedDiscard;
    player.get_playlists_mut()[1].state = PlaylistState::Queued;
    player.get_playlists_mut()[1].unsaved_changes = true;
    player.get_playlists_mut()[2].state = PlaylistState::Queued;
    assert_eq!(player.playlists_due_to_close(), vec![0, 2]);
    assert_eq!(player.update(), 2);
    assert_eq!(player.get_playlists().len(), 2);
    assert!(player.playlists_due_to_close().is_empty());
}
