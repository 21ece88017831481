use std::collections::HashMap;

use midi_msg::{Meta, MidiMsg, Track, TrackEvent};

use sfontplayer::conversions::format_duration;
use sfontplayer::media::MidiMeta;
use sfontplayer::midi_inspector::{get_track_name, MidiInspector, MidiInspectorTab, MidiInspectorTrack};
use sfontplayer::preset_mapper::{get_map_value, set_map_value, PresetMapper};
use sfontplayer::update_flags::UpdateFlags;
use sfontplayer::workspace::Workspace;

fn demo_midi() -> Vec<u8> {
    vec![
        b'M', b'T', b'h', b'd', 0, 0, 0, 6, 0, 0, 0, 1, 0, 96, b'M', b'T', b'r', b'k', 0, 0, 0, 4,
        0, 0xFF, 0x2F, 0,
    ]
}

/// A MIDI file whose only track names itself "Piano".
fn named_track_midi() -> Vec<u8> {
    let mut v = vec![b'M', b'T', b'h', b'd', 0, 0, 0, 6, 0, 0, 0, 1, 0, 96];
    v.extend_from_slice(&[b'M', b'T', b'r', b'k', 0, 0, 0, 13]);
    v.extend_from_slice(&[0, 0xFF, 0x03, 5, b'P', b'i', b'a', b'n', b'o']);
    v.extend_from_slice(&[0, 0xFF, 0x2F, 0]);
    v
}

// --- Durations

#[test]
fn format_duration_minutes_and_seconds() {
    assert_eq!(format_duration(452), "07:32");
    assert_eq!(format_duration(0), "00:00");
    assert_eq!(format_duration(59), "00:59");
    assert_eq!(format_duration(600), "10:00");
    assert_eq!(format_duration(3599), "59:59");
}

#[test]
fn format_duration_hours_count_all_minutes() {
    assert_eq!(format_duration(3600), "1:60:00");
    assert_eq!(format_duration(3661), "1:61:01");
    assert_eq!(format_duration(36000), "10:600:00");
}

// --- MIDI references

#[test]
fn midi_meta_loads_length() {
    let bytes = demo_midi();
    let meta = MidiMeta::new("music/demo.mid".into(), Some(&bytes));
    assert!(meta.get_duration().is_some());
    assert!(!meta.has_error());
    assert_eq!(meta.get_name(), "demo.mid");
    assert_eq!(meta.get_path(), "music/demo.mid");
}

#[test]
fn midi_meta_marks_invalid_and_keeps_unreadable() {
    let mut meta = MidiMeta::new("x.mid".into(), Some(b"RIFF...."));
    assert!(meta.has_error());
    assert!(meta.get_duration().is_none());
    meta.refresh(None);
    assert!(meta.has_error());
    let bytes = demo_midi();
    meta.refresh(Some(&bytes));
    assert!(!meta.has_error());
    assert!(meta.get_duration().is_some());

    let unread = MidiMeta::new("gone.mid".into(), None);
    assert!(!unread.has_error());
    assert!(unread.get_duration().is_none());
}

#[test]
fn midi_meta_name_of_path_without_name() {
    let meta = MidiMeta::new("..".into(), None);
    assert_eq!(meta.try_get_name(), None);
    let meta = MidiMeta::new("a/b/c.mid".into(), None);
    assert_eq!(meta.try_get_name(), Some("c.mid".to_string()));
}

// --- Workspace

#[test]
fn workspace_default() {
    let ws = Workspace::default();
    assert_eq!(ws.name, "Workspace");
    assert!(ws.fonts.is_empty() && ws.midis.is_empty() && ws.queue.is_empty());
    assert_eq!(ws.midi_idx, None);
}

#[test]
fn add_font_skips_same_path() {
    let mut ws = Workspace::default();
    ws.add_font("fonts/a.sf2".into());
    ws.add_font("fonts/b.sf2".into());
    ws.add_font("fonts//a.sf2".into());
    ws.add_font("fonts/a.sf2".into());
    assert_eq!(ws.fonts, vec!["fonts/a.sf2".to_string(), "fonts/b.sf2".to_string()]);
}

#[test]
fn add_midi_skips_same_path() {
    let mut ws = Workspace::default();
    let bytes = demo_midi();
    ws.add_midi("a.mid".into(), Some(&bytes));
    ws.add_midi("./a.mid".into(), None);
    ws.add_midi("a.mid".into(), None);
    ws.add_midi("b.mid".into(), None);
    assert_eq!(ws.midis.len(), 3);
    assert!(ws.contains_midi(&"a.mid".to_string()));
    assert!(ws.midis[0].get_duration().is_some());
    assert!(!ws.contains_midi(&"c.mid".to_string()));
}

#[test]
fn clearing_empties_midis() {
    let mut ws = Workspace::default();
    ws.add_font("f.sf2".into());
    ws.add_midi("a.mid".into(), None);
    ws.midi_idx = Some(0);
    ws.clear_fonts();
    assert!(ws.midis.is_empty());
    assert_eq!(ws.midi_idx, None);
    assert_eq!(ws.fonts.len(), 1);
    ws.add_midi("b.mid".into(), None);
    ws.midi_idx = Some(0);
    ws.clear_midis();
    assert!(ws.midis.is_empty());
    assert_eq!(ws.midi_idx, None);
}

fn workspace_with(n: usize) -> Workspace {
    let mut ws = Workspace::default();
    for i in 0..n {
        ws.add_midi(format!("{i}.mid"), None);
        ws.add_font(format!("{i}.sf2"));
    }
    ws
}

fn midi_paths(ws: &Workspace) -> Vec<String> {
    ws.midis.iter().map(|m| m.get_path()).collect()
}

#[test]
fn delete_queued_removes_in_order_and_follows_selection() {
    let mut ws = workspace_with(5);
    ws.midi_idx = Some(3);
    ws.font_idx = Some(1);
    ws.remove_midi(1);
    ws.remove_midi(3); // position 3 after the first removal: the file "4.mid"
    ws.remove_font(1);
    ws.delete_queued();
    assert_eq!(midi_paths(&ws), vec!["0.mid", "2.mid", "3.mid"]);
    assert_eq!(ws.midi_idx, Some(2));
    assert_eq!(ws.midis[2].get_path(), "3.mid");
    assert_eq!(ws.fonts, vec!["0.sf2", "2.sf2", "3.sf2", "4.sf2"]);
    assert_eq!(ws.font_idx, None);
    // The queues were emptied.
    ws.delete_queued();
    assert_eq!(ws.midis.len(), 3);
}

#[test]
fn delete_queued_keeps_later_selection() {
    let mut ws = workspace_with(3);
    ws.midi_idx = Some(0);
    ws.remove_midi(2);
    ws.delete_queued();
    assert_eq!(ws.midi_idx, Some(0));
    assert_eq!(midi_paths(&ws), vec!["0.mid", "1.mid"]);
}

#[test]
fn rebuild_queue_sequential() {
    let mut ws = workspace_with(4);
    ws.midi_idx = Some(2);
    ws.rebuild_queue(false);
    assert_eq!(ws.queue, vec![0, 1, 2, 3]);
}

#[test]
fn rebuild_queue_shuffled_puts_selection_first() {
    for _ in 0..20 {
        let mut ws = workspace_with(6);
        ws.midi_idx = Some(4);
        ws.rebuild_queue(true);
        assert_eq!(ws.queue[0], 4);
        let mut sorted = ws.queue.clone();
        sorted.sort();
        assert_eq!(sorted, vec![0, 1, 2, 3, 4, 5]);
    }
    let mut ws = workspace_with(6);
    ws.rebuild_queue(true);
    let mut sorted = ws.queue.clone();
    sorted.sort();
    assert_eq!(sorted, vec![0, 1, 2, 3, 4, 5]);
}

#[test]
fn workspace_from_parts() {
    let ws = Workspace::from_parts(
        "Saved".into(),
        vec!["a.sf2".into()],
        vec![MidiMeta::from_parts("a.mid".into(), None, true)],
        Some(0),
        None,
        vec![0],
    );
    assert_eq!(ws.name, "Saved");
    assert!(ws.midis[0].has_error());
    assert_eq!(ws.queue_idx, None);
}

// --- Preset mapping

#[test]
fn map_value_round_trip() {
    let mut mapper = PresetMapper { map: HashMap::new() };
    assert_eq!(get_map_value(5, &mapper), -1);
    set_map_value(5, 12, &mut mapper);
    assert_eq!(get_map_value(5, &mapper), 12);
    assert_eq!(get_map_value(6, &mapper), -1);
    set_map_value(5, 0, &mut mapper);
    assert_eq!(get_map_value(5, &mapper), 0);
    set_map_value(5, -1, &mut mapper);
    assert_eq!(get_map_value(5, &mapper), -1);
    assert!(mapper.map.is_empty());
    set_map_value(7, 300, &mut mapper);
    assert_eq!(get_map_value(7, &mapper), 44);
}

// --- Frame flags

#[test]
fn update_flags_clear() {
    let mut flags = UpdateFlags {
        scroll_to_song: true,
        open_midi_inspector: Some("a.mid".into()),
        close_midi_inspector: true,
    };
    flags.clear();
    assert!(!flags.scroll_to_song);
    assert_eq!(flags.open_midi_inspector, None);
    assert!(!flags.close_midi_inspector);
    let fresh = UpdateFlags::default();
    assert!(!fresh.scroll_to_song && fresh.open_midi_inspector.is_none());
}

// --- Inspector

#[test]
fn track_name_from_events() {
    let track = Track::Midi(vec![
        TrackEvent {
            delta_time: 0,
            event: MidiMsg::Meta { msg: Meta::Text("intro".into()) },
            beat_or_frame: 0.0,
        },
        TrackEvent {
            delta_time: 0,
            event: MidiMsg::Meta { msg: Meta::TrackName("Strings".into()) },
            beat_or_frame: 0.0,
        },
        TrackEvent {
            delta_time: 0,
            event: MidiMsg::Meta { msg: Meta::TrackName("Later".into()) },
            beat_or_frame: 0.0,
        },
    ]);
    assert_eq!(get_track_name(&track), Some("Strings".to_string()));
    assert_eq!(get_track_name(&Track::Midi(vec![])), None);
    assert_eq!(get_track_name(&Track::AlienChunk(vec![1, 2, 3])), None);
    let t = MidiInspectorTrack::new(track);
    assert!(!t.open);
    assert_eq!(t.name.as_deref(), Some("Strings"));
}

#[test]
fn inspector_opens_midi_file() {
    let bytes = named_track_midi();
    let insp = MidiInspector::new("songs/piano.mid", &bytes).ok().unwrap();
    assert_eq!(insp.filepath, "songs/piano.mid");
    assert_eq!(insp.tracks.len(), 1);
    assert_eq!(insp.tracks[0].name.as_deref(), Some("Piano"));
    assert!(MidiInspector::new("bad.mid", b"garbage").is_err());
}

#[test]
fn inspector_tab_defaults_to_event_browser() {
    assert_eq!(MidiInspectorTab::default(), MidiInspectorTab::EventBrowser);
    assert_ne!(MidiInspectorTab::default(), MidiInspectorTab::PresetMapper);
}

/// A MIDI file whose track ends 96 ticks in, at 96 ticks per quarter note.
fn half_second_midi() -> Vec<u8> {
    vec![
        b'M', b'T', b'h', b'd', 0, 0, 0, 6, 0, 0, 0, 1, 0, 96, b'M', b'T', b'r', b'k', 0, 0, 0, 4,
        0x60, 0xFF, 0x2F, 0,
    ]
}

#[test]
fn midi_meta_length_is_the_file_length() {
    let bytes = half_second_midi();
    let mut meta = MidiMeta::new("half.mid".into(), Some(&bytes));
    let secs = meta.get_duration().unwrap().as_secs_f64();
    assert!((secs - 0.5).abs() < 1e-6);
    // Reloading other contents replaces the length.
    let zero = demo_midi();
    meta.refresh(Some(&zero));
    assert_eq!(meta.get_duration(), Some(std::time::Duration::ZERO));
}
