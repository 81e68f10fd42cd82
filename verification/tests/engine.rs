use imbolc::osc::{free_chains_messages, free_node_message, group_setup_messages, new_group_message};
use imbolc::piano_roll::Note;
use imbolc::playback::{
    advance_active_notes, collect_note_ons, next_time_signature, scan_window, tick_playback, ticks_from_now,
    ActiveNote, NoteOn, TrackNotes, Transport,
};
use imbolc::sequencer::{next_length, next_pattern, prev_pattern, DrumPattern, DrumSequencer, DrumStep};
use imbolc::voices::VoiceChain;

#[test]
fn free_node_bytes() {
    let bytes = free_node_message(5);
    let mut expected: Vec<u8> = b"/n_free\0".to_vec();
    expected.extend_from_slice(b",i\0\0");
    expected.extend_from_slice(&[0, 0, 0, 5]);
    assert_eq!(bytes, expected);
}

#[test]
fn new_group_bytes() {
    let bytes = new_group_message(100, 1, 0);
    let mut expected: Vec<u8> = b"/g_new\0\0".to_vec();
    expected.extend_from_slice(b",iii\0\0\0\0");
    expected.extend_from_slice(&[0, 0, 0, 100, 0, 0, 0, 1, 0, 0, 0, 0]);
    assert_eq!(bytes, expected);
}

#[test]
fn group_setup_in_execution_order() {
    let msgs = group_setup_messages();
    assert_eq!(msgs.len(), 3);
    assert_eq!(msgs[0], new_group_message(100, 1, 0));
    assert_eq!(msgs[1], new_group_message(200, 1, 0));
    assert_eq!(msgs[2], new_group_message(300, 1, 0));
}

#[test]
fn free_every_chain_group() {
    let chains = vec![
        VoiceChain { midi_module_id: 1, pitch: 60, group_id: 1001, midi_node_id: 2001 },
        VoiceChain { midi_module_id: 2, pitch: 62, group_id: 1002, midi_node_id: 2002 },
    ];
    let msgs = free_chains_messages(&chains);
    assert_eq!(msgs, vec![free_node_message(1001), free_node_message(1002)]);
}

#[test]
fn scan_window_wraps_at_loop() {
    assert_eq!(scan_window(100, 340, 0), (100, 340));
    assert_eq!(scan_window(1900, 20, 480), (480, 20));
    assert_eq!(ticks_from_now(130, 100), 30);
    assert_eq!(ticks_from_now(90, 100), 0);
}

fn note(pitch: u8, tick: u32) -> Note {
    Note { pitch, tick, duration: 240, velocity: 100 }
}

#[test]
fn note_ons_in_window_in_track_order() {
    let tracks = vec![
        TrackNotes { module_id: 1, polyphonic: true, notes: vec![note(60, 0), note(62, 120), note(64, 480)] },
        TrackNotes { module_id: 2, polyphonic: false, notes: vec![note(36, 120), note(38, 479)] },
    ];
    let ons = collect_note_ons(&tracks, 100, 480);
    let got: Vec<(u32, u8, bool)> = ons.iter().map(|n: &NoteOn| (n.module_id, n.pitch, n.polyphonic)).collect();
    assert_eq!(got, vec![(1, 62, true), (2, 36, false), (2, 38, false)]);
    assert_eq!(ons[0].tick, 120);
    assert_eq!(ons[0].duration, 240);
}

#[test]
fn active_notes_count_down() {
    let mut active = vec![
        ActiveNote { module_id: 1, pitch: 60, remaining: 100 },
        ActiveNote { module_id: 1, pitch: 62, remaining: 300 },
        ActiveNote { module_id: 2, pitch: 40, remaining: 120 },
    ];
    let offs = advance_active_notes(&mut active, 120);
    assert_eq!(offs, vec![
        ActiveNote { module_id: 1, pitch: 60, remaining: 100 },
        ActiveNote { module_id: 2, pitch: 40, remaining: 120 },
    ]);
    assert_eq!(active, vec![ActiveNote { module_id: 1, pitch: 62, remaining: 180 }]);
}

#[test]
fn time_signature_cycle() {
    let mut ts = (4u8, 4u8);
    let mut seen = Vec::new();
    for _ in 0..5 {
        ts = next_time_signature(ts);
        seen.push(ts);
    }
    assert_eq!(seen, vec![(3, 4), (6, 8), (5, 4), (7, 8), (4, 4)]);
    assert_eq!(next_time_signature((2, 2)), (4, 4));
}

fn transport() -> Transport {
    Transport { playing: false, recording: false, looping: false, playhead: 960, loop_start: 0, loop_end: 1920, time_signature: (4, 4) }
}

#[test]
fn transport_play_stop() {
    let mut t = transport();
    assert!(!t.play_stop());
    assert!(t.playing);
    assert_eq!(t.playhead, 960);
    assert!(t.play_stop());
    assert!(!t.playing);
    assert_eq!(t.playhead, 0);
}

#[test]
fn transport_record() {
    let mut t = transport();
    assert!(!t.play_stop_record());
    assert!(t.playing && t.recording);
    assert!(t.play_stop_record());
    assert!(!t.playing && !t.recording);
    t.toggle_loop();
    assert!(t.looping);
    t.cycle_time_signature();
    assert_eq!(t.time_signature, (3, 4));
}

fn pattern() -> DrumPattern {
    let blank = DrumStep { active: false, velocity: 100 };
    DrumPattern { length: 8, steps: vec![vec![blank; 8], vec![blank; 8]] }
}

#[test]
fn drum_steps_toggle_and_velocity() {
    let mut p = pattern();
    p.toggle_step(1, 3);
    assert!(p.steps[1][3].active);
    p.toggle_step(1, 3);
    assert!(!p.steps[1][3].active);
    p.toggle_step(5, 3);
    p.toggle_step(0, 30);
    p.adjust_velocity(0, 0, 100);
    assert_eq!(p.steps[0][0].velocity, 127);
    p.adjust_velocity(0, 1, -128);
    assert_eq!(p.steps[0][1].velocity, 1);
    p.adjust_velocity(0, 2, -10);
    assert_eq!(p.steps[0][2].velocity, 90);
}

#[test]
fn drum_pattern_length_cycle_keeps_steps() {
    let mut p = pattern();
    p.toggle_step(0, 7);
    let blank = DrumStep { active: false, velocity: 100 };
    p.cycle_length(blank);
    assert_eq!(p.length, 16);
    assert_eq!(p.steps[0].len(), 16);
    assert!(p.steps[0][7].active);
    assert_eq!(p.steps[0][12], blank);
    p.cycle_length(blank);
    p.cycle_length(blank);
    p.cycle_length(blank);
    assert_eq!(p.length, 8);
    assert!(p.steps[0][7].active);
    assert_eq!(next_length(12), 16);
}

#[test]
fn drum_pattern_clearing() {
    let mut p = pattern();
    p.toggle_step(0, 1);
    p.toggle_step(1, 1);
    p.clear_pad(0);
    assert!(!p.steps[0][1].active);
    assert!(p.steps[1][1].active);
    let blank = DrumStep { active: false, velocity: 64 };
    p.clear(blank);
    assert_eq!(p.steps[1], vec![blank; 8]);
}

#[test]
fn pattern_index_wraps() {
    assert_eq!(next_pattern(3, 4), 0);
    assert_eq!(next_pattern(1, 4), 2);
    assert_eq!(prev_pattern(0, 4), 3);
    assert_eq!(prev_pattern(2, 4), 1);
}

#[test]
fn a_playback_tick_starts_and_counts_down_notes() {
    let tracks = vec![
        TrackNotes { module_id: 1, polyphonic: true, notes: vec![note(60, 0), note(62, 120), note(64, 480)] },
        TrackNotes { module_id: 2, polyphonic: false, notes: vec![Note { pitch: 36, tick: 130, duration: 50, velocity: 90 }] },
    ];
    let mut active = vec![ActiveNote { module_id: 3, pitch: 50, remaining: 100 }];
    let ev = tick_playback(&tracks, &mut active, 100, 200, 0, 100, true);
    let ons: Vec<(u32, u8)> = ev.note_ons.iter().map(|n: &NoteOn| (n.module_id, n.pitch)).collect();
    assert_eq!(ons, vec![(1, 62), (2, 36)]);
    assert_eq!(
        ev.note_offs,
        vec![ActiveNote { module_id: 3, pitch: 50, remaining: 100 }, ActiveNote { module_id: 2, pitch: 36, remaining: 50 }]
    );
    assert_eq!(active, vec![ActiveNote { module_id: 1, pitch: 62, remaining: 140 }]);

    let ev = tick_playback(&tracks, &mut active, 200, 300, 0, 0, true);
    assert!(ev.note_ons.is_empty() && ev.note_offs.is_empty());
    assert_eq!(active.len(), 1);

    let ev = tick_playback(&tracks, &mut active, 1900, 20, 0, 40, false);
    assert!(ev.note_ons.is_empty() && ev.note_offs.is_empty());
    assert_eq!(active, vec![ActiveNote { module_id: 1, pitch: 62, remaining: 100 }]);

    let ev = tick_playback(&tracks, &mut active, 1900, 20, 0, 40, true);
    let ons: Vec<u8> = ev.note_ons.iter().map(|n: &NoteOn| n.pitch).collect();
    assert_eq!(ons, vec![60]);
    assert_eq!(active, vec![
        ActiveNote { module_id: 1, pitch: 62, remaining: 60 },
        ActiveNote { module_id: 1, pitch: 60, remaining: 200 },
    ]);
}

#[test]
fn cycling_the_length_changes_only_the_edited_pattern() {
    let blank = DrumStep { active: false, velocity: 100 };
    let mut first = pattern();
    first.toggle_step(0, 7);
    let mut seq = DrumSequencer { patterns: vec![first, pattern(), pattern()], current_pattern: 0 };
    seq.select_prev_pattern();
    assert_eq!(seq.current_pattern, 2);
    seq.select_next_pattern();
    assert_eq!(seq.current_pattern, 0);
    seq.cycle_pattern_length(blank);
    assert_eq!(seq.current_pattern, 0);
    assert_eq!(seq.patterns[0].length, 16);
    assert_eq!(seq.patterns[0].steps[0].len(), 16);
    assert!(seq.patterns[0].steps[0][7].active);
    assert_eq!(seq.patterns[0].steps[0][15], blank);
    assert_eq!(seq.patterns[1].length, 8);
    assert_eq!(seq.patterns[2].steps[1].len(), 8);
    for _ in 0..3 {
        seq.cycle_pattern_length(blank);
    }
    assert_eq!(seq.patterns[0].length, 8);
    assert!(seq.patterns[0].steps[0][7].active);
}

#[test]
fn negative_arguments_are_twos_complement() {
    let bytes = new_group_message(-2, 1, 70000);
    let mut expected: Vec<u8> = b"/g_new\0\0".to_vec();
    expected.extend_from_slice(b",iii\0\0\0\0");
    expected.extend_from_slice(&[0xff, 0xff, 0xff, 0xfe, 0, 0, 0, 1, 0, 1, 0x11, 0x70]);
    assert_eq!(bytes, expected);
}

#[test]
fn the_playhead_advances_and_wraps_in_the_loop() {
    let mut t = transport();
    assert_eq!(t.advance(500), 960);
    assert_eq!(t.playhead, 1460);
    t.advance(1000);
    assert_eq!(t.playhead, 2460);
    t.toggle_loop();
    t.playhead = 1800;
    t.advance(200);
    assert_eq!(t.playhead, 80);
    t.playhead = u32::MAX - 5;
    t.looping = false;
    t.advance(100);
    assert_eq!(t.playhead, u32::MAX);
}

#[test]
fn vst_note_messages_are_unit_commands() {
    let on = imbolc::osc::vst_note_on_message(1005, 0, 60, 100);
    let mut expected: Vec<u8> = b"/u_cmd\0\0".to_vec();
    expected.extend_from_slice(b",iisb\0\0\0");
    expected.extend_from_slice(&[0, 0, 0x03, 0xED, 0, 0, 0, 0]);
    expected.extend_from_slice(b"/midi_msg\0\0\0");
    expected.extend_from_slice(&[0, 0, 0, 3, 0x90, 60, 100, 0]);
    assert_eq!(on, expected);
    let off = imbolc::osc::vst_note_off_message(7, 2, 61);
    assert_eq!(&off[off.len() - 8..], &[0, 0, 0, 3, 0x80, 61, 0, 0]);
}
