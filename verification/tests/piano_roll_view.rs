use imbolc::keymap::Keymap;
use imbolc::piano_roll::{GridCell, Note, PianoRollPane};
use imbolc::piano_roll_view::{FooterMark, KeyShade};
use imbolc::playback::{TrackNotes, Transport};
use imbolc::screen::ScreenRect;

fn stopped() -> Transport {
    Transport {
        playing: false,
        recording: false,
        looping: false,
        playhead: 0,
        loop_start: 0,
        loop_end: 7680,
        time_signature: (4, 4),
    }
}

fn one_track() -> Vec<TrackNotes> {
    vec![TrackNotes {
        module_id: 7,
        polyphonic: false,
        notes: vec![Note { pitch: 60, tick: 480, duration: 480, velocity: 100 }],
    }]
}

const BOX: ScreenRect = ScreenRect { x: 0, y: 0, width: 97, height: 29 };

#[test]
fn frame_lays_out_rows_cells_and_footer() {
    let pane = PianoRollPane::new(Keymap::new());
    let f = pane.render_with_state(BOX, &one_track(), &stopped(), 480, 1920, None);
    assert_eq!(f.title, " Piano Roll: midi-7 [1/1] MONO ");
    assert_eq!(f.header, format!(" 4/4  {}  {}  Beat:", "> ", " "));
    assert!(!f.rendering);
    assert_eq!(f.rows.len(), 24);
    assert_eq!(f.footer.len(), 91);

    let top = f.rows[0].as_ref().unwrap();
    assert_eq!(top.pitch, 71);
    assert_eq!(top.label, " B4");
    assert_eq!(top.shade, KeyShade::White);

    let c4 = f.rows[11].as_ref().unwrap();
    assert_eq!(c4.pitch, 60);
    assert_eq!(c4.label, " C4");
    assert_eq!(c4.shade, KeyShade::Cursor);
    assert_eq!(c4.cells.len(), 91);
    assert_eq!(c4.cells[0], GridCell::Cursor);
    assert_eq!(c4.cells[1], GridCell::Blank);
    assert_eq!(c4.cells[2], GridCell::NoteStart);
    assert_eq!(c4.cells[3], GridCell::NoteBody);
    assert_eq!(c4.cells[4], GridCell::BeatLine);
    assert_eq!(c4.cells[8], GridCell::BarLine);

    let cs4 = f.rows[10].as_ref().unwrap();
    assert_eq!(cs4.pitch, 61);
    assert_eq!(cs4.label, "C#4");
    assert_eq!(cs4.shade, KeyShade::Black);
    assert_eq!(cs4.cells[1], GridCell::BlackKey);

    assert_eq!(f.footer[0], FooterMark::Bar(1));
    assert_eq!(f.footer[1], FooterMark::Nothing);
    assert_eq!(f.footer[2], FooterMark::Beat);
    assert_eq!(f.footer[8], FooterMark::Bar(2));

    assert_eq!(f.status.as_deref(), Some("Note:C4 Tick:0 Vel:100 Dur:480"));
    assert_eq!(f.selection_extent, None);
}

#[test]
fn frame_marks_the_selection() {
    let mut pane = PianoRollPane::new(Keymap::new());
    pane.selection_anchor = Some((480, 62));
    let f = pane.render_with_state(BOX, &one_track(), &stopped(), 480, 1920, None);
    let c4 = f.rows[11].as_ref().unwrap();
    assert_eq!(c4.cells[0], GridCell::Cursor);
    assert_eq!(c4.cells[2], GridCell::SelectedNote);
    assert_eq!(c4.cells[3], GridCell::NoteBody);
    let cs4 = f.rows[10].as_ref().unwrap();
    assert_eq!(cs4.cells[1], GridCell::Selected);
    assert_eq!(f.status, None);
    assert_eq!(f.selection_extent, Some((720, 3)));
}

#[test]
fn frame_skips_rows_above_the_highest_pitch() {
    let mut pane = PianoRollPane::new(Keymap::new());
    pane.view_bottom_pitch = 120;
    let f = pane.render_with_state(BOX, &one_track(), &stopped(), 480, 1920, Some(7));
    assert!(f.rendering);
    assert!(f.rows[15].is_none());
    assert_eq!(f.rows[16].as_ref().unwrap().pitch, 127);
}

#[test]
fn frame_without_tracks() {
    let mut pane = PianoRollPane::new(Keymap::new());
    pane.current_track = 3;
    let mut t = stopped();
    t.playing = true;
    t.looping = true;
    t.time_signature = (3, 4);
    let f = pane.render_with_state(BOX, &one_track(), &t, 480, 1440, Some(7));
    assert_eq!(f.title, " Piano Roll: (no tracks) ");
    assert_eq!(f.header, " 3/4  ||  L  Beat:");
    assert!(!f.rendering);
    let c4 = f.rows[11].as_ref().unwrap();
    assert_eq!(c4.cells[2], GridCell::BeatLine);
    let small = ScreenRect { x: 0, y: 0, width: 4, height: 3 };
    let g = pane.render_with_state(small, &Vec::new(), &t, 480, 1440, None);
    assert!(g.rows.is_empty());
    assert!(g.footer.is_empty());
}
