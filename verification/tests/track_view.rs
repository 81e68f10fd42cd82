use imbolc::keymap::Keymap;
use imbolc::track::{ColumnMark, TrackPane};
use imbolc::track_view::{PlacedClip, TimelineView, TrackLane};

fn lanes() -> Vec<TrackLane> {
    vec![
        TrackLane {
            name: "Lead Synth Long Name".to_string(),
            source: "Saw".to_string(),
            placements: vec![PlacedClip { id: 1, start: 0, end: 1920, name: "Intro".to_string() }],
            clips: vec!["Intro".to_string(), "Verse".to_string()],
        },
        TrackLane {
            name: "Bass".to_string(),
            source: "Sampler".to_string(),
            placements: vec![PlacedClip { id: 2, start: 1920, end: 2400, name: "A very long clip name".to_string() }],
            clips: Vec::new(),
        },
    ]
}

fn view() -> TimelineView {
    TimelineView {
        view_start_tick: 0,
        ticks_per_col: 120,
        beats_per_bar: 4,
        selected_lane: 0,
        cursor_tick: 2400,
        playhead_tick: 480,
        song_mode: false,
        selected_placement: Some(2),
    }
}

#[test]
fn track_frame_lays_out_lanes_and_blocks() {
    let pane = TrackPane::new(Keymap::new());
    let f = pane.render(95, 27, &lanes(), &view());
    assert_eq!(f.title, " Track [Pattern] ");
    assert!(!f.empty);
    assert_eq!(f.marks.len(), 73);
    assert_eq!(f.marks[0], ColumnMark::Bar);
    assert_eq!(f.bar_numbers[0], Some(1));
    assert_eq!(f.marks[1], ColumnMark::Plain);
    assert_eq!(f.marks[4], ColumnMark::Beat);
    assert_eq!(f.bar_numbers[4], None);
    assert_eq!(f.marks[16], ColumnMark::Bar);
    assert_eq!(f.bar_numbers[16], Some(2));

    assert_eq!(f.lanes.len(), 2);
    let first = &f.lanes[0];
    assert_eq!(first.lane, 0);
    assert!(first.selected);
    assert_eq!(first.number, " 1 ");
    assert_eq!(first.name, "Lead Synth ");
    assert_eq!(first.source, " Saw");
    assert!(first.separator);
    let b = first.blocks[0].as_ref().unwrap();
    assert_eq!((b.first, b.last), (0, 16));
    assert_eq!(b.label, format!("Intro{}", " ".repeat(11)));
    assert!(!b.selected);
    assert!(b.opens);

    let second = &f.lanes[1];
    assert_eq!(second.number, " 2 ");
    assert_eq!(second.name, "Bass");
    assert_eq!(second.source, " Sampler");
    assert!(!second.selected);
    assert!(!second.separator);
    let b = second.blocks[0].as_ref().unwrap();
    assert_eq!((b.first, b.last), (16, 20));
    assert_eq!(b.label, "A ve");
    assert!(b.selected);

    assert_eq!(f.playhead_col, Some(4));
    assert_eq!(f.cursor, Some((0, 20)));
    assert_eq!(f.position, "Bar 2 Beat 2  |  Clip: Intro [1/2]");
}

#[test]
fn track_frame_scrolls_and_clips_to_the_view() {
    let pane = TrackPane::new(Keymap::new());
    let mut ls = lanes();
    ls.push(TrackLane { name: "Pad".to_string(), source: "Sin".to_string(), placements: Vec::new(), clips: Vec::new() });
    ls.push(TrackLane { name: "Drums".to_string(), source: "Kit".to_string(), placements: Vec::new(), clips: Vec::new() });
    let mut v = view();
    v.selected_lane = 9;
    v.song_mode = true;
    v.view_start_tick = 960;
    let f = pane.render(95, 7, &ls, &v);
    assert_eq!(f.title, " Track [Song] ");
    assert_eq!(f.lanes.len(), 2);
    assert_eq!(f.lanes[0].lane, 2);
    assert_eq!(f.lanes[1].lane, 3);
    assert!(f.lanes[1].selected);
    assert_eq!(f.playhead_col, None);
    assert_eq!(f.cursor, Some((1, 12)));
    assert_eq!(f.position, "Bar 2 Beat 2  |  No clips");

    let f = pane.render(95, 27, &lanes(), &v);
    let b = f.lanes[0].blocks[0].as_ref().unwrap();
    assert_eq!((b.first, b.last), (0, 8));
    assert!(!b.opens);
}

#[test]
fn track_frame_without_instruments() {
    let pane = TrackPane::new(Keymap::new());
    let f = pane.render(95, 27, &Vec::new(), &view());
    assert!(f.empty);
    assert!(f.lanes.is_empty());
    assert!(f.marks.is_empty());
    assert_eq!(f.cursor, None);
}
