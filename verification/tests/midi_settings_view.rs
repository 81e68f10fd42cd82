use imbolc::keymap::Keymap;
use imbolc::midi_settings::{CcMapping, MidiSection, MidiSettingsPane};
use imbolc::midi_settings_view::{LineStyle, MidiLine, MidiView};

fn view() -> MidiView {
    MidiView {
        connected_port: Some("USB".to_string()),
        port_names: vec!["USB".to_string(), "Other".to_string()],
        mappings: vec![CcMapping { cc_number: 7, channel: Some(0) }, CcMapping { cc_number: 64, channel: None }],
        mapping_targets: vec!["Volume".to_string(), "Sustain".to_string()],
        note_passthrough: true,
        channel_filter: Some(2),
        live_input: Some(5),
        live_input_name: None,
    }
}

fn row(l: &Option<MidiLine>) -> Option<(LineStyle, String, String)> {
    l.as_ref().map(|m| (m.style, m.text.clone(), m.suffix.clone()))
}

fn line(style: LineStyle, text: &str) -> Option<(LineStyle, String, String)> {
    Some((style, text.to_string(), String::new()))
}

#[test]
fn midi_ports_section_rows() {
    let p = MidiSettingsPane::new(Keymap::new());
    let rows: Vec<_> = p.render(&view(), 40, 20).iter().map(row).collect();
    assert_eq!(
        rows,
        vec![
            Some((LineStyle::ActiveSection, " Ports ".to_string(), "  [Connected: USB]".to_string())),
            line(LineStyle::Highlight, " * USB"),
            line(LineStyle::Normal, "   Other"),
            None,
            line(LineStyle::Section, " CC Mappings (2)"),
            None,
            line(LineStyle::Section, " Settings"),
        ]
    );
    assert_eq!(p.render(&view(), 40, 5).len(), 5);
    assert!(p.render(&view(), 19, 20).is_empty());
    assert!(p.render(&view(), 40, 2).is_empty());
}

#[test]
fn midi_mapping_and_settings_rows() {
    let mut p = MidiSettingsPane::new(Keymap::new());
    p.section = MidiSection::CcMappings;
    p.mapping_cursor = 1;
    let rows: Vec<_> = p.render(&view(), 40, 20).iter().map(row).collect();
    assert_eq!(rows[0], Some((LineStyle::Section, " Ports ".to_string(), "  [Connected: USB]".to_string())));
    assert_eq!(rows[2], line(LineStyle::ActiveSection, " CC Mappings (2)"));
    assert_eq!(rows[3], line(LineStyle::Normal, "  CC7   ch1 -> Volume"));
    assert_eq!(rows[4], line(LineStyle::Highlight, "  CC64  any -> Sustain"));

    p.section = MidiSection::Settings;
    let mut v = view();
    v.connected_port = None;
    let rows: Vec<_> = p.render(&v, 40, 20).iter().map(row).collect();
    assert_eq!(rows[0], Some((LineStyle::Section, " Ports ".to_string(), "  [Not connected]".to_string())));
    assert_eq!(rows[4], line(LineStyle::ActiveSection, " Settings"));
    assert_eq!(rows[5], line(LineStyle::Normal, "  Note passthrough: ON"));
    assert_eq!(rows[6], line(LineStyle::Normal, "  Channel filter: Ch 3"));
    assert_eq!(rows[7], line(LineStyle::Normal, "  Live input instrument: #5"));
}
