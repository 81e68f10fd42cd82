use imbolc::keymap::Keymap;
use imbolc::midi_settings::MidiSettingsPane;
use imbolc::vst_param::VstParamPane;

#[test]
fn midi_settings_pane_id() {
    let pane = MidiSettingsPane::new(Keymap::new());
    assert_eq!(pane.id(), "midi_settings");
}

#[test]
fn vst_param_pane_id() {
    let pane = VstParamPane::new(Keymap::new());
    assert_eq!(pane.id(), "vst_params");
}
