use imbolc::keymap::Keymap;
use imbolc::server::{AudioDevice, AudioDeviceConfig, ServerPane};

fn pane() -> ServerPane {
    let devices = vec![
        AudioDevice {
            name: "Built-in".to_string(),
            sample_rate: Some(48000),
            input_channels: Some(2),
            output_channels: Some(2),
        },
        AudioDevice { name: "USB Mic".to_string(), sample_rate: None, input_channels: Some(1), output_channels: Some(0) },
    ];
    let config = AudioDeviceConfig { input_device: None, output_device: None };
    ServerPane::new(Keymap::new(), devices, &config)
}

#[test]
fn server_frame_lists_devices_and_status() {
    let mut p = pane();
    p.message = "Hello world".to_string();
    p.log_lines = (0..12).map(|i| format!("l{}", i)).collect();
    let f = p.render(70, 30, Some(125));
    assert_eq!(f.server_text, "Stopped");
    assert_eq!(f.status_text, "Not connected");
    assert_eq!(f.message.as_deref(), Some("Hello world"));
    assert_eq!(f.recording.as_deref(), Some("REC 02:05"));
    assert_eq!(f.outputs.len(), 2);
    assert!(f.outputs[0].selected);
    assert_eq!(f.outputs[0].name, "System Default");
    assert_eq!(f.outputs[1].name, "Built-in");
    assert_eq!(f.outputs[1].info, "  (48000Hz, 2out, 2in)");
    assert_eq!(f.inputs.len(), 3);
    assert_eq!(f.inputs[2].name, "USB Mic");
    assert_eq!(f.inputs[2].info, "  (1in)");
    assert!(!f.restart_hint);
    let log = f.log.unwrap();
    assert_eq!(log.len(), 10);
    assert_eq!(log[0], "l2");
    assert_eq!(log[9], "l11");
}

#[test]
fn server_frame_makes_room_for_the_hint() {
    let mut p = pane();
    p.device_config_dirty = true;
    p.server_running = true;
    p.log_lines = vec!["started".to_string()];
    assert!(p.render(70, 18, None).log.is_none());
    let f = p.render(70, 20, None);
    assert!(f.restart_hint);
    assert_eq!(f.server_text, "Running");
    assert!(f.log.is_none());
    assert!(f.recording.is_none());
    assert!(f.message.is_none());
    let g = p.render(70, 21, None);
    assert_eq!(g.log.unwrap().len(), 0);
    let narrow = {
        let mut q = pane();
        q.message = "abcdefgh".to_string();
        q.render(8, 30, None)
    };
    assert_eq!(narrow.message.as_deref(), Some("abcd"));
}
