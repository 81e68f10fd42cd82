use imbolc::server::auto_start_events;
use imbolc::server::{connect_report, load_synthdefs_report, start_report, stop_report, ServerStatus};
use imbolc::synthdefs::{compile_script, recording_file_name, replace_chars, sclang_failed};

fn chars(s: &str) -> Vec<char> {
    s.chars().collect()
}

#[test]
fn replace_is_left_to_right_and_non_overlapping() {
    let r = replace_chars(&chars("aaaa"), &chars("aa"), &chars("b"));
    assert_eq!(r.iter().collect::<String>(), "bb");
    let r = replace_chars(&chars("xabcabx"), &chars("ab"), &chars("[ab]"));
    assert_eq!(r.iter().collect::<String>(), "x[ab]c[ab]x");
    let r = replace_chars(&chars("abc"), &chars("zz"), &chars("y"));
    assert_eq!(r.iter().collect::<String>(), "abc");
}

#[test]
fn compile_script_points_at_output_dir() {
    let scd = "d = dir ? thisProcess.nowExecutingPath.dirname;\ne = thisProcess.nowExecutingPath.dirname;";
    let script = compile_script(scd, "/tmp/out");
    assert_eq!(
        script,
        "(\nd = \"/tmp/out\";\ne = \"/tmp/out\";\n\"SUCCESS\".postln;\n0.exit;\n)"
    );
}

#[test]
fn compiler_failures_are_detected() {
    assert!(!sclang_failed("compiling...\nSUCCESS\n", ""));
    assert!(sclang_failed("", "warning\nERROR: syntax\n"));
    assert!(sclang_failed("ok\nERROR: bad class\n", ""));
    assert!(!sclang_failed("note: ERROR: inside a line\n", ""));
    assert!(sclang_failed("build FAILURE\n", ""));
    assert!(sclang_failed("", "FAILURE IN SERVER"));
}

#[test]
fn recording_names() {
    assert_eq!(recording_file_name("master", 1700000000), "master_1700000000.wav");
    assert_eq!(recording_file_name("input_3", 0), "input_3_0.wav");
}

#[test]
fn server_reports() {
    let ok: Result<(), String> = Ok(());
    let bad: Result<(), String> = Err("missing dir".to_string());
    let r = connect_report(false, &ok, &ok);
    assert_eq!(r.status, ServerStatus::Connected);
    assert_eq!(r.message, "Connected");
    let r = connect_report(true, &ok, &bad);
    assert_eq!(r.message, "Restarted (synthdef warning: missing dir)");
    let r = connect_report(false, &bad, &Err("other".to_string()));
    assert_eq!(r.message, "Connected (synthdef warning: missing dir)");
    let r = start_report(false, &ok);
    assert_eq!((r.status, r.message.as_str(), r.server_running), (ServerStatus::Running, "Server started", Some(true)));
    let r = start_report(true, &Err("no device".to_string()));
    assert_eq!((r.status, r.message.as_str(), r.server_running), (ServerStatus::Error, "no device", Some(false)));
    let r = stop_report(true);
    assert_eq!((r.status, r.message.as_str()), (ServerStatus::Stopped, "Restarting server..."));
    let r = load_synthdefs_report(ServerStatus::Running, &ok, &bad);
    assert_eq!(r.message, "Error loading custom: missing dir");
    let r = load_synthdefs_report(ServerStatus::Running, &ok, &ok);
    assert_eq!(r.message, "Synthdefs loaded (built-in + custom)");
}

#[test]
fn automatic_start_reports() {
    let ok: Result<(), String> = Ok(());
    let (events, rebuild) = auto_start_events(&Err("no scsynth".to_string()), &None, &None);
    assert!(events.is_empty());
    assert!(!rebuild);
    let (events, rebuild) = auto_start_events(&ok, &Some(ok.clone()), &Some(ok.clone()));
    assert_eq!(events.len(), 2);
    assert_eq!(events[0].message, "Server started");
    assert_eq!(events[0].server_running, Some(true));
    assert_eq!(events[1].message, "Connected + synthdefs loaded");
    assert!(rebuild);
    let (events, rebuild) = auto_start_events(&ok, &Some(Err("refused".to_string())), &None);
    assert_eq!(events[1].status, ServerStatus::Running);
    assert_eq!(events[1].message, "Server running (connect failed: refused)");
    assert!(!rebuild);
    let (events, _) = auto_start_events(&ok, &Some(ok.clone()), &Some(Err("bad file".to_string())));
    assert_eq!(events[1].message, "Connected (synthdef warning: bad file)");
}

#[test]
fn midi_bytes() {
    assert_eq!(imbolc::osc::midi_note_on(60, 100), vec![0x90, 60, 100]);
    assert_eq!(imbolc::osc::midi_note_off(60), vec![0x80, 60, 0]);
}
