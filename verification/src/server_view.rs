//! What the audio server pane shows: the server and connection status, the
//! last message, the recording clock, the two device lists, the restart hint
//! and as much of the server log's tail as fits.

use vstd::prelude::*;
use crate::server::{offered, offered_devices, AudioDevice, ServerPane, ServerStatus};
use crate::text::{decimal, push_decimal, take_chars, take_str};

verus! {

/// A row of a device list.
pub struct DeviceRow {
    pub selected: bool,
    /// The device name, or "System Default" for the first row.
    pub name: String,
    /// The sample rate and channel counts in brackets, or nothing.
    pub info: String,
}

/// The contents of the server pane's box.
pub struct ServerFrame {
    pub server_text: &'static str,
    pub status_text: &'static str,
    /// The last message, cut to the width; none when there is no message.
    pub message: Option<String>,
    /// The recording clock, while recording.
    pub recording: Option<String>,
    pub outputs: Vec<DeviceRow>,
    pub inputs: Vec<DeviceRow>,
    /// The hint to restart the server for new devices is shown.
    pub restart_hint: bool,
    /// The shown tail of the server log, when there is room for the log section.
    pub log: Option<Vec<String>>,
}

/// The parts of a device's description.
pub open spec fn info_parts(d: AudioDevice) -> Seq<Seq<char>> {
    let a: Seq<Seq<char>> = match d.sample_rate {
        Some(sr) => seq![decimal(sr as nat) + "Hz"@],
        None => Seq::empty(),
    };
    let b: Seq<Seq<char>> = match d.output_channels {
        Some(c) => if c > 0 { seq![decimal(c as nat) + "out"@] } else { Seq::empty() },
        None => Seq::empty(),
    };
    let c: Seq<Seq<char>> = match d.input_channels {
        Some(c) => if c > 0 { seq![decimal(c as nat) + "in"@] } else { Seq::empty() },
        None => Seq::empty(),
    };
    a + b + c
}

/// Texts joined with ", ".
pub open spec fn join_comma(parts: Seq<Seq<char>>) -> Seq<char>
    decreases parts.len(),
{
    if parts.len() == 0 {
        Seq::empty()
    } else if parts.len() == 1 {
        parts[0]
    } else {
        join_comma(parts.drop_last()) + ", "@ + parts.last()
    }
}

/// The description after a device name: "  (" and its parts, or nothing.
pub open spec fn device_info_text(d: AudioDevice) -> Seq<char> {
    if info_parts(d).len() == 0 {
        Seq::empty()
    } else {
        "  ("@ + join_comma(info_parts(d)) + ")"@
    }
}

/// A number in at least two digits.
pub open spec fn two_digits(n: nat) -> Seq<char> {
    if n < 10 { "0"@ + decimal(n) } else { decimal(n) }
}

/// The recording clock: minutes and seconds.
pub open spec fn recording_text(secs: u64) -> Seq<char> {
    "REC "@ + two_digits((secs / 60) as nat) + ":"@ + two_digits((secs % 60) as nat)
}

/// The server process line.
pub open spec fn server_text_of(running: bool) -> Seq<char> {
    if running { "Running"@ } else { "Stopped"@ }
}

/// The connection line.
pub open spec fn status_text_of(s: ServerStatus) -> Seq<char> {
    match s {
        ServerStatus::Stopped => "Not connected"@,
        ServerStatus::Starting => "Starting..."@,
        ServerStatus::Running => "Ready (not connected)"@,
        ServerStatus::Connected => "Connected"@,
        ServerStatus::Error => "Error"@,
    }
}

/// `rows` is the list of `offers` of `devs` with entry `selected` highlighted:
/// the system default first, then each offered device.
pub open spec fn device_rows_show(rows: Seq<DeviceRow>, devs: Seq<AudioDevice>, offers: Seq<usize>, selected: usize) -> bool {
    &&& rows.len() == offers.len() + 1
    &&& rows[0].selected == (selected == 0)
    &&& rows[0].name@ == "System Default"@
    &&& rows[0].info@.len() == 0
    &&& forall|i: int|
        0 <= i < offers.len() ==> {
            &&& (#[trigger] rows[i + 1]).selected == (selected == i + 1)
            &&& rows[i + 1].name@ == devs[offers[i] as int].name@
            &&& rows[i + 1].info@ == device_info_text(devs[offers[i] as int])
        }
}

/// Appends the decimal notation of `n` in at least two digits.
fn push_two_digits(s: &mut String, n: u64)
    ensures
        final(s)@ == old(s)@ + two_digits(n as nat),
{
    if n < 10 {
        proof {
            reveal_strlit("0");
        }
        s.append("0");
    }
    push_decimal(s, n);
}

/// The description after a device name.
fn device_info(d: &AudioDevice) -> (r: String)
    ensures
        r@ == device_info_text(*d),
{
    let ghost parts = info_parts(*d);
    let mut body = String::new();
    let mut count: usize = 0;
    let ghost mut done: Seq<Seq<char>> = Seq::empty();
    proof {
        reveal_strlit("Hz");
        reveal_strlit("out");
        reveal_strlit("in");
        reveal_strlit(", ");
        reveal_strlit("  (");
        reveal_strlit(")");
    }
    match d.sample_rate {
        Some(sr) => {
            let mut part = String::new();
            push_decimal(&mut part, sr as u64);
            part.append("Hz");
            body.append(part.as_str());
            count = count + 1;
            proof {
                done = done.push(part@);
            }
        },
        None => {},
    }
    assert(body@ == join_comma(done) && count == done.len());
    match d.output_channels {
        Some(c) => if c > 0 {
            let mut part = String::new();
            push_decimal(&mut part, c as u64);
            part.append("out");
            if count > 0 {
                body.append(", ");
            }
            body.append(part.as_str());
            count = count + 1;
            proof {
                assert(done.push(part@).drop_last() =~= done);
                done = done.push(part@);
                assert(body@ =~= join_comma(done));
            }
        },
        None => {},
    }
    match d.input_channels {
        Some(c) => if c > 0 {
            let mut part = String::new();
            push_decimal(&mut part, c as u64);
            part.append("in");
            if count > 0 {
                body.append(", ");
            }
            body.append(part.as_str());
            count = count + 1;
            proof {
                assert(done.push(part@).drop_last() =~= done);
                done = done.push(part@);
                assert(body@ =~= join_comma(done));
            }
        },
        None => {},
    }
    assert(done =~= parts);
    if count == 0 {
        String::new()
    } else {
        let mut r = String::from_str("  (");
        r.append(body.as_str());
        r.append(")");
        r
    }
}

/// The list of `offers` with entry `selected` highlighted.
fn device_rows(devices: &Vec<AudioDevice>, offers: &Vec<usize>, selected: usize) -> (rows: Vec<DeviceRow>)
    requires
        forall|i: int| 0 <= i < offers@.len() ==> #[trigger] offers@[i] < devices@.len(),
    ensures
        device_rows_show(rows@, devices@, offers@, selected),
{
    let mut rows: Vec<DeviceRow> = Vec::new();
    proof {
        reveal_strlit("System Default");
    }
    rows.push(DeviceRow { selected: selected == 0, name: String::from_str("System Default"), info: String::new() });
    let mut i: usize = 0;
    while i < offers.len()
        invariant
            i <= offers@.len(),
            forall|q: int| 0 <= q < offers@.len() ==> #[trigger] offers@[q] < devices@.len(),
            rows@.len() == i + 1,
            rows@[0].selected == (selected == 0),
            rows@[0].name@ == "System Default"@,
            rows@[0].info@.len() == 0,
            forall|q: int|
                0 <= q < i ==> {
                    &&& (#[trigger] rows@[q + 1]).selected == (selected == q + 1)
                    &&& rows@[q + 1].name@ == devices@[offers@[q] as int].name@
                    &&& rows@[q + 1].info@ == device_info_text(devices@[offers@[q] as int])
                },
        decreases offers@.len() - i,
    {
        let d = &devices[offers[i]];
        let name = String::from_str(d.name.as_str());
        let info = device_info(d);
        rows.push(DeviceRow { selected: selected == i + 1, name, info });
        i = i + 1;
    }
    rows
}

impl ServerPane {
    /// The row after the device lists, counted from the top of the box.
    pub open spec fn rows_before_log(self) -> int {
        12 + offered(self.devices@, true).len() as int + offered(self.devices@, false).len() as int
    }

    /// The pane drawn in a box `width` by `height` (border included), with the
    /// seconds recorded so far while recording.
    pub fn render(&self, width: u16, height: u16, recording_secs: Option<u64>) -> (f: ServerFrame)
        requires
            self.wf(),
        ensures
            f.server_text@ == server_text_of(self.server_running),
            f.status_text@ == status_text_of(self.status),
            match f.message {
                None => self.message@.len() == 0,
                Some(m) => self.message@.len() > 0 && m@ == take_chars(
                    self.message@,
                    if width >= 4 { width - 4 } else { 0 },
                ),
            },
            match recording_secs {
                None => f.recording is None,
                Some(s) => f.recording matches Some(r) && r@ == recording_text(s),
            },
            device_rows_show(f.outputs@, self.devices@, offered(self.devices@, true), self.selected_output),
            device_rows_show(f.inputs@, self.devices@, offered(self.devices@, false), self.selected_input),
            f.restart_hint == (self.device_config_dirty && self.server_running && self.rows_before_log() < height - 3),
            ({
                let y = self.rows_before_log() + (if f.restart_hint { 1int } else { 0 });
                let w = if width >= 4 { width - 4 } else { 0 };
                let available = height - 4 - (y + 1);
                let n = self.log_lines@.len();
                let shown = if available <= 0 { 0 } else if n < available { n as int } else { available };
                if y < height - 4 {
                    f.log matches Some(lines) && lines@.len() == shown && forall|i: int|
                        0 <= i < shown ==> (#[trigger] lines@[i])@ == take_chars(self.log_lines@[n - shown + i]@, w)
                } else {
                    f.log is None
                }
            }),
    {
        let outs = offered_devices(&self.devices, true);
        let ins = offered_devices(&self.devices, false);
        let w: usize = width.saturating_sub(4) as usize;
        let server_text = if self.server_running { "Running" } else { "Stopped" };
        let status_text = match self.status {
            ServerStatus::Stopped => "Not connected",
            ServerStatus::Starting => "Starting...",
            ServerStatus::Running => "Ready (not connected)",
            ServerStatus::Connected => "Connected",
            ServerStatus::Error => "Error",
        };
        let mlen = self.message.as_str().unicode_len();
        let message = if mlen == 0 { None } else { Some(take_str(self.message.as_str(), w)) };
        let recording = match recording_secs {
            Some(s) => {
                proof {
                    reveal_strlit("REC ");
                    reveal_strlit(":");
                }
                let mut r = String::from_str("REC ");
                push_two_digits(&mut r, s / 60);
                r.append(":");
                push_two_digits(&mut r, s % 60);
                Some(r)
            },
            None => None,
        };
        let outputs = device_rows(&self.devices, &outs, self.selected_output);
        let inputs = device_rows(&self.devices, &ins, self.selected_input);
        let y0: u128 = 12 + outs.len() as u128 + ins.len() as u128;
        let h: u128 = height as u128;
        let restart_hint = self.device_config_dirty && self.server_running && y0 + 3 < h;
        let y: u128 = if restart_hint { y0 + 1 } else { y0 };
        let log = if y + 4 < h {
            let available: u128 = if h > y + 5 { h - 4 - (y + 1) } else { 0 };
            let n = self.log_lines.len();
            let shown: usize = if (n as u128) < available { n } else { available as usize };
            let mut lines: Vec<String> = Vec::new();
            let mut i: usize = 0;
            while i < shown
                invariant
                    shown <= n == self.log_lines@.len(),
                    i <= shown,
                    lines@.len() == i,
                    forall|q: int|
                        0 <= q < i ==> (#[trigger] lines@[q])@ == take_chars(self.log_lines@[n - shown + q]@, w as int),
                decreases shown - i,
            {
                let line = take_str(self.log_lines[n - shown + i].as_str(), w);
                lines.push(line);
                i = i + 1;
            }
            Some(lines)
        } else {
            None
        };
        ServerFrame { server_text, status_text, message, recording, outputs, inputs, restart_hint, log }
    }
}

} // verus!
