//! The audio server pane: server status and controls, and the choice of output
//! and input device (entry 0 of each list is the system default).

use vstd::prelude::*;
use crate::action::{Action, ServerAction};
use crate::keymap::{KeyCode, Keymap};
use crate::text::{decimal, push_decimal, str_eq};

verus! {

/// The state of the audio server.
#[derive(Debug, Clone, Copy, PartialEq, Eq)]
pub enum ServerStatus {
    Stopped,
    Starting,
    Running,
    Connected,
    Error,
}

/// An audio device, its sample rate and its channel counts (when known).
#[derive(Debug)]
pub struct AudioDevice {
    pub name: String,
    /// The sample rate in Hz, when known.
    pub sample_rate: Option<u32>,
    pub input_channels: Option<u32>,
    pub output_channels: Option<u32>,
}

/// The saved device choice; `None` means the system default.
#[derive(Debug)]
pub struct AudioDeviceConfig {
    pub input_device: Option<String>,
    pub output_device: Option<String>,
}

/// Which part of the pane the arrow keys act on.
#[derive(Debug, Clone, Copy, PartialEq, Eq, Structural)]
pub enum ServerPaneFocus {
    Controls,
    OutputDevice,
    InputDevice,
}

/// Whether a device has channels in the given direction.
pub open spec fn has_channels(d: AudioDevice, output: bool) -> bool {
    let c = if output { d.output_channels } else { d.input_channels };
    c matches Some(n) && n > 0
}

/// The positions, in order, of the first `n` devices with channels in the direction.
pub open spec fn device_positions(devs: Seq<AudioDevice>, output: bool, n: int) -> Seq<usize>
    decreases n,
{
    if n <= 0 {
        Seq::empty()
    } else if has_channels(devs[n - 1], output) {
        device_positions(devs, output, n - 1).push((n - 1) as usize)
    } else {
        device_positions(devs, output, n - 1)
    }
}

/// The positions of the devices offered as outputs (or inputs).
pub open spec fn offered(devs: Seq<AudioDevice>, output: bool) -> Seq<usize> {
    device_positions(devs, output, devs.len() as int)
}

/// The first position from `i` on in `offers` whose device is named `name`, or -1.
pub open spec fn first_named(devs: Seq<AudioDevice>, offers: Seq<usize>, name: Seq<char>, i: int) -> int
    decreases offers.len() - i,
{
    if i < 0 || i >= offers.len() {
        -1
    } else if devs[offers[i] as int].name@ == name {
        i
    } else {
        first_named(devs, offers, name, i + 1)
    }
}

/// The list entry (0 = system default, i + 1 = the i-th offered device) of the first
/// offered device named `name`, or 0 when none is.
pub open spec fn entry_of_name(devs: Seq<AudioDevice>, output: bool, name: Option<Seq<char>>) -> usize {
    match name {
        None => 0,
        Some(n) => {
            let k = first_named(devs, offered(devs, output), n, 0);
            if k < 0 {
                0
            } else {
                (k + 1) as usize
            }
        },
    }
}

/// The text of an optional name.
pub open spec fn opt_view(o: Option<String>) -> Option<Seq<char>> {
    match o {
        Some(s) => Some(s@),
        None => None,
    }
}

/// The name of the device at list entry `entry`, `None` for the system default or
/// an entry past the list.
pub open spec fn name_at_entry(devs: Seq<AudioDevice>, output: bool, entry: usize) -> Option<Seq<char>> {
    let offers = offered(devs, output);
    if entry == 0 || entry - 1 >= offers.len() {
        None
    } else {
        Some(devs[offers[entry - 1] as int].name@)
    }
}

/// `first_named` gives -1 or a position from `i` on.
proof fn lemma_first_named_range(devs: Seq<AudioDevice>, offers: Seq<usize>, name: Seq<char>, i: int)
    requires
        0 <= i,
    ensures
        first_named(devs, offers, name, i) == -1 || i <= first_named(devs, offers, name, i) < offers.len(),
    decreases offers.len() - i,
{
    if i < offers.len() && devs[offers[i] as int].name@ != name {
        lemma_first_named_range(devs, offers, name, i + 1);
    }
}

/// The list entry of a name lies in the list (the default entry and one per offered device).
proof fn lemma_entry_of_name_range(devs: Seq<AudioDevice>, output: bool, name: Option<Seq<char>>)
    ensures
        entry_of_name(devs, output, name) <= offered(devs, output).len(),
{
    if let Some(n) = name {
        lemma_first_named_range(devs, offered(devs, output), n, 0);
    }
}

proof fn lemma_positions_bounds(devs: Seq<AudioDevice>, output: bool, n: int)
    requires
        0 <= n <= devs.len(),
    ensures
        device_positions(devs, output, n).len() <= n,
        forall|i: int|
            0 <= i < device_positions(devs, output, n).len() ==> #[trigger] device_positions(devs, output, n)[i] < n,
    decreases n,
{
    if n > 0 {
        lemma_positions_bounds(devs, output, n - 1);
    }
}

/// The positions of the devices with channels in the direction.
pub fn offered_devices(devices: &Vec<AudioDevice>, output: bool) -> (r: Vec<usize>)
    ensures
        r@ == offered(devices@, output),
        r@.len() <= devices@.len(),
        forall|i: int| 0 <= i < r@.len() ==> #[trigger] r@[i] < devices@.len(),
{
    let mut r: Vec<usize> = Vec::new();
    let mut i: usize = 0;
    while i < devices.len()
        invariant
            i <= devices@.len(),
            r@ == device_positions(devices@, output, i as int),
        decreases devices@.len() - i,
    {
        let d = &devices[i];
        let c = if output {
            d.output_channels
        } else {
            d.input_channels
        };
        let yes = match c {
            Some(n) => n > 0,
            None => false,
        };
        if yes {
            r.push(i);
        }
        i = i + 1;
    }
    proof {
        lemma_positions_bounds(devices@, output, devices@.len() as int);
    }
    r
}

/// The list entry of the first offered device named `name` (0 when none is, or
/// when `name` is `None`).
pub fn entry_for_name(devices: &Vec<AudioDevice>, output: bool, name: &Option<String>) -> (r: usize)
    ensures
        r == entry_of_name(devices@, output, opt_view(*name)),
{
    match name {
        None => 0,
        Some(n) => {
            let offers = offered_devices(devices, output);
            let mut i: usize = 0;
            while i < offers.len()
                invariant
                    offers@ == offered(devices@, output),
                    forall|k: int| 0 <= k < offers@.len() ==> #[trigger] offers@[k] < devices@.len(),
                    i <= offers@.len(),
                    first_named(devices@, offers@, n@, 0) == first_named(devices@, offers@, n@, i as int),
                    opt_view(*name) == Some(n@),
                decreases offers@.len() - i,
            {
                if str_eq(devices[offers[i]].name.as_str(), n.as_str()) {
                    assert(devices@[offers@[i as int] as int].name@ == n@);
                    assert(first_named(devices@, offers@, n@, i as int) == i);
                    return i + 1;
                }
                i = i + 1;
            }
            0
        },
    }
}

/// The name of the device at list entry `entry` (`None` for the system default).
pub fn device_name_at(devices: &Vec<AudioDevice>, output: bool, entry: usize) -> (r: Option<String>)
    ensures
        match name_at_entry(devices@, output, entry) {
            Some(n) => r is Some && r->0@ == n,
            None => r is None,
        },
{
    if entry == 0 {
        return None;
    }
    let offers = offered_devices(devices, output);
    if entry - 1 < offers.len() {
        Some(devices[offers[entry - 1]].name.clone())
    } else {
        None
    }
}

/// The server pane's state.
pub struct ServerPane {
    pub keymap: Keymap,
    pub status: ServerStatus,
    pub message: String,
    pub server_running: bool,
    pub devices: Vec<AudioDevice>,
    /// 0 = system default, i + 1 = the i-th output device.
    pub selected_output: usize,
    /// 0 = system default, i + 1 = the i-th input device.
    pub selected_input: usize,
    pub focus: ServerPaneFocus,
    /// Whether the device choice changed since the server last started.
    pub device_config_dirty: bool,
    /// The tail of the server's log.
    pub log_lines: Vec<String>,
}

/// A change of the server's status reported by the audio side: the status, its
/// message, and whether the server now runs (when that changed).
#[derive(Debug, Clone)]
pub struct StatusEvent {
    pub status: ServerStatus,
    pub message: String,
    pub server_running: Option<bool>,
}

/// The server-running flag after `events`, starting from `running`.
pub open spec fn running_after(events: Seq<StatusEvent>, running: bool) -> bool
    decreases events.len(),
{
    if events.len() == 0 {
        running
    } else {
        match events.last().server_running {
            Some(r) => r,
            None => running_after(events.drop_last(), running),
        }
    }
}

/// Lines of the server log the pane keeps.
pub const LOG_TAIL: usize = 50;

/// The last `LOG_TAIL` lines, in order.
pub open spec fn log_tail(lines: Seq<String>) -> Seq<String> {
    lines.subrange(if lines.len() > LOG_TAIL { lines.len() - LOG_TAIL } else { 0 }, lines.len() as int)
}

/// The list entry after Up in a list of `count` entries, wrapping to the last.
pub open spec fn entry_up(entry: usize, count: int) -> usize {
    if entry == 0 { (count - 1) as usize } else { (entry - 1) as usize }
}

/// The list entry after Down in a list of `count` entries, wrapping to the first.
pub open spec fn entry_down(entry: usize, count: int) -> usize {
    ((entry + 1) % count) as usize
}

impl ServerPane {
    /// Each device choice is an entry of its list, and the device list's length
    /// leaves room for the default entry.
    pub open spec fn wf(&self) -> bool {
        &&& self.devices@.len() < usize::MAX
        &&& self.selected_output <= offered(self.devices@, true).len()
        &&& self.selected_input <= offered(self.devices@, false).len()
    }

    /// A pane for `devices` with the choice of `config` selected where those
    /// devices are offered (else the system default); the server is stopped.
    pub fn new(keymap: Keymap, devices: Vec<AudioDevice>, config: &AudioDeviceConfig) -> (p: ServerPane)
        requires
            devices@.len() < usize::MAX,
        ensures
            p.wf(),
            p.keymap == keymap,
            p.devices@ == devices@,
            p.selected_output == entry_of_name(devices@, true, opt_view(config.output_device)),
            p.selected_input == entry_of_name(devices@, false, opt_view(config.input_device)),
            p.status == ServerStatus::Stopped,
            p.message@.len() == 0,
            !p.server_running,
            p.focus == ServerPaneFocus::Controls,
            !p.device_config_dirty,
            p.log_lines@.len() == 0,
    {
        let selected_output = entry_for_name(&devices, true, &config.output_device);
        let selected_input = entry_for_name(&devices, false, &config.input_device);
        proof {
            lemma_entry_of_name_range(devices@, true, opt_view(config.output_device));
            lemma_entry_of_name_range(devices@, false, opt_view(config.input_device));
        }
        ServerPane {
            keymap,
            status: ServerStatus::Stopped,
            message: String::new(),
            server_running: false,
            devices,
            selected_output,
            selected_input,
            focus: ServerPaneFocus::Controls,
            device_config_dirty: false,
            log_lines: Vec::new(),
        }
    }

    pub fn id(&self) -> (r: &'static str)
        ensures
            r@ == "server"@,
    {
        "server"
    }

    /// The log lines kept after reading the server log: the last `LOG_TAIL`
    /// lines of what was read, or the old ones when the log could not be read.
    pub open spec fn log_after(self, log: Option<Vec<String>>) -> Seq<String> {
        match log {
            Some(lines) => log_tail(lines@),
            None => self.log_lines@,
        }
    }

    /// Records the server status and its message, then reloads the log from
    /// `log`, the lines of the server log file as read now (`None` when it
    /// could not be read).
    pub fn set_status(&mut self, status: ServerStatus, message: &str, log: Option<Vec<String>>)
        ensures
            final(self).status == status,
            final(self).message@ == message@,
            final(self).server_running == old(self).server_running,
            final(self).devices == old(self).devices,
            final(self).selected_output == old(self).selected_output,
            final(self).selected_input == old(self).selected_input,
            final(self).focus == old(self).focus,
            final(self).device_config_dirty == old(self).device_config_dirty,
            final(self).log_lines@ == old(self).log_after(log),
            final(self).keymap == old(self).keymap,
    {
        self.status = status;
        self.message = String::from_str(message);
        match log {
            Some(lines) => self.set_log_lines(lines),
            None => {},
        }
    }

    /// Records whether the server runs, then reloads the log from `log` (the
    /// log file's lines as read now, `None` when it could not be read).
    pub fn set_server_running(&mut self, running: bool, log: Option<Vec<String>>)
        ensures
            final(self).server_running == running,
            final(self).status == old(self).status,
            final(self).message == old(self).message,
            final(self).devices == old(self).devices,
            final(self).selected_output == old(self).selected_output,
            final(self).selected_input == old(self).selected_input,
            final(self).focus == old(self).focus,
            final(self).device_config_dirty == old(self).device_config_dirty,
            final(self).log_lines@ == old(self).log_after(log),
            final(self).keymap == old(self).keymap,
    {
        self.server_running = running;
        match log {
            Some(lines) => self.set_log_lines(lines),
            None => {},
        }
    }

    /// Keeps the last `LOG_TAIL` lines of the server log, in order.
    pub fn set_log_lines(&mut self, lines: Vec<String>)
        ensures
            final(self).log_lines@ == log_tail(lines@),
            final(self).status == old(self).status,
            final(self).message == old(self).message,
            final(self).server_running == old(self).server_running,
            final(self).devices == old(self).devices,
            final(self).selected_output == old(self).selected_output,
            final(self).selected_input == old(self).selected_input,
            final(self).focus == old(self).focus,
            final(self).device_config_dirty == old(self).device_config_dirty,
            final(self).keymap == old(self).keymap,
    {
        let n = lines.len();
        let start = if n > LOG_TAIL { n - LOG_TAIL } else { 0 };
        let mut kept: Vec<String> = Vec::new();
        let mut i: usize = start;
        while i < n
            invariant
                n == lines@.len(),
                start <= i <= n,
                kept@ == lines@.subrange(start as int, i as int),
            decreases n - i,
        {
            kept.push(lines[i].clone());
            i = i + 1;
            assert(kept@ =~= lines@.subrange(start as int, i as int));
        }
        self.log_lines = kept;
    }

    /// Applies status reports in order: the last one's status and message stay,
    /// and the running flag follows the last report that set it. Each report
    /// reloads the server log; `log` is the log file's lines as read while the
    /// reports are applied (`None` when it could not be read), so with at least
    /// one report the last `LOG_TAIL` of them are kept.
    pub fn apply_status_events(&mut self, events: &Vec<StatusEvent>, log: Option<Vec<String>>)
        ensures
            final(self).log_lines@ == if events@.len() > 0 { old(self).log_after(log) } else { old(self).log_lines@ },
            events@.len() > 0 ==> final(self).status == events@.last().status
                && final(self).message@ == events@.last().message@,
            events@.len() == 0 ==> final(self).status == old(self).status && final(self).message == old(self).message,
            final(self).server_running == running_after(events@, old(self).server_running),
            final(self).devices == old(self).devices,
            final(self).selected_output == old(self).selected_output,
            final(self).selected_input == old(self).selected_input,
            final(self).focus == old(self).focus,
            final(self).device_config_dirty == old(self).device_config_dirty,
    {
        let mut i: usize = 0;
        while i < events.len()
            invariant
                i <= events@.len(),
                i > 0 ==> self.status == events@[i - 1].status && self.message@ == events@[i - 1].message@,
                i == 0 ==> self.status == old(self).status && self.message == old(self).message,
                self.server_running == running_after(events@.subrange(0, i as int), old(self).server_running),
                self.devices == old(self).devices,
                self.selected_output == old(self).selected_output,
                self.selected_input == old(self).selected_input,
                self.focus == old(self).focus,
                self.device_config_dirty == old(self).device_config_dirty,
                self.log_lines == old(self).log_lines,
            decreases events@.len() - i,
        {
            let e = &events[i];
            self.status = e.status;
            self.message = String::from_str(e.message.as_str());
            match e.server_running {
                Some(r) => self.server_running = r,
                None => {},
            }
            proof {
                assert(events@.subrange(0, i + 1).drop_last() =~= events@.subrange(0, i as int));
            }
            i = i + 1;
        }
        assert(events@.subrange(0, events@.len() as int) =~= events@);
        if events.len() > 0 {
            match log {
                Some(lines) => self.set_log_lines(lines),
                None => {},
            }
        }
    }

    pub fn clear_device_config_dirty(&mut self)
        ensures
            *final(self) == (ServerPane { device_config_dirty: false, ..*old(self) }),
    {
        self.device_config_dirty = false;
    }

    /// The name of the chosen output device (`None` for the system default).
    pub fn selected_output_device(&self) -> (r: Option<String>)
        ensures
            match name_at_entry(self.devices@, true, self.selected_output) {
                Some(n) => r is Some && r->0@ == n,
                None => r is None,
            },
    {
        device_name_at(&self.devices, true, self.selected_output)
    }

    /// The name of the chosen input device (`None` for the system default).
    pub fn selected_input_device(&self) -> (r: Option<String>)
        ensures
            match name_at_entry(self.devices@, false, self.selected_input) {
                Some(n) => r is Some && r->0@ == n,
                None => r is None,
            },
    {
        device_name_at(&self.devices, false, self.selected_input)
    }

    /// The positions in `devices` of the devices offered as outputs.
    pub fn output_devices(&self) -> (r: Vec<usize>)
        ensures
            r@ == offered(self.devices@, true),
    {
        offered_devices(&self.devices, true)
    }

    /// The positions in `devices` of the devices offered as inputs.
    pub fn input_devices(&self) -> (r: Vec<usize>)
        ensures
            r@ == offered(self.devices@, false),
    {
        offered_devices(&self.devices, false)
    }

    /// Moves the arrow-key focus: controls → output device → input device → controls.
    pub fn cycle_focus(&mut self)
        ensures
            final(self).focus == match old(self).focus {
                ServerPaneFocus::Controls => ServerPaneFocus::OutputDevice,
                ServerPaneFocus::OutputDevice => ServerPaneFocus::InputDevice,
                ServerPaneFocus::InputDevice => ServerPaneFocus::Controls,
            },
            final(self).devices == old(self).devices,
            final(self).selected_output == old(self).selected_output,
            final(self).selected_input == old(self).selected_input,
            final(self).server_running == old(self).server_running,
            final(self).device_config_dirty == old(self).device_config_dirty,
            final(self).status == old(self).status,
            final(self).message == old(self).message,
            final(self).log_lines == old(self).log_lines,
    {
        self.focus = match self.focus {
            ServerPaneFocus::Controls => ServerPaneFocus::OutputDevice,
            ServerPaneFocus::OutputDevice => ServerPaneFocus::InputDevice,
            ServerPaneFocus::InputDevice => ServerPaneFocus::Controls,
        };
    }

    /// Takes a fresh device list and chooses again the devices that were chosen,
    /// by name (the system default when they are gone).
    pub fn refresh_devices(&mut self, devices: Vec<AudioDevice>)
        requires
            devices@.len() < usize::MAX,
        ensures
            final(self).wf(),
            final(self).status == old(self).status,
            final(self).message == old(self).message,
            final(self).log_lines == old(self).log_lines,
            final(self).devices@ == devices@,
            final(self).selected_output == entry_of_name(
                devices@,
                true,
                name_at_entry(old(self).devices@, true, old(self).selected_output),
            ),
            final(self).selected_input == entry_of_name(
                devices@,
                false,
                name_at_entry(old(self).devices@, false, old(self).selected_input),
            ),
            final(self).server_running == old(self).server_running,
            final(self).focus == old(self).focus,
            final(self).device_config_dirty == old(self).device_config_dirty,
    {
        let old_output = self.selected_output_device();
        let old_input = self.selected_input_device();
        self.devices = devices;
        self.selected_output = entry_for_name(&self.devices, true, &old_output);
        self.selected_input = entry_for_name(&self.devices, false, &old_input);
        proof {
            lemma_entry_of_name_range(self.devices@, true, opt_view(old_output));
            lemma_entry_of_name_range(self.devices@, false, opt_view(old_input));
        }
    }
}


/// A command of the server pane, named by its action string.
#[derive(Debug, Clone, Copy, PartialEq, Eq)]
pub enum ServerCommand {
    Start,
    Stop,
    Connect,
    Disconnect,
    Compile,
    CompileVst,
    LoadSynthDefs,
    RecordMaster,
    RefreshDevices,
    NextSection,
    Unknown,
}

/// The command an action string names.
pub open spec fn spec_server_command(a: Seq<char>) -> ServerCommand {
    if a == "start"@ {
        ServerCommand::Start
    } else if a == "stop"@ {
        ServerCommand::Stop
    } else if a == "connect"@ {
        ServerCommand::Connect
    } else if a == "disconnect"@ {
        ServerCommand::Disconnect
    } else if a == "compile"@ {
        ServerCommand::Compile
    } else if a == "compile_vst"@ {
        ServerCommand::CompileVst
    } else if a == "load_synthdefs"@ {
        ServerCommand::LoadSynthDefs
    } else if a == "record_master"@ {
        ServerCommand::RecordMaster
    } else if a == "refresh_devices"@ {
        ServerCommand::RefreshDevices
    } else if a == "next_section"@ {
        ServerCommand::NextSection
    } else {
        ServerCommand::Unknown
    }
}

/// The command an action string names.
pub fn server_command(a: &str) -> (c: ServerCommand)
    ensures
        c == spec_server_command(a@),
{
    if str_eq(a, "start") {
        ServerCommand::Start
    } else if str_eq(a, "stop") {
        ServerCommand::Stop
    } else if str_eq(a, "connect") {
        ServerCommand::Connect
    } else if str_eq(a, "disconnect") {
        ServerCommand::Disconnect
    } else if str_eq(a, "compile") {
        ServerCommand::Compile
    } else if str_eq(a, "compile_vst") {
        ServerCommand::CompileVst
    } else if str_eq(a, "load_synthdefs") {
        ServerCommand::LoadSynthDefs
    } else if str_eq(a, "record_master") {
        ServerCommand::RecordMaster
    } else if str_eq(a, "refresh_devices") {
        ServerCommand::RefreshDevices
    } else if str_eq(a, "next_section") {
        ServerCommand::NextSection
    } else {
        ServerCommand::Unknown
    }
}

/// `r` asks to start (or, with `restart`, restart) the server on the devices at the
/// given list entries of `devs`.
pub open spec fn asks_start(r: Action, restart: bool, devs: Seq<AudioDevice>, input: usize, output: usize) -> bool {
    match r {
        Action::Server(ServerAction::Start { input_device, output_device }) => !restart && opt_view(input_device)
            == name_at_entry(devs, false, input) && opt_view(output_device) == name_at_entry(devs, true, output),
        Action::Server(ServerAction::Restart { input_device, output_device }) => restart && opt_view(input_device)
            == name_at_entry(devs, false, input) && opt_view(output_device) == name_at_entry(devs, true, output),
        _ => false,
    }
}

impl ServerPane {
    fn start_action(&self, restart: bool) -> (r: Action)
        ensures
            asks_start(r, restart, self.devices@, self.selected_input, self.selected_output),
    {
        let input_device = self.selected_input_device();
        let output_device = self.selected_output_device();
        if restart {
            Action::Server(ServerAction::Restart { input_device, output_device })
        } else {
            Action::Server(ServerAction::Start { input_device, output_device })
        }
    }

    /// Handles one action: server controls, re-reading the device list (`fresh`
    /// holds the devices found again; with the server running it restarts on the
    /// devices chosen again), and moving the focus.
    pub fn handle_action(&mut self, action: &str, fresh: Option<Vec<AudioDevice>>) -> (r: Action)
        requires
            old(self).wf(),
            spec_server_command(action@) == ServerCommand::RefreshDevices ==> fresh is Some && fresh->0@.len() < usize::MAX,
        ensures
            final(self).wf(),
            final(self).server_running == old(self).server_running,
            final(self).device_config_dirty == old(self).device_config_dirty,
            final(self).status == old(self).status,
            match spec_server_command(action@) {
                ServerCommand::Start => asks_start(r, false, old(self).devices@, old(self).selected_input, old(self).selected_output)
                    && final(self).devices == old(self).devices && final(self).selected_input == old(self).selected_input
                    && final(self).selected_output == old(self).selected_output && final(self).focus == old(self).focus,
                ServerCommand::RefreshDevices => {
                    &&& final(self).devices@ == fresh->0@
                    &&& final(self).selected_output == entry_of_name(fresh->0@, true, name_at_entry(old(self).devices@, true, old(self).selected_output))
                    &&& final(self).selected_input == entry_of_name(fresh->0@, false, name_at_entry(old(self).devices@, false, old(self).selected_input))
                    &&& final(self).focus == old(self).focus
                    &&& if old(self).server_running {
                        asks_start(r, true, final(self).devices@, final(self).selected_input, final(self).selected_output)
                    } else {
                        r == Action::NoOp
                    }
                },
                cmd => {
                    &&& final(self).devices == old(self).devices
                    &&& final(self).selected_input == old(self).selected_input
                    &&& final(self).selected_output == old(self).selected_output
                    &&& final(self).focus == if cmd == ServerCommand::NextSection {
                        match old(self).focus {
                            ServerPaneFocus::Controls => ServerPaneFocus::OutputDevice,
                            ServerPaneFocus::OutputDevice => ServerPaneFocus::InputDevice,
                            ServerPaneFocus::InputDevice => ServerPaneFocus::Controls,
                        }
                    } else {
                        old(self).focus
                    }
                    &&& r == match cmd {
                        ServerCommand::Stop => Action::Server(ServerAction::Stop),
                        ServerCommand::Connect => Action::Server(ServerAction::Connect),
                        ServerCommand::Disconnect => Action::Server(ServerAction::Disconnect),
                        ServerCommand::Compile => Action::Server(ServerAction::CompileSynthDefs),
                        ServerCommand::CompileVst => Action::Server(ServerAction::CompileVstSynthDefs),
                        ServerCommand::LoadSynthDefs => Action::Server(ServerAction::LoadSynthDefs),
                        ServerCommand::RecordMaster => Action::Server(ServerAction::RecordMaster),
                        _ => Action::NoOp,
                    }
                },
            },
    {
        let cmd = server_command(action);
        match cmd {
            ServerCommand::Start => self.start_action(false),
            ServerCommand::Stop => Action::Server(ServerAction::Stop),
            ServerCommand::Connect => Action::Server(ServerAction::Connect),
            ServerCommand::Disconnect => Action::Server(ServerAction::Disconnect),
            ServerCommand::Compile => Action::Server(ServerAction::CompileSynthDefs),
            ServerCommand::CompileVst => Action::Server(ServerAction::CompileVstSynthDefs),
            ServerCommand::LoadSynthDefs => Action::Server(ServerAction::LoadSynthDefs),
            ServerCommand::RecordMaster => Action::Server(ServerAction::RecordMaster),
            ServerCommand::RefreshDevices => {
                let devices = match fresh {
                    Some(d) => d,
                    None => Vec::new(),
                };
                self.refresh_devices(devices);
                if self.server_running {
                    self.start_action(true)
                } else {
                    Action::NoOp
                }
            },
            ServerCommand::NextSection => {
                self.cycle_focus();
                Action::NoOp
            },
            ServerCommand::Unknown => Action::NoOp,
        }
    }

    /// The device choice as it would be saved.
    pub fn device_config(&self) -> (c: AudioDeviceConfig)
        ensures
            opt_view(c.input_device) == name_at_entry(self.devices@, false, self.selected_input),
            opt_view(c.output_device) == name_at_entry(self.devices@, true, self.selected_output),
    {
        AudioDeviceConfig { input_device: self.selected_input_device(), output_device: self.selected_output_device() }
    }

    /// Handles a key while a device list has the focus: Up and Down move through
    /// the list (system default first) and wrap around; Enter confirms the choice,
    /// which is returned to be saved, and restarts a running server (else the choice
    /// is marked as not yet applied).
    pub fn handle_raw_input(&mut self, key: KeyCode) -> (r: (Action, Option<AudioDeviceConfig>))
        requires
            old(self).wf(),
        ensures
            final(self).wf(),
            final(self).devices == old(self).devices,
            final(self).focus == old(self).focus,
            final(self).server_running == old(self).server_running,
            ({
                let output = old(self).focus == ServerPaneFocus::OutputDevice;
                let input = old(self).focus == ServerPaneFocus::InputDevice;
                let count: int = offered(old(self).devices@, output).len() as int + 1;
                if (output || input) && key == KeyCode::Up {
                    &&& r.0 == Action::NoOp && r.1 is None
                    &&& final(self).device_config_dirty == old(self).device_config_dirty
                    &&& output ==> final(self).selected_output == entry_up(old(self).selected_output, count)
                        && final(self).selected_input == old(self).selected_input
                    &&& input ==> final(self).selected_input == entry_up(old(self).selected_input, count)
                        && final(self).selected_output == old(self).selected_output
                } else if (output || input) && key == KeyCode::Down {
                    &&& r.0 == Action::NoOp && r.1 is None
                    &&& final(self).device_config_dirty == old(self).device_config_dirty
                    &&& output ==> final(self).selected_output == entry_down(old(self).selected_output, count)
                        && final(self).selected_input == old(self).selected_input
                    &&& input ==> final(self).selected_input == entry_down(old(self).selected_input, count)
                        && final(self).selected_output == old(self).selected_output
                } else if (output || input) && key == KeyCode::Enter {
                    &&& final(self).selected_output == old(self).selected_output
                    &&& final(self).selected_input == old(self).selected_input
                    &&& r.1 is Some
                    &&& opt_view(r.1->0.input_device) == name_at_entry(old(self).devices@, false, old(self).selected_input)
                    &&& opt_view(r.1->0.output_device) == name_at_entry(old(self).devices@, true, old(self).selected_output)
                    &&& if old(self).server_running {
                        !final(self).device_config_dirty && asks_start(r.0, true, old(self).devices@, old(self).selected_input, old(self).selected_output)
                    } else {
                        final(self).device_config_dirty && r.0 == Action::NoOp
                    }
                } else {
                    &&& r.0 == Action::NoOp && r.1 is None
                    &&& final(self).selected_output == old(self).selected_output
                    &&& final(self).selected_input == old(self).selected_input
                    &&& final(self).device_config_dirty == old(self).device_config_dirty
                }
            }),
    {
        let output = self.focus == ServerPaneFocus::OutputDevice;
        let input = self.focus == ServerPaneFocus::InputDevice;
        if !output && !input {
            return (Action::NoOp, None);
        }
        let offers = offered_devices(&self.devices, output);
        let count = offers.len() + 1;
        match key {
            KeyCode::Up => {
                if output {
                    self.selected_output = if self.selected_output == 0 { count - 1 } else { self.selected_output - 1 };
                } else {
                    self.selected_input = if self.selected_input == 0 { count - 1 } else { self.selected_input - 1 };
                }
                (Action::NoOp, None)
            },
            KeyCode::Down => {
                if output {
                    self.selected_output = (self.selected_output + 1) % count;
                } else {
                    self.selected_input = (self.selected_input + 1) % count;
                }
                (Action::NoOp, None)
            },
            KeyCode::Enter => {
                let config = self.device_config();
                if self.server_running {
                    self.device_config_dirty = false;
                    (self.start_action(true), Some(config))
                } else {
                    self.device_config_dirty = true;
                    (Action::NoOp, Some(config))
                }
            },
            _ => (Action::NoOp, None),
        }
    }
}

} // verus!

verus! {

/// What the pane reports after the synth definitions were loaded on connecting:
/// connected, with a warning naming the first load error (the built-in
/// definitions before the custom ones).
pub open spec fn connect_message(restarted: bool, builtin: Result<(), String>, custom: Result<(), String>) -> Seq<char> {
    let head = if restarted { "Restarted"@ } else { "Connected"@ };
    match builtin {
        Err(e) => head + " (synthdef warning: "@ + e@ + ")"@,
        Ok(_) => match custom {
            Err(e) => head + " (synthdef warning: "@ + e@ + ")"@,
            Ok(_) => if restarted { "Server restarted"@ } else { "Connected"@ },
        },
    }
}

/// The report after connecting (or reconnecting after a restart) and loading the
/// built-in and custom synth definitions.
pub fn connect_report(restarted: bool, builtin: &Result<(), String>, custom: &Result<(), String>) -> (r: StatusEvent)
    ensures
        r.status == ServerStatus::Connected,
        r.message@ == connect_message(restarted, *builtin, *custom),
        r.server_running is None,
{
    let head = if restarted { "Restarted" } else { "Connected" };
    let err: Option<&String> = match builtin {
        Err(e) => Some(e),
        Ok(_) => match custom {
            Err(e) => Some(e),
            Ok(_) => None,
        },
    };
    let message = match err {
        Some(e) => {
            let mut m = String::from_str(head);
            m.append(" (synthdef warning: ");
            m.append(e.as_str());
            m.append(")");
            m
        },
        None => String::from_str(if restarted { "Server restarted" } else { "Connected" }),
    };
    StatusEvent { status: ServerStatus::Connected, message, server_running: None }
}

/// The report after starting the server (or restarting it, before reconnecting).
pub fn start_report(restarted: bool, result: &Result<(), String>) -> (r: StatusEvent)
    ensures
        match result {
            Ok(_) => r.status == ServerStatus::Running && r.server_running == Some(true)
                && r.message@ == (if restarted { "Server restarted, connecting..."@ } else { "Server started"@ }),
            Err(e) => r.status == ServerStatus::Error && r.server_running == Some(false) && r.message@ == e@,
        },
{
    match result {
        Ok(_) => StatusEvent {
            status: ServerStatus::Running,
            message: String::from_str(if restarted { "Server restarted, connecting..." } else { "Server started" }),
            server_running: Some(true),
        },
        Err(e) => StatusEvent { status: ServerStatus::Error, message: e.clone(), server_running: Some(false) },
    }
}

/// The report after stopping the server (on its own, or to restart it).
pub fn stop_report(restarting: bool) -> (r: StatusEvent)
    ensures
        r.status == ServerStatus::Stopped,
        r.server_running == Some(false),
        r.message@ == (if restarting { "Restarting server..."@ } else { "Server stopped"@ }),
{
    StatusEvent {
        status: ServerStatus::Stopped,
        message: String::from_str(if restarting { "Restarting server..." } else { "Server stopped" }),
        server_running: Some(false),
    }
}

/// The message after loading the synth definitions on request.
pub open spec fn load_message(builtin: Result<(), String>, custom: Result<(), String>) -> Seq<char> {
    match builtin {
        Err(e) => "Error loading built-in: "@ + e@,
        Ok(_) => match custom {
            Err(e) => "Error loading custom: "@ + e@,
            Ok(_) => "Synthdefs loaded (built-in + custom)"@,
        },
    }
}

/// The report after loading the built-in and custom synth definitions on request;
/// the status stays what the engine reports.
pub fn load_synthdefs_report(status: ServerStatus, builtin: &Result<(), String>, custom: &Result<(), String>) -> (r: StatusEvent)
    ensures
        r.status == status,
        r.message@ == load_message(*builtin, *custom),
        r.server_running is None,
{
    let message = match builtin {
        Err(e) => {
            let mut m = String::from_str("Error loading built-in: ");
            m.append(e.as_str());
            m
        },
        Ok(_) => match custom {
            Err(e) => {
                let mut m = String::from_str("Error loading custom: ");
                m.append(e.as_str());
                m
            },
            Ok(_) => String::from_str("Synthdefs loaded (built-in + custom)"),
        },
    };
    StatusEvent { status, message, server_running: None }
}

} // verus!

verus! {

/// The reports of starting the server when the program starts: nothing when the
/// server did not start; else that it started, then how connecting (and, once
/// connected, loading the synth definitions) went. The flag says whether the
/// instrument routing is to be rebuilt (after the definitions loaded).
pub open spec fn auto_start_outcome(
    start: Result<(), String>,
    connect: Option<Result<(), String>>,
    load: Option<Result<(), String>>,
) -> (Seq<(ServerStatus, Seq<char>, Option<bool>)>, bool) {
    match start {
        Err(_) => (Seq::empty(), false),
        Ok(_) => {
            let started = (ServerStatus::Running, "Server started"@, Some(true));
            match connect {
                Some(Ok(_)) => match load {
                    Some(Err(e)) => (seq![started, (ServerStatus::Connected, "Connected (synthdef warning: "@ + e@ + ")"@, None)], false),
                    _ => (seq![started, (ServerStatus::Connected, "Connected + synthdefs loaded"@, None)], true),
                },
                Some(Err(e)) => (seq![started, (ServerStatus::Running, "Server running (connect failed: "@ + e@ + ")"@, None)], false),
                None => (seq![started], false),
            }
        },
    }
}

/// The view of a status report.
pub open spec fn event_view(e: StatusEvent) -> (ServerStatus, Seq<char>, Option<bool>) {
    (e.status, e.message@, e.server_running)
}

/// The reports of the automatic start: `start` is how starting went, `connect`
/// how connecting went (when it was tried), `load` how loading the synth
/// definitions went (when it was tried).
pub fn auto_start_events(
    start: &Result<(), String>,
    connect: &Option<Result<(), String>>,
    load: &Option<Result<(), String>>,
) -> (r: (Vec<StatusEvent>, bool))
    ensures
        r.0@.map_values(|e: StatusEvent| event_view(e)) == auto_start_outcome(*start, *connect, *load).0,
        r.1 == auto_start_outcome(*start, *connect, *load).1,
{
    let mut events: Vec<StatusEvent> = Vec::new();
    let mut rebuild = false;
    match start {
        Err(_) => {},
        Ok(_) => {
            events.push(StatusEvent {
                status: ServerStatus::Running,
                message: String::from_str("Server started"),
                server_running: Some(true),
            });
            match connect {
                Some(Ok(_)) => match load {
                    Some(Err(e)) => {
                        let mut m = String::from_str("Connected (synthdef warning: ");
                        m.append(e.as_str());
                        m.append(")");
                        events.push(StatusEvent { status: ServerStatus::Connected, message: m, server_running: None });
                    },
                    _ => {
                        events.push(StatusEvent {
                            status: ServerStatus::Connected,
                            message: String::from_str("Connected + synthdefs loaded"),
                            server_running: None,
                        });
                        rebuild = true;
                    },
                },
                Some(Err(e)) => {
                    let mut m = String::from_str("Server running (connect failed: ");
                    m.append(e.as_str());
                    m.append(")");
                    events.push(StatusEvent { status: ServerStatus::Running, message: m, server_running: None });
                },
                None => {},
            }
        },
    }
    proof {
        assert(events@.map_values(|e: StatusEvent| event_view(e)) =~= auto_start_outcome(*start, *connect, *load).0);
    }
    (events, rebuild)
}

/// The instrument selected when a recording starts or stops: its id, whether it
/// plays the audio input, and whether it is active.
#[derive(Debug, Clone, Copy, PartialEq, Eq, Structural)]
pub struct RecordSource {
    pub id: u32,
    pub audio_input: bool,
    pub active: bool,
}

/// What a record key asks of the engine.
#[derive(Debug, Clone, PartialEq, Eq)]
pub enum RecordPlan {
    /// Stop the recording that runs.
    Stop,
    /// Start recording into a file named after `label`, after activating
    /// instrument `activate` (and rebuilding the routing) when it is `Some`.
    Start { activate: Option<u32>, label: String },
    /// Nothing to do.
    Nothing,
}

/// The audio-input instrument among `selected` that is off, to switch on when a
/// recording starts.
pub open spec fn to_activate(selected: Option<RecordSource>) -> Option<u32> {
    match selected {
        Some(s) => if s.audio_input && !s.active { Some(s.id) } else { None },
        None => None,
    }
}

/// The audio-input instrument among `selected` that is on, to switch off when a
/// recording stops.
pub open spec fn to_deactivate(selected: Option<RecordSource>) -> Option<u32> {
    match selected {
        Some(s) => if s.audio_input && s.active { Some(s.id) } else { None },
        None => None,
    }
}

/// The record keys (`input` for recording the selected instrument, else the
/// master): a running recording is stopped; otherwise, with the server running,
/// a recording starts, labelled "master", or "input_" and the instrument's id
/// (for which an instrument must be selected), an audio-input instrument that is
/// off being switched on first.
pub fn record_plan(input: bool, recording: bool, running: bool, selected: Option<RecordSource>) -> (r: RecordPlan)
    ensures
        recording ==> r is Stop,
        !recording && (!running || (input && selected is None)) ==> r is Nothing,
        !recording && running && !(input && selected is None) ==> match r {
            RecordPlan::Start { activate, label } => {
                &&& activate == to_activate(selected)
                &&& label@ == if input { "input_"@ + decimal(selected->0.id as nat) } else { "master"@ }
            },
            _ => false,
        },
{
    if recording {
        return RecordPlan::Stop;
    }
    if !running {
        return RecordPlan::Nothing;
    }
    let activate = match selected {
        Some(s) => if s.audio_input && !s.active { Some(s.id) } else { None },
        None => None,
    };
    if input {
        match selected {
            Some(s) => {
                let mut label = String::from_str("input_");
                proof {
                    reveal_strlit("input_");
                }
                push_decimal(&mut label, s.id as u64);
                RecordPlan::Start { activate, label }
            },
            None => RecordPlan::Nothing,
        }
    } else {
        proof {
            reveal_strlit("master");
        }
        RecordPlan::Start { activate, label: String::from_str("master") }
    }
}

/// After a recording stopped: the audio-input instrument to switch off (and
/// rebuild the routing for), if the selected one is on.
pub fn after_recording_stopped(selected: Option<RecordSource>) -> (r: Option<u32>)
    ensures
        r == to_deactivate(selected),
{
    match selected {
        Some(s) => if s.audio_input && s.active { Some(s.id) } else { None },
        None => None,
    }
}

/// The file name of a recording labelled `label` started at `secs` seconds since
/// the epoch: the label, an underscore, the seconds and ".wav".
pub fn recording_file_name(label: &str, secs: u64) -> (r: String)
    ensures
        r@ == label@ + "_"@ + decimal(secs as nat) + ".wav"@,
{
    let mut s = String::from_str(label);
    s.append("_");
    push_decimal(&mut s, secs);
    s.append(".wav");
    proof {
        reveal_strlit("_");
        reveal_strlit(".wav");
    }
    s
}

/// The status report after a recording stopped and was saved at `path`.
pub fn recording_saved_report(status: ServerStatus, path: &str) -> (r: StatusEvent)
    ensures
        r.status == status,
        r.message@ == "Recording saved: "@ + path@,
        r.server_running is None,
{
    let mut m = String::from_str("Recording saved: ");
    m.append(path);
    proof {
        reveal_strlit("Recording saved: ");
    }
    StatusEvent { status, message: m, server_running: None }
}

/// The status report after starting a recording into `path` gave `result`.
pub fn recording_started_report(status: ServerStatus, result: &Result<(), String>, path: &str) -> (r: StatusEvent)
    ensures
        r.status == status,
        r.server_running is None,
        r.message@ == match result {
            Ok(_) => "Recording to "@ + path@,
            Err(e) => "Record error: "@ + e@,
        },
{
    let m = match result {
        Ok(_) => {
            let mut m = String::from_str("Recording to ");
            m.append(path);
            proof {
                reveal_strlit("Recording to ");
            }
            m
        },
        Err(e) => {
            let mut m = String::from_str("Record error: ");
            m.append(e.as_str());
            proof {
                reveal_strlit("Record error: ");
            }
            m
        },
    };
    StatusEvent { status, message: m, server_running: None }
}

} // verus!
