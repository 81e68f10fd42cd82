//! The MIDI settings pane: input ports, CC mappings and settings, each a list
//! browsed with its own cursor.

use vstd::prelude::*;
use crate::action::{Action, MidiAction};
use crate::keymap::Keymap;
use crate::text::str_eq;

verus! {

/// A section of the MIDI settings pane.
#[derive(Debug, Clone, Copy, PartialEq, Eq, Structural)]
pub enum MidiSection {
    Ports,
    CcMappings,
    Settings,
}

/// A mapping from a MIDI controller number (on a channel, or on all) to a parameter.
#[derive(Debug, Clone, Copy, PartialEq, Eq)]
pub struct CcMapping {
    pub cc_number: u8,
    pub channel: Option<u8>,
}

/// A command of the MIDI settings pane, named by its action string.
#[derive(Debug, Clone, Copy, PartialEq, Eq, Structural)]
pub enum MidiCommand {
    SwitchSection,
    Up,
    Down,
    Connect,
    Disconnect,
    RemoveMapping,
    TogglePassthrough,
    SetChannelAll,
    SetLiveInstrument,
    ClearLiveInstrument,
    Unknown,
}

/// The command an action string names.
pub open spec fn spec_midi_command(a: Seq<char>) -> MidiCommand {
    if a == "switch_section"@ {
        MidiCommand::SwitchSection
    } else if a == "up"@ {
        MidiCommand::Up
    } else if a == "down"@ {
        MidiCommand::Down
    } else if a == "connect"@ {
        MidiCommand::Connect
    } else if a == "disconnect"@ {
        MidiCommand::Disconnect
    } else if a == "remove_mapping"@ {
        MidiCommand::RemoveMapping
    } else if a == "toggle_passthrough"@ {
        MidiCommand::TogglePassthrough
    } else if a == "set_channel_all"@ {
        MidiCommand::SetChannelAll
    } else if a == "set_live_instrument"@ {
        MidiCommand::SetLiveInstrument
    } else if a == "clear_live_instrument"@ {
        MidiCommand::ClearLiveInstrument
    } else {
        MidiCommand::Unknown
    }
}

/// The command an action string names.
pub fn midi_command(a: &str) -> (c: MidiCommand)
    ensures
        c == spec_midi_command(a@),
{
    if str_eq(a, "switch_section") {
        MidiCommand::SwitchSection
    } else if str_eq(a, "up") {
        MidiCommand::Up
    } else if str_eq(a, "down") {
        MidiCommand::Down
    } else if str_eq(a, "connect") {
        MidiCommand::Connect
    } else if str_eq(a, "disconnect") {
        MidiCommand::Disconnect
    } else if str_eq(a, "remove_mapping") {
        MidiCommand::RemoveMapping
    } else if str_eq(a, "toggle_passthrough") {
        MidiCommand::TogglePassthrough
    } else if str_eq(a, "set_channel_all") {
        MidiCommand::SetChannelAll
    } else if str_eq(a, "set_live_instrument") {
        MidiCommand::SetLiveInstrument
    } else if str_eq(a, "clear_live_instrument") {
        MidiCommand::ClearLiveInstrument
    } else {
        MidiCommand::Unknown
    }
}

/// The MIDI settings pane's state.
pub struct MidiSettingsPane {
    pub keymap: Keymap,
    pub section: MidiSection,
    pub port_cursor: usize,
    pub mapping_cursor: usize,
}

/// The section after `s`, wrapping from Settings to Ports.
pub open spec fn next_section(s: MidiSection) -> MidiSection {
    match s {
        MidiSection::Ports => MidiSection::CcMappings,
        MidiSection::CcMappings => MidiSection::Settings,
        MidiSection::Settings => MidiSection::Ports,
    }
}

/// One step down a list of `count` items, staying on the last.
pub open spec fn step_down(cursor: usize, count: usize) -> usize {
    let max = if count == 0 { 0 } else { count - 1 };
    if cursor + 1 > max { max as usize } else { (cursor + 1) as usize }
}

impl MidiSettingsPane {
    /// The ports section, both cursors on the first item.
    pub fn new(keymap: Keymap) -> (p: MidiSettingsPane)
        ensures
            p.keymap == keymap,
            p.section == MidiSection::Ports,
            p.port_cursor == 0,
            p.mapping_cursor == 0,
    {
        MidiSettingsPane { keymap, section: MidiSection::Ports, port_cursor: 0, mapping_cursor: 0 }
    }

    pub fn id(&self) -> (r: &'static str)
        ensures
            r@ == "midi_settings"@,
    {
        "midi_settings"
    }

    /// The pane after `action`, with `port_count` ports and `mapping_count` mappings.
    pub open spec fn after(self, cmd: MidiCommand, port_count: usize, mapping_count: usize) -> MidiSettingsPane {
        if cmd == MidiCommand::SwitchSection {
            MidiSettingsPane { section: next_section(self.section), ..self }
        } else if cmd == MidiCommand::Up {
            match self.section {
                MidiSection::Ports => MidiSettingsPane {
                    port_cursor: if self.port_cursor == 0 { 0 } else { (self.port_cursor - 1) as usize },
                    ..self
                },
                MidiSection::CcMappings => MidiSettingsPane {
                    mapping_cursor: if self.mapping_cursor == 0 { 0 } else { (self.mapping_cursor - 1) as usize },
                    ..self
                },
                MidiSection::Settings => self,
            }
        } else if cmd == MidiCommand::Down {
            match self.section {
                MidiSection::Ports => MidiSettingsPane { port_cursor: step_down(self.port_cursor, port_count), ..self },
                MidiSection::CcMappings => MidiSettingsPane {
                    mapping_cursor: step_down(self.mapping_cursor, mapping_count),
                    ..self
                },
                MidiSection::Settings => self,
            }
        } else {
            self
        }
    }

    /// What `action` asks for, with `port_count` ports, the CC `mappings`, and the
    /// selected instrument.
    pub open spec fn emits(self, cmd: MidiCommand, port_count: usize, mappings: Seq<CcMapping>, selected: Option<u32>) -> Action {
        if cmd == MidiCommand::Connect {
            if self.section == MidiSection::Ports && port_count > 0 {
                Action::Midi(MidiAction::ConnectPort(self.port_cursor))
            } else {
                Action::NoOp
            }
        } else if cmd == MidiCommand::Disconnect {
            Action::Midi(MidiAction::DisconnectPort)
        } else if cmd == MidiCommand::RemoveMapping {
            if self.section == MidiSection::CcMappings && self.mapping_cursor < mappings.len() {
                let m = mappings[self.mapping_cursor as int];
                Action::Midi(MidiAction::RemoveCcMapping { cc: m.cc_number, channel: m.channel })
            } else {
                Action::NoOp
            }
        } else if cmd == MidiCommand::TogglePassthrough {
            Action::Midi(MidiAction::ToggleNotePassthrough)
        } else if cmd == MidiCommand::SetChannelAll {
            Action::Midi(MidiAction::SetChannelFilter(None))
        } else if cmd == MidiCommand::SetLiveInstrument {
            match selected {
                Some(id) => Action::Midi(MidiAction::SetLiveInputInstrument(Some(id))),
                None => Action::NoOp,
            }
        } else if cmd == MidiCommand::ClearLiveInstrument {
            Action::Midi(MidiAction::SetLiveInputInstrument(None))
        } else {
            Action::NoOp
        }
    }

    /// Handles one action: switching sections, moving the cursor of the current
    /// list, connecting or disconnecting a port, removing the mapping under the
    /// cursor, and MIDI input settings.
    pub fn handle_action(&mut self, action: &str, port_count: usize, mappings: &Vec<CcMapping>, selected: Option<u32>) -> (r: Action)
        ensures
            *final(self) == old(self).after(spec_midi_command(action@), port_count, mappings@.len() as usize),
            r == old(self).emits(spec_midi_command(action@), port_count, mappings@, selected),
    {
        let cmd = midi_command(action);
        if cmd == MidiCommand::SwitchSection {
            self.section = match self.section {
                MidiSection::Ports => MidiSection::CcMappings,
                MidiSection::CcMappings => MidiSection::Settings,
                MidiSection::Settings => MidiSection::Ports,
            };
            Action::NoOp
        } else if cmd == MidiCommand::Up {
            match self.section {
                MidiSection::Ports => {
                    self.port_cursor = self.port_cursor.saturating_sub(1);
                },
                MidiSection::CcMappings => {
                    self.mapping_cursor = self.mapping_cursor.saturating_sub(1);
                },
                MidiSection::Settings => {},
            }
            Action::NoOp
        } else if cmd == MidiCommand::Down {
            match self.section {
                MidiSection::Ports => {
                    let max = port_count.saturating_sub(1);
                    self.port_cursor = if self.port_cursor >= max { max } else { self.port_cursor + 1 };
                },
                MidiSection::CcMappings => {
                    let max = mappings.len().saturating_sub(1);
                    self.mapping_cursor = if self.mapping_cursor >= max { max } else { self.mapping_cursor + 1 };
                },
                MidiSection::Settings => {},
            }
            Action::NoOp
        } else if cmd == MidiCommand::Connect {
            if self.section == MidiSection::Ports && port_count > 0 {
                Action::Midi(MidiAction::ConnectPort(self.port_cursor))
            } else {
                Action::NoOp
            }
        } else if cmd == MidiCommand::Disconnect {
            Action::Midi(MidiAction::DisconnectPort)
        } else if cmd == MidiCommand::RemoveMapping {
            if self.section == MidiSection::CcMappings && self.mapping_cursor < mappings.len() {
                let m = mappings[self.mapping_cursor];
                Action::Midi(MidiAction::RemoveCcMapping { cc: m.cc_number, channel: m.channel })
            } else {
                Action::NoOp
            }
        } else if cmd == MidiCommand::TogglePassthrough {
            Action::Midi(MidiAction::ToggleNotePassthrough)
        } else if cmd == MidiCommand::SetChannelAll {
            Action::Midi(MidiAction::SetChannelFilter(None))
        } else if cmd == MidiCommand::SetLiveInstrument {
            match selected {
                Some(id) => Action::Midi(MidiAction::SetLiveInputInstrument(Some(id))),
                None => Action::NoOp,
            }
        } else if cmd == MidiCommand::ClearLiveInstrument {
            Action::Midi(MidiAction::SetLiveInputInstrument(None))
        } else {
            Action::NoOp
        }
    }
}

} // verus!
