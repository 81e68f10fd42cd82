//! Keyboard-first pane logic of a terminal digital audio workstation:
//! cursor, selection and navigation state of each pane, and the actions that
//! the panes hand to the application.

pub mod text;
pub mod keymap;
pub mod screen;
pub mod effects;
pub mod action;
pub mod piano_roll;
pub mod piano_roll_view;
pub mod navigation;
pub mod mixer;
pub mod command_palette;
pub mod command_palette_view;
pub mod confirm;
pub mod eq;
pub mod midi_settings;
pub mod midi_settings_view;
pub mod add_effect;
pub mod server;
pub mod server_view;
pub mod vst_param;
pub mod instrument_edit;
pub mod save_as;
pub mod project_browser;
pub mod track;
pub mod track_view;
pub mod strip;
pub mod waveform;
pub mod logo;
pub mod voices;
pub mod routing;
pub mod playback;
pub mod sequencer;
pub mod chopper;
pub mod session;
pub mod osc;
pub mod automation;
pub mod synthdefs;
