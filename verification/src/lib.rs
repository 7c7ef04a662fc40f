//! A real-time host for loadable audio-processing modules: the event types of
//! its message bus, the MIDI router, the deferred delivery to the user
//! interface and the audio engine's state machine.

pub mod bundle;
pub mod comms;
pub mod gui;
pub mod loader;
pub mod messages;
pub mod midi_device;
pub mod midi_utils;
pub mod standalone;
pub mod text;
pub mod utils;
