//! The descriptor of a module and the index of the modules on offer, as
//! parsed documents hand them to the host.

use crate::messages::Value;
use vstd::prelude::*;

verus! {

/// The user interface of a module.
#[derive(Debug, Clone, PartialEq)]
pub struct GUIBundle {
    /// Where the interface is found.
    pub url: String,
    pub name: String,
    /// The default value of each parameter, by position.
    pub params: Vec<Value>,
    pub width: i32,
    pub height: i32,
}

/// What a module says of itself.
#[derive(Debug, Clone, PartialEq)]
pub struct Info {
    pub name: String,
    pub vendor: String,
    pub presets: u32,
    pub parameters: u32,
    /// Audio input channels: 0, 1 or 2.
    pub inputs: i32,
    /// Audio output channels: 1 or 2 for a module that can be used.
    pub outputs: i32,
    pub midi_inputs: u32,
    pub midi_outputs: u32,
    pub id: u32,
    pub version: u32,
    pub category: String,
    pub initial_delay: u32,
    pub preset_chunks: bool,
    pub f64_precision: bool,
    pub silent_when_stopped: bool,
}

/// The descriptor of a module.
#[derive(Debug, Clone, PartialEq)]
pub struct Bundle {
    /// Where the module's binary payload is found.
    pub wasm_url: String,
    pub gui: GUIBundle,
    pub info: Info,
}

/// One entry of the catalogue: a display name and where the descriptor is.
#[derive(Debug, Clone, PartialEq)]
pub struct Module {
    pub name: String,
    pub json_url: String,
}

/// The index of modules: the one to start with and the catalogue.
#[derive(Debug, Clone, PartialEq)]
pub struct Modules {
    pub default: String,
    pub modules: Vec<Module>,
}

/// Whether a channel count is one that a descriptor may declare.
pub open spec fn channel_count_in_range(n: int) -> bool {
    0 <= n <= 2
}

impl Info {
    /// Whether both channel counts are 0, 1 or 2. A descriptor that declares
    /// anything else is refused when it is loaded.
    pub open spec fn spec_channels_in_range(&self) -> bool {
        channel_count_in_range(self.inputs as int) && channel_count_in_range(self.outputs as int)
    }

    /// Whether both channel counts are 0, 1 or 2.
    #[verifier::when_used_as_spec(spec_channels_in_range)]
    pub fn channels_in_range(&self) -> (b: bool)
        ensures
            b == self.spec_channels_in_range(),
    {
        0 <= self.inputs && self.inputs <= 2 && 0 <= self.outputs && self.outputs <= 2
    }

    /// Whether the module can be used at all: it has an output to play on.
    pub open spec fn spec_usable(&self) -> bool {
        self.outputs > 0
    }

    /// Whether the module can be used at all: it has an output to play on.
    #[verifier::when_used_as_spec(spec_usable)]
    pub fn usable(&self) -> (b: bool)
        ensures
            b == self.spec_usable(),
    {
        self.outputs > 0
    }
}

} // verus!
