//! The audio engine: one live processing unit, the stream it plays on, and
//! the state machine that swaps module or device between stream sessions.
//!
//! The engine decides; it performs nothing. The audio callback and the outer
//! loop hand it what happened (an event from the bus, a MIDI message, a
//! signal on the handoff channel) and it answers with what to do next.

use crate::bundle::{Bundle, Module};
use crate::comms::{
    change_module_text, BusError, LocalReceive, LocalSend, Message, MessageID, MessageView,
};
use crate::messages::{Index, Value, ValueView};
use crate::text::{join2, nat_text, u32_to_string};
use crate::midi_device::{
    is_controller_change, midi_data, midi_data_at, midi_len, midi_status, route_of, RoutedView,
    NOTE_OFF, NOTE_ON, STATUS_MASK,
};
use vstd::prelude::*;
use vstd::string::*;

verus! {

/// The sample rate of every stream, in frames per second.
pub const SAMPLE_RATE: u32 = 44_100;

/// The number of frames in one buffer of a stream.
pub const BUFFER_FRAMES: u32 = 64;

/// The channel pairing of a stream: how many inputs the unit reads and how
/// many outputs it writes in each buffer. Each pairing has one compute path.
#[derive(Clone, Copy, Debug, PartialEq, Eq, Structural)]
pub enum Topology {
    ZeroOne,
    ZeroTwo,
    OneOne,
    OneTwo,
    TwoOne,
    TwoTwo,
}

/// Why no stream can be opened for a descriptor.
#[derive(Clone, Copy, Debug, PartialEq, Eq, Structural)]
pub enum ConfigurationError {
    /// The descriptor declares no output channel.
    NoOutputChannels,
}

/// A channel count held to 0, 1 or 2.
pub open spec fn clamp_channels(n: int) -> int {
    if n < 0 {
        0
    } else if n > 2 {
        2
    } else {
        n
    }
}

/// The topology for a pair of channel counts, each held to 0, 1 or 2; none
/// where that leaves no output.
pub open spec fn select_topology(inputs: int, outputs: int) -> Result<
    Topology,
    ConfigurationError,
> {
    let i = clamp_channels(inputs);
    let o = clamp_channels(outputs);
    if o == 0 {
        Err(ConfigurationError::NoOutputChannels)
    } else if i == 0 {
        if o == 1 {
            Ok(Topology::ZeroOne)
        } else {
            Ok(Topology::ZeroTwo)
        }
    } else if i == 1 {
        if o == 1 {
            Ok(Topology::OneOne)
        } else {
            Ok(Topology::OneTwo)
        }
    } else {
        if o == 1 {
            Ok(Topology::TwoOne)
        } else {
            Ok(Topology::TwoTwo)
        }
    }
}

impl Topology {
    /// The number of input channels of the compute path.
    pub open spec fn spec_inputs(self) -> u32 {
        match self {
            Topology::ZeroOne | Topology::ZeroTwo => 0,
            Topology::OneOne | Topology::OneTwo => 1,
            Topology::TwoOne | Topology::TwoTwo => 2,
        }
    }

    /// The number of input channels of the compute path.
    #[verifier::when_used_as_spec(spec_inputs)]
    pub fn inputs(self) -> (n: u32)
        ensures
            n == self.spec_inputs(),
    {
        match self {
            Topology::ZeroOne | Topology::ZeroTwo => 0,
            Topology::OneOne | Topology::OneTwo => 1,
            Topology::TwoOne | Topology::TwoTwo => 2,
        }
    }

    /// The number of output channels of the compute path.
    pub open spec fn spec_outputs(self) -> u32 {
        match self {
            Topology::ZeroOne | Topology::OneOne | Topology::TwoOne => 1,
            Topology::ZeroTwo | Topology::OneTwo | Topology::TwoTwo => 2,
        }
    }

    /// The number of output channels of the compute path.
    #[verifier::when_used_as_spec(spec_outputs)]
    pub fn outputs(self) -> (n: u32)
        ensures
            n == self.spec_outputs(),
    {
        match self {
            Topology::ZeroOne | Topology::OneOne | Topology::TwoOne => 1,
            Topology::ZeroTwo | Topology::OneTwo | Topology::TwoTwo => 2,
        }
    }

    /// Chooses the compute path from the channel counts of a descriptor and
    /// from nothing else. A count below 0 counts as 0 and one above 2 as 2;
    /// with no output there is no path.
    pub fn select(inputs: i32, outputs: i32) -> (r: Result<Topology, ConfigurationError>)
        ensures
            r == select_topology(inputs as int, outputs as int),
            r matches Ok(t) ==> t.spec_inputs() == clamp_channels(inputs as int)
                && t.spec_outputs() == clamp_channels(outputs as int),
            r is Err <==> outputs <= 0,
    {
        if outputs <= 0 {
            Err(ConfigurationError::NoOutputChannels)
        } else if inputs <= 0 {
            if outputs == 1 {
                Ok(Topology::ZeroOne)
            } else {
                Ok(Topology::ZeroTwo)
            }
        } else if inputs == 1 {
            if outputs == 1 {
                Ok(Topology::OneOne)
            } else {
                Ok(Topology::OneTwo)
            }
        } else {
            if outputs == 1 {
                Ok(Topology::TwoOne)
            } else {
                Ok(Topology::TwoTwo)
            }
        }
    }
}

/// For a descriptor with 0, 1 or 2 inputs and 1 or 2 outputs, a compute path
/// is selected, its channel counts are those of the descriptor, and no other
/// path has those counts.
pub proof fn law_topology_matches_descriptor(inputs: int, outputs: int, other: Topology)
    requires
        0 <= inputs <= 2,
        1 <= outputs <= 2,
    ensures
        select_topology(inputs, outputs) is Ok,
        select_topology(inputs, outputs).unwrap().spec_inputs() == inputs,
        select_topology(inputs, outputs).unwrap().spec_outputs() == outputs,
        other.spec_inputs() == inputs && other.spec_outputs() == outputs ==> other
            == select_topology(inputs, outputs).unwrap(),
        other != select_topology(inputs, outputs).unwrap() ==> other.spec_inputs() != inputs
            || other.spec_outputs() != outputs,
{
}

/// Every one of the six compute paths is the one selected for its own
/// channel counts.
pub proof fn law_every_topology_is_selected(t: Topology)
    ensures
        select_topology(t.spec_inputs() as int, t.spec_outputs() as int) == Ok::<
            Topology,
            ConfigurationError,
        >(t),
{
}

/// What the stream of a session is opened with.
#[derive(Clone, Copy, Debug, PartialEq, Eq, Structural)]
pub struct StreamConfig {
    /// The device to record from; `None` where the unit has no input, and
    /// no input stream is opened.
    pub input_device: Option<u32>,
    /// The device to play on.
    pub output_device: u32,
    /// Frames per second. The unit is initialized with this rate before the
    /// stream is opened.
    pub sample_rate: u32,
    /// Frames per buffer.
    pub buffer_frames: u32,
    pub input_channels: u32,
    pub output_channels: u32,
    /// The compute path of the session.
    pub topology: Topology,
}

/// The stream configuration for a topology and a pair of devices.
pub open spec fn stream_config(t: Topology, input_device: u32, output_device: u32) -> StreamConfig {
    StreamConfig {
        input_device: if t.spec_inputs() == 0 {
            None
        } else {
            Some(input_device)
        },
        output_device,
        sample_rate: SAMPLE_RATE,
        buffer_frames: BUFFER_FRAMES,
        input_channels: t.spec_inputs(),
        output_channels: t.spec_outputs(),
        topology: t,
    }
}

/// Where the engine stands.
#[derive(Clone, Copy, Debug, PartialEq, Eq, Structural)]
pub enum EngineState {
    /// No stream is open.
    Idle,
    /// A stream is open and the callback computes on this path.
    Streaming(Topology),
    /// The callback has seen an event that ends the session, has handed it
    /// to the outer loop and computes no more.
    SwapPending(Topology),
}

/// A call that sets a parameter of the live unit.
#[derive(Clone, Copy, Debug, PartialEq, Eq, Structural)]
pub enum UnitAction {
    SetParamInt { index: Index, value: i32 },
    /// `bits` is the bit pattern of the single to set.
    SetParamFloat { index: Index, bits: u32 },
}

/// The parameter-set call for a payload: one for an integer, one for a
/// float, none for any other payload.
pub open spec fn param_action(index: Index, value: ValueView) -> Option<UnitAction> {
    match value {
        ValueView::VInt(i) => Some(UnitAction::SetParamInt { index, value: i }),
        ValueView::VFloat(bits) => Some(UnitAction::SetParamFloat { index, bits }),
        _ => None,
    }
}

/// What the callback does with an event from the bus.
#[derive(Debug, PartialEq)]
pub enum EventAction {
    /// Set a parameter of the live unit, now.
    SetParam(UnitAction),
    /// Nothing.
    Ignore,
    /// Hand the event to the outer loop and end the stream: the callback
    /// returns "complete" to the platform.
    Handoff(Message),
}

/// What the callback does with an event, as mathematical values.
pub enum EventActionView {
    SetParam(UnitAction),
    Ignore,
    Handoff(MessageView),
}

impl View for EventAction {
    type V = EventActionView;

    open spec fn view(&self) -> EventActionView {
        match self {
            EventAction::SetParam(a) => EventActionView::SetParam(*a),
            EventAction::Ignore => EventActionView::Ignore,
            EventAction::Handoff(m) => EventActionView::Handoff(m@),
        }
    }
}

/// What the callback found on the bus.
#[derive(Debug, PartialEq)]
pub enum Polled {
    /// No event was ready, or the engine is not streaming and took none.
    Empty,
    /// An event was taken, and this is what to do with it.
    Event(EventAction),
}

/// What the callback does with a MIDI message. The velocity is the raw data
/// byte; it is the unit's caller that scales it.
#[derive(Clone, Copy, Debug, PartialEq, Eq, Structural)]
pub enum NoteAction {
    NoteOn { note: i32, velocity: u8 },
    NoteOff { note: i32, velocity: u8 },
    Discard,
}

/// What the note-handling path does with the bytes of a MIDI message: a
/// complete note-on or note-off goes to the unit, anything else is
/// discarded.
pub open spec fn note_action_of(data: Seq<u8>) -> NoteAction {
    if data.len() < 3 || data[0] < 0x80 {
        NoteAction::Discard
    } else if data[0] & STATUS_MASK == NOTE_ON {
        NoteAction::NoteOn { note: data[1] as i32, velocity: data[2] }
    } else if data[0] & STATUS_MASK == NOTE_OFF {
        NoteAction::NoteOff { note: data[1] as i32, velocity: data[2] }
    } else {
        NoteAction::Discard
    }
}

/// What wakes the outer loop.
#[derive(Debug, PartialEq)]
pub enum Handoff {
    /// The callback handed over an event that ends the session.
    Signal(Message),
    /// The platform could not keep the stream running.
    StreamFailed,
    /// The handoff channel is closed: no callback is left to signal.
    Closed,
}

/// What wakes the outer loop, as mathematical values.
pub enum HandoffView {
    Signal(MessageView),
    StreamFailed,
    Closed,
}

impl View for Handoff {
    type V = HandoffView;

    open spec fn view(&self) -> HandoffView {
        match self {
            Handoff::Signal(m) => HandoffView::Signal(m@),
            Handoff::StreamFailed => HandoffView::StreamFailed,
            Handoff::Closed => HandoffView::Closed,
        }
    }
}

/// What the outer loop does once it has stopped the stream.
#[derive(Debug, PartialEq)]
pub enum OuterAction {
    /// Open a stream again, with the module that is installed.
    Restart,
    /// Load the module at this locator; install it if that succeeds, and
    /// open a stream again either way.
    Load(String),
    /// Leave the loop: the engine's thread ends.
    Terminate,
}

/// What the outer loop does, as mathematical values.
pub enum OuterActionView {
    Restart,
    Load(Seq<char>),
    Terminate,
}

impl View for OuterAction {
    type V = OuterActionView;

    open spec fn view(&self) -> OuterActionView {
        match self {
            OuterAction::Restart => OuterActionView::Restart,
            OuterAction::Load(s) => OuterActionView::Load(s@),
            OuterAction::Terminate => OuterActionView::Terminate,
        }
    }
}

/// Why no stream was started.
#[derive(Clone, Copy, Debug, PartialEq, Eq, Structural)]
pub enum StartError {
    /// The installed module cannot be played.
    Configuration(ConfigurationError),
    /// A stream is open already.
    NotIdle,
    /// The engine has terminated.
    Terminated,
}

/// The engine as a mathematical value.
pub struct EngineModel {
    pub state: EngineState,
    /// Input channels that the installed descriptor declares.
    pub inputs: i32,
    /// Output channels that the installed descriptor declares.
    pub outputs: i32,
    pub input_device: u32,
    pub output_device: u32,
    /// Whether the installed unit has been initialized with the sample rate.
    pub initialized: bool,
    /// Whether the outer loop has been told to end.
    pub terminated: bool,
}

impl EngineModel {
    /// What holds of every engine: while a stream is open its topology is
    /// the one of the installed descriptor, the unit has been initialized,
    /// and the engine has not terminated.
    pub open spec fn wf(self) -> bool {
        match self.state {
            EngineState::Idle => true,
            EngineState::Streaming(t) | EngineState::SwapPending(t) => {
                &&& select_topology(self.inputs as int, self.outputs as int) == Ok::<
                    Topology,
                    ConfigurationError,
                >(t)
                &&& self.initialized
                &&& !self.terminated
            },
        }
    }

    /// An engine with a constructed unit that has not played yet.
    pub open spec fn initial(inputs: i32, outputs: i32, input_device: u32, output_device: u32)
        -> EngineModel {
        EngineModel {
            state: EngineState::Idle,
            inputs,
            outputs,
            input_device,
            output_device,
            initialized: false,
            terminated: false,
        }
    }

    /// Entering a stream session: the engine after the step, and the
    /// configuration to initialize the unit and open the stream with.
    pub open spec fn start(self) -> (EngineModel, Result<StreamConfig, StartError>) {
        if self.terminated {
            (self, Err(StartError::Terminated))
        } else if self.state != EngineState::Idle {
            (self, Err(StartError::NotIdle))
        } else {
            match select_topology(self.inputs as int, self.outputs as int) {
                Err(e) => (self, Err(StartError::Configuration(e))),
                Ok(t) => (
                    EngineModel { state: EngineState::Streaming(t), initialized: true, ..self },
                    Ok(stream_config(t, self.input_device, self.output_device)),
                ),
            }
        }
    }

    /// The compute path of the next buffer; none unless a stream is open and
    /// no event has ended the session.
    pub open spec fn compute_path(self) -> Option<Topology> {
        match self.state {
            EngineState::Streaming(t) => Some(t),
            _ => None,
        }
    }

    /// The callback's step on an event from the bus.
    pub open spec fn on_event(self, m: MessageView) -> (EngineModel, EventActionView) {
        match self.state {
            EngineState::Streaming(t) => {
                if m.id == MessageID::Param {
                    match param_action(m.index, m.value) {
                        Some(a) => (self, EventActionView::SetParam(a)),
                        None => (self, EventActionView::Ignore),
                    }
                } else if m.id.spec_stops_stream() {
                    (
                        EngineModel { state: EngineState::SwapPending(t), ..self },
                        EventActionView::Handoff(m),
                    )
                } else {
                    (self, EventActionView::Ignore)
                }
            },
            _ => (self, EventActionView::Ignore),
        }
    }

    /// The outer loop's step when the handoff channel wakes it: the stream
    /// is stopped, and the signal decides what follows.
    pub open spec fn on_handoff(self, signal: HandoffView) -> (EngineModel, OuterActionView) {
        if self.terminated {
            (self, OuterActionView::Terminate)
        } else {
            let stopped = EngineModel { state: EngineState::Idle, ..self };
            match signal {
                HandoffView::Closed => (
                    EngineModel { terminated: true, ..stopped },
                    OuterActionView::Terminate,
                ),
                HandoffView::StreamFailed => (stopped, OuterActionView::Restart),
                HandoffView::Signal(m) => {
                    if m.id == MessageID::Exit {
                        (EngineModel { terminated: true, ..stopped }, OuterActionView::Terminate)
                    } else if m.id == MessageID::AddInputDevice {
                        match m.value {
                            ValueView::VInt(i) => (
                                EngineModel { input_device: i as u32, ..stopped },
                                OuterActionView::Restart,
                            ),
                            _ => (stopped, OuterActionView::Restart),
                        }
                    } else if m.id == MessageID::AddOutputDevice {
                        match m.value {
                            ValueView::VInt(i) => (
                                EngineModel { output_device: i as u32, ..stopped },
                                OuterActionView::Restart,
                            ),
                            _ => (stopped, OuterActionView::Restart),
                        }
                    } else if m.id == MessageID::ChangeModule {
                        match m.value {
                            ValueView::VString(locator) => (stopped, OuterActionView::Load(locator)),
                            _ => (stopped, OuterActionView::Restart),
                        }
                    } else {
                        (stopped, OuterActionView::Restart)
                    }
                },
            }
        }
    }

    /// Whether a newly loaded module may be installed: only between stream
    /// sessions, when no callback can hold the old unit.
    pub open spec fn can_install(self) -> bool {
        self.state == EngineState::Idle && !self.terminated
    }

    /// The engine with a newly constructed unit of the given channel counts
    /// in place of the old one.
    pub open spec fn install(self, inputs: i32, outputs: i32) -> EngineModel {
        if self.can_install() {
            EngineModel { inputs, outputs, initialized: false, ..self }
        } else {
            self
        }
    }
}

/// The events that tell the user interface the default value of every
/// parameter, in the order of the parameters.
pub open spec fn params_messages(params: Seq<ValueView>) -> Seq<MessageView> {
    Seq::new(
        params.len(),
        |i: int| MessageView { id: MessageID::Param, index: i as u32, value: params[i] },
    )
}

/// The parameter-set calls that apply the defaults to a unit, in the order
/// of the parameters. A default that is neither integer nor float sets
/// nothing.
pub open spec fn unit_actions(params: Seq<ValueView>) -> Seq<UnitAction>
    decreases params.len(),
{
    if params.len() == 0 {
        Seq::<UnitAction>::empty()
    } else {
        let rest = unit_actions(params.drop_last());
        match param_action((params.len() - 1) as u32, params.last()) {
            Some(a) => rest.push(a),
            None => rest,
        }
    }
}

/// The views of a vector of payloads.
pub open spec fn values_view(values: Seq<Value>) -> Seq<ValueView> {
    values.map_values(|v: Value| v@)
}

/// The views of a vector of events.
pub open spec fn messages_view(messages: Seq<Message>) -> Seq<MessageView> {
    messages.map_values(|m: Message| m@)
}

/// What the user interface is told when a module has been installed: first
/// that the module changed, with the address of the new interface under
/// `base` and its size, then the default of every parameter.
pub open spec fn install_messages(base: Seq<char>, bundle: Bundle) -> Seq<MessageView> {
    seq![
        MessageView {
            id: MessageID::ChangeModule,
            index: 0,
            value: ValueView::VString(
                change_module_text(
                    base + bundle.gui.url@,
                    bundle.gui.width as int,
                    bundle.gui.height as int,
                ),
            ),
        },
    ] + params_messages(values_view(bundle.gui.params@))
}

/// What follows the installation of a module.
#[derive(Debug, PartialEq)]
pub struct Installed {
    /// What to send to the user interface, in this order.
    pub ui_messages: Vec<Message>,
    /// What to call on the new unit, in this order, before it plays.
    pub unit_actions: Vec<UnitAction>,
}

/// The audio engine.
#[derive(Clone, Copy, Debug)]
pub struct Standalone {
    state: EngineState,
    inputs: i32,
    outputs: i32,
    input_device: u32,
    output_device: u32,
    initialized: bool,
    terminated: bool,
}

impl View for Standalone {
    type V = EngineModel;

    closed spec fn view(&self) -> EngineModel {
        EngineModel {
            state: self.state,
            inputs: self.inputs,
            outputs: self.outputs,
            input_device: self.input_device,
            output_device: self.output_device,
            initialized: self.initialized,
            terminated: self.terminated,
        }
    }
}

impl Standalone {
    /// Every engine is well formed.
    #[verifier::type_invariant]
    spec fn well_formed(self) -> bool {
        self@.wf()
    }

    /// An engine for a unit that has just been constructed from a
    /// descriptor with these channel counts, on the given devices. No stream
    /// is open.
    pub fn new(inputs: i32, outputs: i32, input_device: u32, output_device: u32) -> (e: Self)
        ensures
            e@ == EngineModel::initial(inputs, outputs, input_device, output_device),
            e@.wf(),
    {
        Standalone {
            state: EngineState::Idle,
            inputs,
            outputs,
            input_device,
            output_device,
            initialized: false,
            terminated: false,
        }
    }

    /// Where the engine stands.
    pub fn state(&self) -> (s: EngineState)
        ensures
            s == self@.state,
    {
        self.state
    }

    /// Whether the outer loop has been told to end.
    pub fn is_terminated(&self) -> (b: bool)
        ensures
            b == self@.terminated,
    {
        self.terminated
    }

    /// The devices in use: input, then output.
    pub fn devices(&self) -> (d: (u32, u32))
        ensures
            d.0 == self@.input_device,
            d.1 == self@.output_device,
    {
        (self.input_device, self.output_device)
    }

    /// Enters a stream session. On success the engine is streaming and the
    /// result says what to initialize the unit and open the stream with; the
    /// unit is initialized with the sample rate first. Without an output
    /// channel, with a stream open already, or after termination, nothing
    /// changes and the result says which it was.
    pub fn start_stream(&mut self) -> (r: Result<StreamConfig, StartError>)
        ensures
            (final(self)@, r) == old(self)@.start(),
            final(self)@.wf(),
    {
        proof {
            use_type_invariant(&*self);
        }
        if self.terminated {
            return Err(StartError::Terminated);
        }
        match self.state {
            EngineState::Idle => {},
            _ => {
                return Err(StartError::NotIdle);
            },
        }
        match Topology::select(self.inputs, self.outputs) {
            Err(e) => Err(StartError::Configuration(e)),
            Ok(t) => {
                self.initialized = true;
                self.state = EngineState::Streaming(t);
                Ok(
                    StreamConfig {
                        input_device: if t.inputs() == 0 {
                            None
                        } else {
                            Some(self.input_device)
                        },
                        output_device: self.output_device,
                        sample_rate: SAMPLE_RATE,
                        buffer_frames: BUFFER_FRAMES,
                        input_channels: t.inputs(),
                        output_channels: t.outputs(),
                        topology: t,
                    },
                )
            },
        }
    }

    /// The compute path for the buffer that the platform asks for; `None`
    /// when no stream is open or an event has ended the session, and then
    /// the unit is not called.
    pub fn compute_path(&self) -> (r: Option<Topology>)
        ensures
            r == self@.compute_path(),
    {
        match self.state {
            EngineState::Streaming(t) => Some(t),
            _ => None,
        }
    }

    /// The parameter-set call for a parameter event; none for a payload that
    /// is neither integer nor float.
    pub fn set_param(index: Index, param: &Value) -> (r: Option<UnitAction>)
        ensures
            r == param_action(index, param@),
    {
        match param {
            Value::VInt(i) => Some(UnitAction::SetParamInt { index, value: *i }),
            Value::VFloat(bits) => Some(UnitAction::SetParamFloat { index, bits: *bits }),
            _ => None,
        }
    }

    /// The parameter-set calls that apply a list of defaults, indexed by
    /// position.
    pub fn set_params(params: &Vec<Value>) -> (r: Vec<UnitAction>)
        ensures
            r@ == unit_actions(values_view(params@)),
    {
        let mut actions: Vec<UnitAction> = Vec::new();
        let mut i: usize = 0;
        while i < params.len()
            invariant
                i <= params.len(),
                actions@ == unit_actions(values_view(params@).take(i as int)),
            decreases params.len() - i,
        {
            proof {
                let all = values_view(params@);
                let next = all.take(i + 1);
                assert(next.drop_last() =~= all.take(i as int));
                assert(next.last() == params@[i as int]@);
                assert(next.len() - 1 == i);
            }
            match Self::set_param(i as u32, &params[i]) {
                Some(a) => {
                    actions.push(a);
                },
                None => {},
            }
            i = i + 1;
        }
        assert(values_view(params@).take(params.len() as int) =~= values_view(params@));
        actions
    }

    /// The callback's decision on an event that it took from the bus. While
    /// streaming, a parameter change is applied at once, an event that ends
    /// the session (module change, device selection, exit) is handed to the
    /// outer loop, and any other event is ignored. When not streaming every
    /// event is ignored.
    pub fn on_event(&mut self, m: Message) -> (r: EventAction)
        ensures
            (final(self)@, r@) == old(self)@.on_event(m@),
            final(self)@.wf(),
    {
        proof {
            use_type_invariant(&*self);
        }
        match self.state {
            EngineState::Streaming(t) => {
                match m.id {
                    MessageID::Param => match Self::set_param(m.index, &m.value) {
                        Some(a) => EventAction::SetParam(a),
                        None => EventAction::Ignore,
                    },
                    MessageID::ChangeModule
                    | MessageID::AddInputDevice
                    | MessageID::AddOutputDevice
                    | MessageID::Exit => {
                        self.state = EngineState::SwapPending(t);
                        EventAction::Handoff(m)
                    },
                    _ => EventAction::Ignore,
                }
            },
            _ => EventAction::Ignore,
        }
    }

    /// Takes the next event from the bus, if one is ready, and decides on
    /// it. Never waits. When the engine is not streaming the bus is left
    /// alone.
    pub fn poll_event(&mut self, bus: &LocalReceive) -> (r: Polled)
        ensures
            final(self)@.wf(),
            r is Empty ==> final(self)@ == old(self)@,
            old(self)@.compute_path() is None ==> r is Empty,
            r matches Polled::Event(a) ==> exists|m: MessageView|
                (final(self)@, a@) == #[trigger] old(self)@.on_event(m),
    {
        proof {
            use_type_invariant(&*self);
        }
        match self.state {
            EngineState::Streaming(_) => {},
            _ => {
                return Polled::Empty;
            },
        }
        match bus.try_receive() {
            None => Polled::Empty,
            Some(m) => {
                let ghost mv = m@;
                let a = self.on_event(m);
                assert((self@, a@) == old(self)@.on_event(mv));
                Polled::Event(a)
            },
        }
    }

    /// The callback's decision on a MIDI message from the router: a complete
    /// note-on or note-off is for the unit, everything else is discarded.
    pub fn on_note(m: &rimd::MidiMessage) -> (r: NoteAction)
        ensures
            r == note_action_of(midi_data(*m)),
    {
        if midi_len(m) < 3 {
            return NoteAction::Discard;
        }
        let first = midi_data_at(m, 0);
        if first < 0x80 {
            return NoteAction::Discard;
        }
        let status = midi_status(m);
        if status == NOTE_ON {
            NoteAction::NoteOn { note: midi_data_at(m, 1) as i32, velocity: midi_data_at(m, 2) }
        } else if status == NOTE_OFF {
            NoteAction::NoteOff { note: midi_data_at(m, 1) as i32, velocity: midi_data_at(m, 2) }
        } else {
            NoteAction::Discard
        }
    }

    /// The outer loop's decision when the handoff channel wakes it. The
    /// caller has stopped the stream, or stops it now: the engine is idle
    /// afterwards. A device selection stores the device, a module change
    /// asks for the module to be loaded, an exit or a closed channel ends
    /// the loop, and anything else opens the stream again.
    pub fn on_handoff(&mut self, signal: Handoff) -> (r: OuterAction)
        ensures
            (final(self)@, r@) == old(self)@.on_handoff(signal@),
            final(self)@.wf(),
            final(self)@.state == EngineState::Idle || old(self)@.terminated,
    {
        proof {
            use_type_invariant(&*self);
        }
        if self.terminated {
            return OuterAction::Terminate;
        }
        self.state = EngineState::Idle;
        match signal {
            Handoff::Closed => {
                self.terminated = true;
                OuterAction::Terminate
            },
            Handoff::StreamFailed => OuterAction::Restart,
            Handoff::Signal(m) => {
                match m.id {
                    MessageID::Exit => {
                        self.terminated = true;
                        OuterAction::Terminate
                    },
                    MessageID::AddInputDevice => {
                        match m.value {
                            Value::VInt(i) => {
                                self.input_device = #[verifier::truncate]
                                (i as u32);
                            },
                            _ => {},
                        }
                        OuterAction::Restart
                    },
                    MessageID::AddOutputDevice => {
                        match m.value {
                            Value::VInt(i) => {
                                self.output_device = #[verifier::truncate]
                                (i as u32);
                            },
                            _ => {},
                        }
                        OuterAction::Restart
                    },
                    MessageID::ChangeModule => match m.value {
                        Value::VString(locator) => OuterAction::Load(locator),
                        _ => OuterAction::Restart,
                    },
                    _ => OuterAction::Restart,
                }
            },
        }
    }

    /// Installs a module that has been loaded: its unit takes the place of
    /// the old one, which is dropped. Only an idle engine installs; a
    /// streaming or terminated one returns `None` and stays as it is.
    ///
    /// The result holds what the user interface is told, the confirmation of
    /// the change before the defaults, and what is set on the new unit
    /// before it plays.
    pub fn install(&mut self, base: &str, bundle: &Bundle) -> (r: Option<Installed>)
        ensures
            final(self)@ == old(self)@.install(bundle.info.inputs, bundle.info.outputs),
            final(self)@.wf(),
            r is Some <==> old(self)@.can_install(),
            r matches Some(done) ==> messages_view(done.ui_messages@) == install_messages(
                base@,
                *bundle,
            ) && done.unit_actions@ == unit_actions(values_view(bundle.gui.params@)),
    {
        proof {
            use_type_invariant(&*self);
        }
        if self.terminated {
            return None;
        }
        match self.state {
            EngineState::Idle => {},
            _ => {
                return None;
            },
        }
        let mut address = String::from_str(base);
        address.append(bundle.gui.url.as_str());
        let confirm = Message::change_module(address.as_str(), bundle.gui.width, bundle.gui.height);
        let ghost confirmed = confirm@;
        let mut ui_messages: Vec<Message> = Vec::new();
        ui_messages.push(confirm);
        let mut defaults = Self::params_messages(&bundle.gui.params);
        let ghost tail = defaults@;
        ui_messages.append(&mut defaults);
        assert(messages_view(ui_messages@) =~= seq![confirmed] + messages_view(tail));
        let unit_actions = Self::set_params(&bundle.gui.params);
        self.inputs = bundle.info.inputs;
        self.outputs = bundle.info.outputs;
        self.initialized = false;
        Some(Installed { ui_messages, unit_actions })
    }
}

/// An audio device as the platform reports it.
#[derive(Debug, Clone, PartialEq)]
pub struct AudioDevice {
    pub name: String,
    /// The platform's index of the device.
    pub index: u32,
    pub max_input_channels: i32,
    pub max_output_channels: i32,
}

/// Two fields in one payload: the first, '=', the second.
pub open spec fn named_text(first: Seq<char>, second: Seq<char>) -> Seq<char> {
    first + seq!['='] + second
}

/// The event that offers a module to the user interface.
pub open spec fn add_module_event(name: Seq<char>, json_url: Seq<char>) -> MessageView {
    MessageView {
        id: MessageID::AddModule,
        index: 0,
        value: ValueView::VString(named_text(name, json_url)),
    }
}

/// The event that offers a device to the user interface, as an input or as
/// an output.
pub open spec fn add_device_event(id: MessageID, name: Seq<char>, index: u32) -> MessageView {
    MessageView { id, index: 0, value: ValueView::VString(named_text(name, nat_text(index as nat))) }
}

/// The events that offer one device: as an input if it has an input
/// channel, then as an output if it has an output channel.
pub open spec fn device_events(d: AudioDevice) -> Seq<MessageView> {
    let as_input = if d.max_input_channels > 0 {
        seq![add_device_event(MessageID::AddInputDevice, d.name@, d.index)]
    } else {
        Seq::<MessageView>::empty()
    };
    let as_output = if d.max_output_channels > 0 {
        seq![add_device_event(MessageID::AddOutputDevice, d.name@, d.index)]
    } else {
        Seq::<MessageView>::empty()
    };
    as_input + as_output
}

/// The events that offer the devices of the platform, in their order.
pub open spec fn devices_events(ds: Seq<AudioDevice>) -> Seq<MessageView>
    decreases ds.len(),
{
    if ds.len() == 0 {
        Seq::<MessageView>::empty()
    } else {
        devices_events(ds.drop_last()) + device_events(ds.last())
    }
}

/// The events that offer the modules of the catalogue, in their order.
pub open spec fn modules_events(ms: Seq<Module>) -> Seq<MessageView> {
    Seq::new(ms.len(), |i: int| add_module_event(ms[i].name@, ms[i].json_url@))
}

impl Standalone {
    /// The event that offers a module to the user interface.
    pub fn add_module_message(name: &str, json_url: &str) -> (m: Message)
        ensures
            m@ == add_module_event(name@, json_url@),
    {
        proof {
            reveal_strlit("=");
            assert("="@ =~= seq!['=']);
        }
        Message { id: MessageID::AddModule, index: 0, value: Value::VString(join2(name, "=", json_url)) }
    }

    /// The event that offers an input device to the user interface.
    pub fn add_input_device_message(name: &str, index: u32) -> (m: Message)
        ensures
            m@ == add_device_event(MessageID::AddInputDevice, name@, index),
    {
        proof {
            reveal_strlit("=");
            assert("="@ =~= seq!['=']);
        }
        let number = u32_to_string(index);
        Message {
            id: MessageID::AddInputDevice,
            index: 0,
            value: Value::VString(join2(name, "=", number.as_str())),
        }
    }

    /// The event that offers an output device to the user interface.
    pub fn add_output_device_message(name: &str, index: u32) -> (m: Message)
        ensures
            m@ == add_device_event(MessageID::AddOutputDevice, name@, index),
    {
        proof {
            reveal_strlit("=");
            assert("="@ =~= seq!['=']);
        }
        let number = u32_to_string(index);
        Message {
            id: MessageID::AddOutputDevice,
            index: 0,
            value: Value::VString(join2(name, "=", number.as_str())),
        }
    }

    /// The events that offer the modules of the catalogue.
    pub fn modules_messages(modules: &Vec<Module>) -> (r: Vec<Message>)
        ensures
            messages_view(r@) == modules_events(modules@),
    {
        let mut out: Vec<Message> = Vec::new();
        let mut i: usize = 0;
        assert(messages_view(out@) =~= modules_events(modules@).take(0));
        while i < modules.len()
            invariant
                i <= modules.len(),
                messages_view(out@) == modules_events(modules@).take(i as int),
            decreases modules.len() - i,
        {
            let ghost before = out@;
            let m = Self::add_module_message(modules[i].name.as_str(), modules[i].json_url.as_str());
            out.push(m);
            proof {
                let all = modules_events(modules@);
                assert(messages_view(out@) =~= messages_view(before).push(m@));
                assert(all.take(i + 1) =~= all.take(i as int).push(all[i as int]));
            }
            i = i + 1;
        }
        assert(modules_events(modules@).take(modules.len() as int) =~= modules_events(modules@));
        out
    }

    /// The events that offer the audio devices: a device without an input
    /// channel is not offered as an input, and one without an output channel
    /// is not offered as an output.
    pub fn audio_devices_messages(devices: &Vec<AudioDevice>) -> (r: Vec<Message>)
        ensures
            messages_view(r@) == devices_events(devices@),
    {
        let mut out: Vec<Message> = Vec::new();
        let mut i: usize = 0;
        assert(messages_view(out@) =~= devices_events(devices@.take(0)));
        while i < devices.len()
            invariant
                i <= devices.len(),
                messages_view(out@) == devices_events(devices@.take(i as int)),
            decreases devices.len() - i,
        {
            let ghost start = out@;
            let d = &devices[i];
            proof {
                let next = devices@.take(i + 1);
                assert(next.drop_last() =~= devices@.take(i as int));
                assert(next.last() == *d);
            }
            if d.max_input_channels > 0 {
                let ghost before = out@;
                let m = Self::add_input_device_message(d.name.as_str(), d.index);
                out.push(m);
                assert(messages_view(out@) =~= messages_view(before).push(m@));
            }
            if d.max_output_channels > 0 {
                let ghost before = out@;
                let m = Self::add_output_device_message(d.name.as_str(), d.index);
                out.push(m);
                assert(messages_view(out@) =~= messages_view(before).push(m@));
            }
            assert(messages_view(out@) =~= messages_view(start) + device_events(*d));
            i = i + 1;
        }
        assert(devices@.take(devices.len() as int) =~= devices@);
        out
    }

    /// The events that tell the user interface the value of every
    /// parameter, indexed by position.
    pub fn params_messages(params: &Vec<Value>) -> (r: Vec<Message>)
        ensures
            messages_view(r@) == params_messages(values_view(params@)),
    {
        let mut out: Vec<Message> = Vec::new();
        let mut i: usize = 0;
        assert(messages_view(out@) =~= params_messages(values_view(params@)).take(0));
        while i < params.len()
            invariant
                i <= params.len(),
                messages_view(out@) == params_messages(values_view(params@)).take(i as int),
            decreases params.len() - i,
        {
            let ghost before = out@;
            let m = Message { id: MessageID::Param, index: i as u32, value: params[i].clone() };
            out.push(m);
            proof {
                let all = params_messages(values_view(params@));
                assert(all.take(i + 1) =~= all.take(i as int).push(all[i as int]));
                assert(messages_view(out@) =~= messages_view(before).push(m@));
            }
            i = i + 1;
        }
        proof {
            let all = params_messages(values_view(params@));
            assert(all.take(params.len() as int) =~= all);
        }
        out
    }

    /// Offers a module to the user interface.
    pub fn send_add_module(comms: &LocalSend, name: &str, json_url: &str) -> (r: Result<
        (),
        BusError,
    >) {
        comms.send_message(Self::add_module_message(name, json_url))
    }

    /// Offers an input device to the user interface.
    pub fn send_add_input_device(comms: &LocalSend, name: &str, index: u32) -> (r: Result<
        (),
        BusError,
    >) {
        comms.send_message(Self::add_input_device_message(name, index))
    }

    /// Offers an output device to the user interface.
    pub fn send_add_output_device(comms: &LocalSend, name: &str, index: u32) -> (r: Result<
        (),
        BusError,
    >) {
        comms.send_message(Self::add_output_device_message(name, index))
    }

    /// Offers the modules of the catalogue to the user interface. With an
    /// empty catalogue nothing is sent and nothing can fail.
    pub fn send_modules(comms: &LocalSend, modules: &Vec<Module>) -> (r: Result<(), BusError>)
        ensures
            modules_events(modules@).len() == 0 ==> r is Ok,
    {
        let messages = Self::modules_messages(modules);
        assert(messages@.len() == messages_view(messages@).len());
        comms.send_all(messages)
    }

    /// Offers the audio devices of the platform to the user interface.
    /// Where no device has a channel nothing is sent and nothing can fail.
    pub fn send_audio_devices(comms: &LocalSend, devices: &Vec<AudioDevice>) -> (r: Result<
        (),
        BusError,
    >)
        ensures
            devices_events(devices@).len() == 0 ==> r is Ok,
    {
        let messages = Self::audio_devices_messages(devices);
        assert(messages@.len() == messages_view(messages@).len());
        comms.send_all(messages)
    }

    /// Tells the user interface the value of every parameter. Without
    /// parameters nothing is sent and nothing can fail.
    pub fn send_params(comms: &LocalSend, params: &Vec<Value>) -> (r: Result<(), BusError>)
        ensures
            params@.len() == 0 ==> r is Ok,
    {
        let messages = Self::params_messages(params);
        assert(messages@.len() == messages_view(messages@).len());
        assert(params_messages(values_view(params@)).len() == params@.len());
        comms.send_all(messages)
    }
}

/// One step of the engine, whoever takes it.
pub enum Step {
    /// The outer loop enters a stream session.
    Start,
    /// The callback decides on an event from the bus.
    Event(MessageView),
    /// The outer loop is woken by the handoff channel.
    Handoff(HandoffView),
    /// A loaded module with these channel counts is installed.
    Install(i32, i32),
}

impl EngineModel {
    /// The engine after one step.
    pub open spec fn step(self, s: Step) -> EngineModel {
        match s {
            Step::Start => self.start().0,
            Step::Event(m) => self.on_event(m).0,
            Step::Handoff(h) => self.on_handoff(h).0,
            Step::Install(i, o) => self.install(i, o),
        }
    }

    /// The engine after a sequence of steps.
    pub open spec fn run(self, steps: Seq<Step>) -> EngineModel
        decreases steps.len(),
    {
        if steps.len() == 0 {
            self
        } else {
            self.run(steps.drop_last()).step(steps.last())
        }
    }
}

/// Whatever steps are taken in whatever order, the engine stays well formed:
/// a compute path is given out only for the topology of the installed
/// descriptor, and only for a unit that has been initialized since it was
/// installed.
pub proof fn law_compute_only_when_initialized(e: EngineModel, steps: Seq<Step>)
    requires
        e.wf(),
    ensures
        e.run(steps).wf(),
        e.run(steps).compute_path() matches Some(t) ==> {
            &&& e.run(steps).initialized
            &&& !e.run(steps).terminated
            &&& select_topology(e.run(steps).inputs as int, e.run(steps).outputs as int) == Ok::<
                Topology,
                ConfigurationError,
            >(t)
        },
    decreases steps.len(),
{
    if steps.len() > 0 {
        law_compute_only_when_initialized(e, steps.drop_last());
    }
}

/// A module-change event that the callback sees in mid-stream ends the
/// session: it is handed to the outer loop and no buffer is computed any
/// more, so the old unit is never called again. The outer loop stops the
/// stream and asks for the module to be loaded. The new unit is installed
/// uninitialized and gets no compute call either, until a session is entered
/// again, which initializes it with the sample rate first.
pub proof fn law_module_change(
    e: EngineModel,
    m: MessageView,
    locator: Seq<char>,
    inputs: i32,
    outputs: i32,
)
    requires
        e.wf(),
        e.state is Streaming,
        m.id == MessageID::ChangeModule,
        m.value == ValueView::VString(locator),
    ensures
        ({
            let (e1, a1) = e.on_event(m);
            let (e2, a2) = e1.on_handoff(HandoffView::Signal(m));
            let e3 = e2.install(inputs, outputs);
            let (e4, r4) = e3.start();
            &&& a1 == EventActionView::Handoff(m)
            &&& e1.state is SwapPending
            &&& e1.compute_path() is None
            &&& forall|later: MessageView| #[trigger]
                e1.on_event(later) == (e1, EventActionView::Ignore)
            &&& a2 == OuterActionView::Load(locator)
            &&& e2.state == EngineState::Idle
            &&& e2.compute_path() is None
            &&& e2.can_install()
            &&& e3.inputs == inputs && e3.outputs == outputs
            &&& !e3.initialized
            &&& e3.compute_path() is None
            &&& outputs > 0 ==> r4 is Ok && r4.unwrap().sample_rate == SAMPLE_RATE && e4.initialized
                && e4.compute_path() == Some(r4.unwrap().topology) && select_topology(
                inputs as int,
                outputs as int,
            ) == Ok::<Topology, ConfigurationError>(r4.unwrap().topology)
            &&& outputs <= 0 ==> r4 == Err::<StreamConfig, StartError>(
                StartError::Configuration(ConfigurationError::NoOutputChannels),
            ) && e4.compute_path() is None
        }),
{
}

/// What the user interface is told of an installed module starts with the
/// confirmation of the change, and the default of every parameter follows,
/// each once, in the order of the parameters.
pub proof fn law_install_messages_order(base: Seq<char>, bundle: Bundle)
    ensures
        ({
            let ms = install_messages(base, bundle);
            let params = values_view(bundle.gui.params@);
            &&& ms.len() == 1 + params.len()
            &&& ms[0].id == MessageID::ChangeModule
            &&& forall|i: int|
                0 <= i < params.len() ==> (#[trigger] ms[i + 1]) == (MessageView {
                    id: MessageID::Param,
                    index: i as u32,
                    value: params[i],
                })
        }),
{
    let ms = install_messages(base, bundle);
    let params = values_view(bundle.gui.params@);
    assert forall|i: int| 0 <= i < params.len() implies (#[trigger] ms[i + 1]) == (MessageView {
        id: MessageID::Param,
        index: i as u32,
        value: params[i],
    }) by {
        assert(ms[i + 1] == params_messages(params)[i]);
    }
}

/// Once the callback has seen an exit event it computes no more and applies
/// no more events; the outer loop, woken with that event, ends; and from
/// then on no step of any kind opens a stream or computes a buffer again.
pub proof fn law_exit_is_final(e: EngineModel, m: MessageView, steps: Seq<Step>)
    requires
        e.wf(),
        e.state is Streaming,
        m.id == MessageID::Exit,
    ensures
        ({
            let (e1, a1) = e.on_event(m);
            let (e2, a2) = e1.on_handoff(HandoffView::Signal(m));
            &&& a1 == EventActionView::Handoff(m)
            &&& e1.compute_path() is None
            &&& forall|later: MessageView| #[trigger]
                e1.on_event(later) == (e1, EventActionView::Ignore)
            &&& a2 == OuterActionView::Terminate
            &&& e2.terminated
            &&& e2.state == EngineState::Idle
            &&& e2.run(steps) == e2
            &&& e2.run(steps).compute_path() is None
            &&& e2.start().1 == Err::<StreamConfig, StartError>(StartError::Terminated)
        }),
{
    let e1 = e.on_event(m).0;
    let e2 = e1.on_handoff(HandoffView::Signal(m)).0;
    lemma_terminated_stays(e2, steps);
}

/// A terminated, idle engine is changed by no step.
pub proof fn lemma_terminated_stays(e: EngineModel, steps: Seq<Step>)
    requires
        e.terminated,
        e.state == EngineState::Idle,
    ensures
        e.run(steps) == e,
    decreases steps.len(),
{
    if steps.len() > 0 {
        lemma_terminated_stays(e, steps.drop_last());
    }
}

/// The router and the engine's note-handling path keep the two classes of
/// MIDI event apart. A controller change is never handed to the engine, and
/// the note-handling path would discard it; what is handed to the engine is
/// the raw event as it came and is no controller change; a note-on or
/// note-off is always handed to the engine and never becomes an event for
/// the user interface, which gets controller events only.
pub proof fn law_midi_classes_stay_apart(raw: Seq<u8>)
    ensures
        is_controller_change(raw) ==> !(route_of(raw) is ToEngine),
        is_controller_change(raw) ==> note_action_of(raw) == NoteAction::Discard,
        route_of(raw) matches RoutedView::ToEngine(data) ==> data == raw && !is_controller_change(
            data,
        ),
        raw.len() > 0 && (raw[0] & STATUS_MASK == NOTE_ON || raw[0] & STATUS_MASK == NOTE_OFF)
            ==> route_of(raw) == RoutedView::ToEngine(raw),
        route_of(raw) matches RoutedView::ToUi(m) ==> m.id == MessageID::Control
            && is_controller_change(raw) && !(note_action_of(raw) is NoteOn) && !(note_action_of(
            raw,
        ) is NoteOff),
{
}

} // verus!
