//! The MIDI router: which way a raw MIDI event goes, and the input ports
//! that are open.
//!
//! A controller change goes straight to the user interface; every other
//! event goes to the audio engine as a structured MIDI message.

use crate::comms::{
    channel_send, send_outcome, BusError, LocalSend, Message, MessageID, MessageView,
};
use crate::messages::{Value, ValueView};
use vstd::prelude::*;
use vstd::slice::slice_to_vec;

verus! {

/// The bits of a status byte that give the class of the event; the others
/// give the channel.
pub const STATUS_MASK: u8 = 0xF0;

/// The class of a controller change.
pub const CONTROL_CHANGE: u8 = 0xB0;

/// The class of a pressed note.
pub const NOTE_ON: u8 = 0x90;

/// The class of a released note.
pub const NOTE_OFF: u8 = 0x80;

/// `rimd::MidiMessage`: a MIDI message, carried as an opaque value.
#[verifier::external_type_specification]
#[verifier::external_body]
pub struct ExMidiMessage(rimd::MidiMessage);

/// The bytes that a `rimd::MidiMessage` holds, the status byte first.
pub uninterp spec fn midi_data(m: rimd::MidiMessage) -> Seq<u8>;

/// `rimd::MidiMessage::from_bytes`: the message that holds exactly the given
/// bytes. The outside function checks nothing and keeps the vector as it is.
#[verifier::external_body]
pub(crate) fn midi_from_bytes(bytes: Vec<u8>) -> (m: rimd::MidiMessage)
    ensures
        midi_data(m) == bytes@,
{
    rimd::MidiMessage::from_bytes(bytes)
}

/// The number of bytes in a message: the length of its public field `data`.
#[verifier::external_body]
pub(crate) fn midi_len(m: &rimd::MidiMessage) -> (n: usize)
    ensures
        n == midi_data(*m).len(),
{
    m.data.len()
}

/// `rimd::MidiMessage::status`, as the number of the status it returns: the
/// first byte with the channel bits cleared. The outside function panics on
/// an empty message and on a first byte below 0x80, which names no status.
#[verifier::external_body]
pub(crate) fn midi_status(m: &rimd::MidiMessage) -> (s: u8)
    requires
        midi_data(*m).len() > 0,
        midi_data(*m)[0] >= 0x80,
    ensures
        s == midi_data(*m)[0] & STATUS_MASK,
{
    m.status() as u8
}

/// `rimd::MidiMessage::data`: the byte at `index`. The outside function
/// panics on an index past the end.
#[verifier::external_body]
pub(crate) fn midi_data_at(m: &rimd::MidiMessage, index: usize) -> (b: u8)
    requires
        index < midi_data(*m).len(),
    ensures
        b == midi_data(*m)[index as int],
{
    m.data(index)
}

/// Where the router sends a raw event.
pub enum Routed {
    /// To the user interface, as a controller-change event.
    ToUi(Message),
    /// To the audio engine, as a MIDI message.
    ToEngine(rimd::MidiMessage),
    /// Nowhere: the event is empty, or a controller change cut short.
    Dropped,
}

/// Where the router sends a raw event, as mathematical values.
pub enum RoutedView {
    ToUi(MessageView),
    ToEngine(Seq<u8>),
    Dropped,
}

impl View for Routed {
    type V = RoutedView;

    open spec fn view(&self) -> RoutedView {
        match self {
            Routed::ToUi(m) => RoutedView::ToUi(m@),
            Routed::ToEngine(m) => RoutedView::ToEngine(midi_data(*m)),
            Routed::Dropped => RoutedView::Dropped,
        }
    }
}

/// Whether a raw event is a controller change: it has a status byte, and
/// the class of that byte is `CONTROL_CHANGE`.
pub open spec fn is_controller_change(raw: Seq<u8>) -> bool {
    raw.len() > 0 && raw[0] & STATUS_MASK == CONTROL_CHANGE
}

/// The event that tells the user interface of a controller change: the
/// controller's number as index, its new value as payload.
pub open spec fn controller_event(raw: Seq<u8>) -> MessageView
    recommends
        raw.len() >= 3,
{
    MessageView {
        id: MessageID::Control,
        index: raw[1] as u32,
        value: ValueView::VInt(raw[2] as i32),
    }
}

/// Where a raw event goes.
pub open spec fn route_of(raw: Seq<u8>) -> RoutedView {
    if raw.len() == 0 {
        RoutedView::Dropped
    } else if is_controller_change(raw) {
        if raw.len() >= 3 {
            RoutedView::ToUi(controller_event(raw))
        } else {
            RoutedView::Dropped
        }
    } else {
        RoutedView::ToEngine(raw)
    }
}

/// Decides where a raw event from a MIDI port goes, and builds what is sent
/// there.
pub fn route(raw: &[u8]) -> (r: Routed)
    ensures
        r@ == route_of(raw@),
{
    if raw.len() == 0 {
        Routed::Dropped
    } else if raw[0] & STATUS_MASK == CONTROL_CHANGE {
        if raw.len() >= 3 {
            Routed::ToUi(
                Message {
                    id: MessageID::Control,
                    index: raw[1] as u32,
                    value: Value::VInt(raw[2] as i32),
                },
            )
        } else {
            Routed::Dropped
        }
    } else {
        Routed::ToEngine(midi_from_bytes(slice_to_vec(raw)))
    }
}

/// Which way an event went.
#[derive(Clone, Copy, Debug, PartialEq, Eq, Structural)]
pub enum Delivery {
    Ui,
    Engine,
    Dropped,
}

/// Which way a raw event goes.
pub open spec fn delivery_of(raw: Seq<u8>) -> Delivery {
    match route_of(raw) {
        RoutedView::ToUi(_) => Delivery::Ui,
        RoutedView::ToEngine(_) => Delivery::Engine,
        RoutedView::Dropped => Delivery::Dropped,
    }
}

/// Routes a raw event and hands it to the channel it belongs on: what a
/// MIDI port's callback does with each event. Fails when the channel that
/// the event belongs on has lost its receiver; an event that is dropped
/// cannot fail.
pub fn forward(
    raw: &[u8],
    to_engine: &crossbeam_channel::Sender<rimd::MidiMessage>,
    to_ui: &LocalSend,
) -> (r: Result<Delivery, BusError>)
    ensures
        r matches Ok(d) ==> d == delivery_of(raw@),
        delivery_of(raw@) == Delivery::Dropped ==> r is Ok,
{
    match route(raw) {
        Routed::ToUi(m) => match to_ui.send_message(m) {
            Ok(()) => Ok(Delivery::Ui),
            Err(e) => Err(e),
        },
        Routed::ToEngine(m) => match send_outcome(channel_send(to_engine, m)) {
            Ok(()) => Ok(Delivery::Engine),
            Err(e) => Err(e),
        },
        Routed::Dropped => Ok(Delivery::Dropped),
    }
}

/// Why an input port could not be opened.
#[derive(Clone, Copy, Debug, PartialEq, Eq, Structural)]
pub enum OpenError {
    /// No port has the name that was asked for.
    NotFound,
    /// The platform refused to open the port.
    PlatformOpenFailed,
}

/// Whether port `i` could be read and has the name `name`.
pub open spec fn port_named(ports: Seq<Option<String>>, name: Seq<char>, i: int) -> bool {
    0 <= i < ports.len() && ports[i] is Some && ports[i].unwrap()@ == name
}

/// Whether `i` is the first port with the name `name`.
pub open spec fn first_port_named(ports: Seq<Option<String>>, name: Seq<char>, i: int) -> bool {
    port_named(ports, name, i) && forall|j: int| 0 <= j < i ==> !port_named(ports, name, j)
}

/// Whether any port has the name `name`.
pub open spec fn has_port_named(ports: Seq<Option<String>>, name: Seq<char>) -> bool {
    exists|i: int| port_named(ports, name, i)
}

/// The names that could be read, in the order of their ports.
pub open spec fn readable_names(ports: Seq<Option<String>>) -> Seq<Seq<char>>
    decreases ports.len(),
{
    if ports.len() == 0 {
        Seq::<Seq<char>>::empty()
    } else if ports.last() is Some {
        readable_names(ports.drop_last()).push(ports.last().unwrap()@)
    } else {
        readable_names(ports.drop_last())
    }
}

/// The views of a vector of names.
pub open spec fn names_view(names: Seq<String>) -> Seq<Seq<char>> {
    names.map_values(|s: String| s@)
}

/// The position of the first port with the name `name`.
pub fn find_port(ports: &Vec<Option<String>>, name: &String) -> (r: Option<usize>)
    ensures
        r is None <==> !has_port_named(ports@, name@),
        r matches Some(i) ==> first_port_named(ports@, name@, i as int),
{
    let mut i: usize = 0;
    while i < ports.len()
        invariant
            i <= ports.len(),
            forall|j: int| 0 <= j < i ==> !port_named(ports@, name@, j),
        decreases ports.len() - i,
    {
        match &ports[i] {
            Some(n) => {
                if *n == *name {
                    assert(port_named(ports@, name@, i as int));
                    return Some(i);
                }
            },
            None => {},
        }
        i = i + 1;
    }
    None
}

/// The MIDI input side of the host: the connections to the ports that have
/// been opened, oldest first. `C` is what the platform hands out for an
/// open port.
pub struct Midi<C> {
    input_connections: Vec<C>,
}

impl<C> Midi<C> {
    /// The open connections, oldest first.
    pub closed spec fn connections(&self) -> Seq<C> {
        self.input_connections@
    }

    /// A router with no port open.
    pub fn new() -> (m: Self)
        ensures
            m.connections() == Seq::<C>::empty(),
    {
        Self { input_connections: Vec::new() }
    }

    /// The number of open connections.
    pub fn open_count(&self) -> (n: usize)
        ensures
            n == self.connections().len(),
    {
        self.input_connections.len()
    }

    /// The names of the ports on offer. `ports` holds, for each port of the
    /// platform in order, its name or `None` where the name cannot be read.
    pub fn get_inputs(&self, ports: &Vec<Option<String>>) -> (names: Vec<String>)
        ensures
            names_view(names@) == readable_names(ports@),
    {
        let mut names: Vec<String> = Vec::new();
        let mut i: usize = 0;
        while i < ports.len()
            invariant
                i <= ports.len(),
                names_view(names@) == readable_names(ports@.take(i as int)),
            decreases ports.len() - i,
        {
            let ghost before = names@;
            proof {
                let next = ports@.take(i + 1);
                assert(next.drop_last() =~= ports@.take(i as int));
                assert(next.last() == ports@[i as int]);
            }
            match &ports[i] {
                Some(n) => {
                    names.push(n.clone());
                    assert(names_view(names@) =~= names_view(before).push(n@));
                },
                None => {},
            }
            i = i + 1;
        }
        assert(ports@.take(ports.len() as int) =~= ports@);
        names
    }

    /// Opens the first port named `device_name` and keeps its connection.
    ///
    /// `ports` holds the names of the platform's ports as for `get_inputs`,
    /// and `connect` asks the platform to open the port at the position it is
    /// given. With no port of that name the result is `NotFound`, `connect`
    /// is not called, and the open connections stay as they are. Where the
    /// platform refuses, the result is `PlatformOpenFailed` and the open
    /// connections stay as they are too.
    pub fn open_input<F: FnOnce(usize) -> Option<C>>(
        &mut self,
        device_name: String,
        ports: &Vec<Option<String>>,
        connect: F,
    ) -> (r: Result<(), OpenError>)
        requires
            forall|i: usize| i < ports.len() ==> call_requires(connect, (i,)),
        ensures
            !has_port_named(ports@, device_name@) ==> r == Err::<(), OpenError>(OpenError::NotFound)
                && final(self).connections() == old(self).connections(),
            has_port_named(ports@, device_name@) ==> exists|i: usize|
                #![trigger first_port_named(ports@, device_name@, i as int)]
                first_port_named(ports@, device_name@, i as int) && ({
                    ||| (r is Ok && exists|c: C| #[trigger]
                        call_ensures(connect, (i,), Some(c)) && final(self).connections() == old(
                            self,
                        ).connections().push(c))
                    ||| (r == Err::<(), OpenError>(OpenError::PlatformOpenFailed) && call_ensures(
                        connect,
                        (i,),
                        None::<C>,
                    ) && final(self).connections() == old(self).connections())
                }),
    {
        match find_port(ports, &device_name) {
            None => Err(OpenError::NotFound),
            Some(i) => {
                assert(port_named(ports@, device_name@, i as int));
                match connect(i) {
                    Some(c) => {
                        self.input_connections.push(c);
                        assert(first_port_named(ports@, device_name@, i as int));
                        Ok(())
                    },
                    None => {
                        assert(first_port_named(ports@, device_name@, i as int));
                        Err(OpenError::PlatformOpenFailed)
                    },
                }
            },
        }
    }
}

} // verus!
