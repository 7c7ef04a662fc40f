//! The message bus: the kinds of event, the event itself, and the transport
//! handles that carry events between the actors without blocking the sender.

use crate::messages::{Index, Value, ValueView};
use crate::text::{i32_to_string, int_text};
use vstd::prelude::*;
use vstd::string::*;

verus! {

/// The kinds of event that travel on the bus. Some go both ways between the
/// user interface and the audio engine (`ChangeModule`), others one way only
/// (`Loaded` comes from the user interface).
#[derive(Clone, Copy, Debug, PartialEq, Eq, Structural)]
pub enum MessageID {
    /// A parameter changed.
    Param,
    /// A controller changed.
    Control,
    /// Change the current module.
    ChangeModule,
    /// An input device: offered to the user interface, or selected by it.
    AddInputDevice,
    /// An output device: offered to the user interface, or selected by it.
    AddOutputDevice,
    /// The user interface has finished loading.
    Loaded,
    /// The application quits.
    Exit,
    /// A module offered to the user interface.
    AddModule,
    /// A note was pressed.
    NoteOn,
    /// A note was released.
    NoteOff,
}

impl MessageID {
    /// The small integer that stands for the kind on the wire.
    pub open spec fn spec_code(self) -> u32 {
        match self {
            MessageID::Param => 0,
            MessageID::Control => 1,
            MessageID::ChangeModule => 2,
            MessageID::AddInputDevice => 3,
            MessageID::AddOutputDevice => 4,
            MessageID::Loaded => 5,
            MessageID::Exit => 6,
            MessageID::AddModule => 7,
            MessageID::NoteOn => 8,
            MessageID::NoteOff => 9,
        }
    }

    /// The small integer that stands for the kind on the wire.
    #[verifier::when_used_as_spec(spec_code)]
    pub fn code(self) -> (c: u32)
        ensures
            c == self.spec_code(),
    {
        match self {
            MessageID::Param => 0,
            MessageID::Control => 1,
            MessageID::ChangeModule => 2,
            MessageID::AddInputDevice => 3,
            MessageID::AddOutputDevice => 4,
            MessageID::Loaded => 5,
            MessageID::Exit => 6,
            MessageID::AddModule => 7,
            MessageID::NoteOn => 8,
            MessageID::NoteOff => 9,
        }
    }

    /// The kind that a wire code stands for; `None` for a code above 9.
    pub fn from_code(code: u32) -> (r: Option<MessageID>)
        ensures
            code <= 9 <==> r is Some,
            r matches Some(id) ==> id.spec_code() == code,
    {
        match code {
            0 => Some(MessageID::Param),
            1 => Some(MessageID::Control),
            2 => Some(MessageID::ChangeModule),
            3 => Some(MessageID::AddInputDevice),
            4 => Some(MessageID::AddOutputDevice),
            5 => Some(MessageID::Loaded),
            6 => Some(MessageID::Exit),
            7 => Some(MessageID::AddModule),
            8 => Some(MessageID::NoteOn),
            9 => Some(MessageID::NoteOff),
            _ => None,
        }
    }

    /// Whether an event of this kind ends the running stream: the engine does
    /// not apply it inside the audio callback but hands it to its outer loop.
    pub open spec fn spec_stops_stream(self) -> bool {
        self == MessageID::ChangeModule || self == MessageID::AddInputDevice || self
            == MessageID::AddOutputDevice || self == MessageID::Exit
    }

    /// Whether an event of this kind ends the running stream.
    #[verifier::when_used_as_spec(spec_stops_stream)]
    pub fn stops_stream(self) -> (b: bool)
        ensures
            b == self.spec_stops_stream(),
    {
        match self {
            MessageID::ChangeModule
            | MessageID::AddInputDevice
            | MessageID::AddOutputDevice
            | MessageID::Exit => true,
            _ => false,
        }
    }
}

/// Two kinds with the same wire code are the same kind.
pub proof fn law_wire_codes_are_unique(a: MessageID, b: MessageID)
    requires
        a.spec_code() == b.spec_code(),
    ensures
        a == b,
{
}

/// The event that every actor sends and receives: a kind, an index into what
/// the kind speaks of (0 where it has none) and a payload.
#[derive(Debug, PartialEq)]
pub struct Message {
    /// The kind of the event.
    pub id: MessageID,
    /// Index of the parameter or controller; 0 where the kind has none.
    pub index: Index,
    /// The payload.
    pub value: Value,
}

/// An event as mathematical values.
pub struct MessageView {
    pub id: MessageID,
    pub index: Index,
    pub value: ValueView,
}

impl View for Message {
    type V = MessageView;

    open spec fn view(&self) -> MessageView {
        MessageView { id: self.id, index: self.index, value: self.value@ }
    }
}

impl Clone for Message {
    fn clone(&self) -> (r: Self)
        ensures
            r@ == self@,
    {
        Message { id: self.id, index: self.index, value: self.value.clone() }
    }
}

/// The payload of a module change: the address of the module's interface,
/// its width and its height, with one space between them.
pub open spec fn change_module_text(url: Seq<char>, width: int, height: int) -> Seq<char> {
    url + seq![' '] + int_text(width) + seq![' '] + int_text(height)
}

impl Message {
    /// The event that tells the user interface to show another module.
    pub fn change_module(url: &str, width: i32, height: i32) -> (m: Self)
        ensures
            m@ == (MessageView {
                id: MessageID::ChangeModule,
                index: 0,
                value: ValueView::VString(
                    change_module_text(url@, width as int, height as int),
                ),
            }),
    {
        proof {
            reveal_strlit(" ");
        }
        let mut s = String::from_str(url);
        s.append(" ");
        let w = i32_to_string(width);
        s.append(w.as_str());
        s.append(" ");
        let h = i32_to_string(height);
        s.append(h.as_str());
        assert(s@ =~= change_module_text(url@, width as int, height as int));
        Message { id: MessageID::ChangeModule, index: 0, value: Value::VString(s) }
    }
}

/// Why the bus could not carry an event.
#[derive(Clone, Copy, Debug, PartialEq, Eq, Structural)]
pub enum BusError {
    /// The other end of the transport is gone.
    Disconnected,
}

/// The sending end of a transport, as an actor sees it.
pub trait Send {
    /// Hands an event to the transport. Must not block the caller.
    fn send(&self, id: MessageID, index: Index, v: Value) -> (r: Result<(), BusError>);
}

/// The receiving end of a transport, as an actor sees it.
pub trait Receive {
    /// Waits for the next event for `index`. Only for an actor with a thread
    /// of its own that may sleep.
    fn recv(&self, index: Index) -> (r: Result<(MessageID, Value), BusError>);

    /// The next event for `index` if one is ready. Never waits.
    fn try_recv(&self, index: Index) -> (r: Result<(MessageID, Value), BusError>);
}

/// `crossbeam_channel::Sender`: the sending end of a channel, carried as an
/// opaque value.
#[verifier::external_type_specification]
#[verifier::external_body]
#[verifier::reject_recursive_types(T)]
pub struct ExSender<T>(crossbeam_channel::Sender<T>);

/// `crossbeam_channel::Receiver`: the receiving end of a channel, carried
/// as an opaque value.
#[verifier::external_type_specification]
#[verifier::external_body]
#[verifier::reject_recursive_types(T)]
pub struct ExReceiver<T>(crossbeam_channel::Receiver<T>);

/// `crossbeam_channel::Sender::send`: puts `item` into the channel. Nothing
/// is claimed of the outcome: it fails when every receiver is gone, which
/// other threads decide.
#[verifier::external_body]
pub(crate) fn channel_send<T>(sender: &crossbeam_channel::Sender<T>, item: T) -> (r: Result<
    (),
    (),
>) {
    match sender.send(item) {
        Ok(()) => Ok(()),
        Err(_) => Err(()),
    }
}

/// `crossbeam_channel::Receiver::try_recv`: takes the next item out of the
/// channel if one is there, without waiting. Nothing is claimed of the
/// outcome: what the channel holds, other threads decide.
#[verifier::external_body]
pub(crate) fn channel_try_recv<T>(receiver: &crossbeam_channel::Receiver<T>) -> (r: Option<T>) {
    match receiver.try_recv() {
        Ok(item) => Some(item),
        Err(_) => None,
    }
}

/// What a send reports, given whether the channel took the event: success
/// where it did, and `Disconnected` where it did not, for a channel refuses
/// an event only when its receiving end is gone.
pub fn send_outcome(taken: Result<(), ()>) -> (r: Result<(), BusError>)
    ensures
        taken is Ok ==> r is Ok,
        taken is Err ==> r == Err::<(), BusError>(BusError::Disconnected),
{
    match taken {
        Ok(()) => Ok(()),
        Err(()) => Err(BusError::Disconnected),
    }
}

/// A sending end inside this process.
pub struct LocalSend {
    sender: crossbeam_channel::Sender<Message>,
}

impl LocalSend {
    /// The channel that this end sends on.
    pub closed spec fn channel(&self) -> crossbeam_channel::Sender<Message> {
        self.sender
    }

    /// A sending end on the given channel.
    pub fn new(sender: crossbeam_channel::Sender<Message>) -> (r: Self)
        ensures
            r.channel() == sender,
    {
        Self { sender }
    }

    /// Hands a whole event to the transport. Fails only when the receiving
    /// end is gone.
    pub fn send_message(&self, m: Message) -> (r: Result<(), BusError>) {
        send_outcome(channel_send(&self.sender, m))
    }

    /// Hands the events to the transport one after another, and stops at
    /// the first that it does not take.
    pub fn send_all(&self, messages: Vec<Message>) -> (r: Result<(), BusError>)
        ensures
            messages@.len() == 0 ==> r is Ok,
    {
        let ghost total = messages@.len();
        let mut rest = messages;
        let mut outcome: Result<(), BusError> = Ok(());
        while rest.len() > 0 && outcome.is_ok()
            invariant
                rest@.len() <= total,
                outcome is Err ==> total > 0,
            decreases rest.len(),
        {
            let m = rest.remove(0);
            outcome = self.send_message(m);
        }
        outcome
    }
}

impl Send for LocalSend {
    fn send(&self, id: MessageID, index: Index, value: Value) -> (r: Result<(), BusError>) {
        self.send_message(Message { id, index, value })
    }
}

/// A sending end inside this process, for use from a callback.
pub struct LocalSendCB {
    sender: crossbeam_channel::Sender<Message>,
}

impl LocalSendCB {
    /// The channel that this end sends on.
    pub closed spec fn channel(&self) -> crossbeam_channel::Sender<Message> {
        self.sender
    }

    /// A sending end on the given channel.
    pub fn new(sender: crossbeam_channel::Sender<Message>) -> (r: Self)
        ensures
            r.channel() == sender,
    {
        Self { sender }
    }
}

impl Send for LocalSendCB {
    fn send(&self, id: MessageID, index: Index, value: Value) -> (r: Result<(), BusError>) {
        send_outcome(channel_send(&self.sender, Message { id, index, value }))
    }
}

/// A receiving end inside this process.
pub struct LocalReceive {
    receiver: crossbeam_channel::Receiver<Message>,
}

impl LocalReceive {
    /// The channel that this end receives from.
    pub closed spec fn channel(&self) -> crossbeam_channel::Receiver<Message> {
        self.receiver
    }

    /// A receiving end on the given channel.
    pub fn new(receiver: crossbeam_channel::Receiver<Message>) -> (r: Self)
        ensures
            r.channel() == receiver,
    {
        Self { receiver }
    }

    /// The next event if one is ready. Returns at once either way.
    pub fn try_receive(&self) -> (r: Option<Message>) {
        channel_try_recv(&self.receiver)
    }
}

} // verus!
