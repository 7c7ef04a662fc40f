//! The user-interface side of the protocol: what a message from the
//! interface becomes on the bus, and the queue that holds events for the
//! interface back until it has loaded.

use crate::comms::{
    channel_send, send_outcome, BusError, Message, MessageID, MessageView, Send,
};
use crate::messages::{Index, Value, ValueView};
use crate::text::{pair_fields, split_pair, split_three_words, three_words};
use vstd::prelude::*;

verus! {

/// The kinds of message that the user interface sends to the host.
#[derive(Clone, Copy, Debug, PartialEq, Eq, Structural)]
pub enum MsgType {
    Console,
    SendParam,
    ChangeModule,
    ChangeInputDevice,
    ChangeOutputDevice,
    Loaded,
    NoteOn,
    NoteOff,
}

impl MsgType {
    /// The small integer that stands for the kind on the wire.
    pub open spec fn spec_code(self) -> u16 {
        match self {
            MsgType::Console => 0,
            MsgType::SendParam => 1,
            MsgType::ChangeModule => 2,
            MsgType::ChangeInputDevice => 3,
            MsgType::ChangeOutputDevice => 4,
            MsgType::Loaded => 5,
            MsgType::NoteOn => 6,
            MsgType::NoteOff => 7,
        }
    }

    /// The small integer that stands for the kind on the wire.
    #[verifier::when_used_as_spec(spec_code)]
    pub fn code(self) -> (c: u16)
        ensures
            c == self.spec_code(),
    {
        match self {
            MsgType::Console => 0,
            MsgType::SendParam => 1,
            MsgType::ChangeModule => 2,
            MsgType::ChangeInputDevice => 3,
            MsgType::ChangeOutputDevice => 4,
            MsgType::Loaded => 5,
            MsgType::NoteOn => 6,
            MsgType::NoteOff => 7,
        }
    }

    /// The kind that a wire code stands for; `None` for a code above 7.
    pub fn from_code(code: u16) -> (r: Option<MsgType>)
        ensures
            code <= 7 <==> r is Some,
            r matches Some(t) ==> t.spec_code() == code,
    {
        match code {
            0 => Some(MsgType::Console),
            1 => Some(MsgType::SendParam),
            2 => Some(MsgType::ChangeModule),
            3 => Some(MsgType::ChangeInputDevice),
            4 => Some(MsgType::ChangeOutputDevice),
            5 => Some(MsgType::Loaded),
            6 => Some(MsgType::NoteOn),
            7 => Some(MsgType::NoteOff),
            _ => None,
        }
    }
}

/// A message from the user interface.
#[derive(Debug)]
pub struct UIMessage {
    pub msg: MsgType,
    pub index: u32,
    pub value: Option<Value>,
}

/// Where a message from the user interface goes.
#[derive(Debug, PartialEq)]
pub enum Dispatch {
    /// To the audio engine, as this event.
    ToAudio(Message),
    /// Back to the queue of the user interface, as this event.
    ToGui(Message),
    /// To the console, as text to print.
    Console(Value),
    /// Nowhere: the message has no value, and its kind needs one.
    Nothing,
}

/// Where a message from the user interface goes, as mathematical values.
pub enum DispatchView {
    ToAudio(MessageView),
    ToGui(MessageView),
    Console(ValueView),
    Nothing,
}

impl View for Dispatch {
    type V = DispatchView;

    open spec fn view(&self) -> DispatchView {
        match self {
            Dispatch::ToAudio(m) => DispatchView::ToAudio(m@),
            Dispatch::ToGui(m) => DispatchView::ToGui(m@),
            Dispatch::Console(v) => DispatchView::Console(v@),
            Dispatch::Nothing => DispatchView::Nothing,
        }
    }
}

/// The event that tells the queue of the user interface that the interface
/// has loaded.
pub open spec fn loaded_event() -> MessageView {
    MessageView { id: MessageID::Loaded, index: 0, value: ValueView::VInt(0) }
}

/// Where a message of the given kind, index and value goes. `Loaded` needs
/// no value; every other kind does nothing without one. Only a parameter
/// keeps its index.
pub open spec fn dispatch_of(msg: MsgType, index: u32, value: Option<ValueView>) -> DispatchView {
    if msg == MsgType::Loaded {
        DispatchView::ToGui(loaded_event())
    } else {
        match value {
            None => DispatchView::Nothing,
            Some(v) => match msg {
                MsgType::Console => DispatchView::Console(v),
                MsgType::SendParam => DispatchView::ToAudio(
                    MessageView { id: MessageID::Param, index, value: v },
                ),
                MsgType::ChangeModule => DispatchView::ToAudio(
                    MessageView { id: MessageID::ChangeModule, index: 0, value: v },
                ),
                MsgType::ChangeInputDevice => DispatchView::ToAudio(
                    MessageView { id: MessageID::AddInputDevice, index: 0, value: v },
                ),
                MsgType::ChangeOutputDevice => DispatchView::ToAudio(
                    MessageView { id: MessageID::AddOutputDevice, index: 0, value: v },
                ),
                MsgType::NoteOn => DispatchView::ToAudio(
                    MessageView { id: MessageID::NoteOn, index: 0, value: v },
                ),
                MsgType::NoteOff => DispatchView::ToAudio(
                    MessageView { id: MessageID::NoteOff, index: 0, value: v },
                ),
                MsgType::Loaded => DispatchView::ToGui(loaded_event()),
            },
        }
    }
}

/// The view of an optional payload.
pub open spec fn option_view(value: Option<Value>) -> Option<ValueView> {
    match value {
        Some(v) => Some(v@),
        None => None,
    }
}

/// Decides where a message from the user interface goes, and builds the
/// event that is sent there.
pub fn dispatch(m: UIMessage) -> (r: Dispatch)
    ensures
        r@ == dispatch_of(m.msg, m.index, option_view(m.value)),
{
    match m.msg {
        MsgType::Loaded => Dispatch::ToGui(
            Message { id: MessageID::Loaded, index: 0, value: Value::VInt(0) },
        ),
        kind => match m.value {
            None => Dispatch::Nothing,
            Some(v) => match kind {
                MsgType::Console => Dispatch::Console(v),
                MsgType::SendParam => Dispatch::ToAudio(
                    Message { id: MessageID::Param, index: m.index, value: v },
                ),
                MsgType::ChangeModule => Dispatch::ToAudio(
                    Message { id: MessageID::ChangeModule, index: 0, value: v },
                ),
                MsgType::ChangeInputDevice => Dispatch::ToAudio(
                    Message { id: MessageID::AddInputDevice, index: 0, value: v },
                ),
                MsgType::ChangeOutputDevice => Dispatch::ToAudio(
                    Message { id: MessageID::AddOutputDevice, index: 0, value: v },
                ),
                MsgType::NoteOn => Dispatch::ToAudio(
                    Message { id: MessageID::NoteOn, index: 0, value: v },
                ),
                MsgType::NoteOff => Dispatch::ToAudio(
                    Message { id: MessageID::NoteOff, index: 0, value: v },
                ),
                MsgType::Loaded => Dispatch::ToGui(
                    Message { id: MessageID::Loaded, index: 0, value: Value::VInt(0) },
                ),
            },
        },
    }
}

/// What became of a message from the user interface.
#[derive(Debug, PartialEq)]
pub enum Handled {
    /// It was sent to the audio engine.
    SentToAudio,
    /// It was sent to the queue of the user interface.
    SentToGui,
    /// It asks for this value to be printed on the console.
    Print(Value),
    /// It needed a value and had none.
    Skipped,
}

/// Which way a dispatched message went, leaving out what it carried.
pub open spec fn handled_kind(d: DispatchView, h: Handled) -> bool {
    match d {
        DispatchView::ToAudio(_) => h is SentToAudio,
        DispatchView::ToGui(_) => h is SentToGui,
        DispatchView::Console(v) => h matches Handled::Print(p) && p@ == v,
        DispatchView::Nothing => h is Skipped,
    }
}

/// The host's end of the user interface: it puts what the interface says
/// onto the bus. `S` is the sending end towards the audio engine.
pub struct Handler<S: Send> {
    sender: S,
    gui_sender: crossbeam_channel::Sender<Message>,
}

impl<S: Send> Handler<S> {
    /// The sending end towards the audio engine.
    pub closed spec fn audio_end(&self) -> S {
        self.sender
    }

    /// The channel towards the queue of the user interface.
    pub closed spec fn gui_end(&self) -> crossbeam_channel::Sender<Message> {
        self.gui_sender
    }

    /// A handler that sends to the audio engine through `sender` and to the
    /// queue of the user interface on `gui_sender`.
    pub fn new(sender: S, gui_sender: crossbeam_channel::Sender<Message>) -> (r: Self)
        ensures
            r.audio_end() == sender,
            r.gui_end() == gui_sender,
    {
        Self { sender, gui_sender }
    }

    /// A parameter was changed in the interface.
    pub fn receive(&self, index: Index, value: Value) -> (r: Result<(), BusError>) {
        self.sender.send(MessageID::Param, index, value)
    }

    /// The interface asks for another module.
    pub fn change_module(&self, value: Value) -> (r: Result<(), BusError>) {
        self.sender.send(MessageID::ChangeModule, 0, value)
    }

    /// The interface selects an input device.
    pub fn add_input_device(&self, value: Value) -> (r: Result<(), BusError>) {
        self.sender.send(MessageID::AddInputDevice, 0, value)
    }

    /// The interface selects an output device.
    pub fn add_output_device(&self, value: Value) -> (r: Result<(), BusError>) {
        self.sender.send(MessageID::AddOutputDevice, 0, value)
    }

    /// A note was pressed in the interface.
    pub fn note_on(&self, value: Value) -> (r: Result<(), BusError>) {
        self.sender.send(MessageID::NoteOn, 0, value)
    }

    /// A note was released in the interface.
    pub fn note_off(&self, value: Value) -> (r: Result<(), BusError>) {
        self.sender.send(MessageID::NoteOff, 0, value)
    }

    /// The interface has finished loading.
    pub fn loaded(&self) -> (r: Result<(), BusError>) {
        let m = Message { id: MessageID::Loaded, index: 0, value: Value::VInt(0) };
        send_outcome(channel_send(&self.gui_sender, m))
    }

    /// Dispatches one message from the interface and sends what it becomes.
    /// Fails when the bus does not take the event; a message that is
    /// printed or skipped cannot fail.
    pub fn handle(&self, m: UIMessage) -> (r: Result<Handled, BusError>)
        ensures
            r matches Ok(h) ==> handled_kind(
                dispatch_of(m.msg, m.index, option_view(m.value)),
                h,
            ),
            dispatch_of(m.msg, m.index, option_view(m.value)) is Console || dispatch_of(
                m.msg,
                m.index,
                option_view(m.value),
            ) is Nothing ==> r is Ok,
    {
        match dispatch(m) {
            Dispatch::ToAudio(e) => match self.sender.send(e.id, e.index, e.value) {
                Ok(()) => Ok(Handled::SentToAudio),
                Err(e) => Err(e),
            },
            Dispatch::ToGui(e) => match send_outcome(channel_send(&self.gui_sender, e)) {
                Ok(()) => Ok(Handled::SentToGui),
                Err(e) => Err(e),
            },
            Dispatch::Console(v) => Ok(Handled::Print(v)),
            Dispatch::Nothing => Ok(Handled::Skipped),
        }
    }
}

/// What the user interface is asked to do.
#[derive(Debug, PartialEq)]
#[allow(inconsistent_fields)]
pub enum UiCommand {
    /// Show the new value of a parameter.
    ParamChange { index: Index, value: Value },
    /// Show the new value of a controller.
    ControlChange { index: Index, data: i32 },
    /// Show the interface of another module.
    ModuleChange { url: String, width: String, height: String },
    /// Offer an input device.
    AddInputDevice { name: String, index: String },
    /// Offer an output device.
    AddOutputDevice { name: String, index: String },
    /// Offer a module.
    AddModule { name: String, json_url: String },
    /// An event whose payload does not hold the fields of its kind.
    Malformed(Message),
}

/// What the user interface is asked to do, as mathematical values.
#[allow(inconsistent_fields)]
pub enum UiCommandView {
    ParamChange { index: Index, value: ValueView },
    ControlChange { index: Index, data: i32 },
    ModuleChange { url: Seq<char>, width: Seq<char>, height: Seq<char> },
    AddInputDevice { name: Seq<char>, index: Seq<char> },
    AddOutputDevice { name: Seq<char>, index: Seq<char> },
    AddModule { name: Seq<char>, json_url: Seq<char> },
    Malformed(MessageView),
}

impl View for UiCommand {
    type V = UiCommandView;

    open spec fn view(&self) -> UiCommandView {
        match self {
            UiCommand::ParamChange { index, value } => UiCommandView::ParamChange {
                index: *index,
                value: value@,
            },
            UiCommand::ControlChange { index, data } => UiCommandView::ControlChange {
                index: *index,
                data: *data,
            },
            UiCommand::ModuleChange { url, width, height } => UiCommandView::ModuleChange {
                url: url@,
                width: width@,
                height: height@,
            },
            UiCommand::AddInputDevice { name, index } => UiCommandView::AddInputDevice {
                name: name@,
                index: index@,
            },
            UiCommand::AddOutputDevice { name, index } => UiCommandView::AddOutputDevice {
                name: name@,
                index: index@,
            },
            UiCommand::AddModule { name, json_url } => UiCommandView::AddModule {
                name: name@,
                json_url: json_url@,
            },
            UiCommand::Malformed(m) => UiCommandView::Malformed(m@),
        }
    }
}

/// The two fields of a payload of the form "first=second".
pub open spec fn named_pair(value: ValueView) -> Option<(Seq<char>, Seq<char>)> {
    match value {
        ValueView::VString(s) => pair_fields(s, '='),
        _ => None,
    }
}

/// What an event asks of the user interface. A parameter, a controller, a
/// module change, a device and a module each become a command; an event of
/// one of these kinds whose payload does not hold its fields becomes
/// `Malformed`; an event of any other kind asks nothing.
pub open spec fn command_of(m: MessageView) -> Option<UiCommandView> {
    match m.id {
        MessageID::Param => Some(UiCommandView::ParamChange { index: m.index, value: m.value }),
        MessageID::Control => Some(
            UiCommandView::ControlChange { index: m.index, data: m.value.to_int() as i32 },
        ),
        MessageID::ChangeModule => match m.value {
            ValueView::VString(s) => match three_words(s) {
                Some(w) => Some(UiCommandView::ModuleChange { url: w.0, width: w.1, height: w.2 }),
                None => Some(UiCommandView::Malformed(m)),
            },
            _ => Some(UiCommandView::Malformed(m)),
        },
        MessageID::AddInputDevice => match named_pair(m.value) {
            Some(p) => Some(UiCommandView::AddInputDevice { name: p.0, index: p.1 }),
            None => Some(UiCommandView::Malformed(m)),
        },
        MessageID::AddOutputDevice => match named_pair(m.value) {
            Some(p) => Some(UiCommandView::AddOutputDevice { name: p.0, index: p.1 }),
            None => Some(UiCommandView::Malformed(m)),
        },
        MessageID::AddModule => match named_pair(m.value) {
            Some(p) => Some(UiCommandView::AddModule { name: p.0, json_url: p.1 }),
            None => Some(UiCommandView::Malformed(m)),
        },
        _ => None,
    }
}

/// The two fields of a payload of the form "first=second".
fn split_named_pair(value: &Value) -> (r: Option<(String, String)>)
    ensures
        r is Some <==> named_pair(value@) is Some,
        r matches Some(p) ==> (p.0@, p.1@) == named_pair(value@).unwrap(),
{
    match value {
        Value::VString(s) => split_pair(s.as_str(), '='),
        _ => None,
    }
}

/// What an event asks of the user interface.
pub fn command(m: &Message) -> (r: Option<UiCommand>)
    ensures
        r is Some <==> command_of(m@) is Some,
        r matches Some(c) ==> c@ == command_of(m@).unwrap(),
{
    match m.id {
        MessageID::Param => Some(UiCommand::ParamChange { index: m.index, value: m.value.clone() }),
        MessageID::Control => Some(
            UiCommand::ControlChange { index: m.index, data: m.value.to_i32() },
        ),
        MessageID::ChangeModule => match &m.value {
            Value::VString(s) => match split_three_words(s.as_str()) {
                Some(w) => Some(UiCommand::ModuleChange { url: w.0, width: w.1, height: w.2 }),
                None => Some(UiCommand::Malformed(m.clone())),
            },
            _ => Some(UiCommand::Malformed(m.clone())),
        },
        MessageID::AddInputDevice => match split_named_pair(&m.value) {
            Some(p) => Some(UiCommand::AddInputDevice { name: p.0, index: p.1 }),
            None => Some(UiCommand::Malformed(m.clone())),
        },
        MessageID::AddOutputDevice => match split_named_pair(&m.value) {
            Some(p) => Some(UiCommand::AddOutputDevice { name: p.0, index: p.1 }),
            None => Some(UiCommand::Malformed(m.clone())),
        },
        MessageID::AddModule => match split_named_pair(&m.value) {
            Some(p) => Some(UiCommand::AddModule { name: p.0, json_url: p.1 }),
            None => Some(UiCommand::Malformed(m.clone())),
        },
        _ => None,
    }
}

/// The first position at or after `from` that holds a module change; the
/// length of `ms` where there is none.
pub open spec fn next_change(ms: Seq<MessageView>, from: int) -> int
    decreases ms.len() - from,
{
    if from < 0 || from >= ms.len() {
        ms.len() as int
    } else if ms[from].id == MessageID::ChangeModule {
        from
    } else {
        next_change(ms, from + 1)
    }
}

/// How many of the pending events one flush delivers: all of them up to and
/// with the first module change, which makes the interface load anew.
pub open spec fn session_len(ms: Seq<MessageView>) -> int {
    let k = next_change(ms, 0);
    if k < ms.len() {
        k + 1
    } else {
        ms.len() as int
    }
}

/// The commands that a run of events asks for, in the order of the events.
pub open spec fn commands_of(ms: Seq<MessageView>) -> Seq<UiCommandView>
    decreases ms.len(),
{
    if ms.len() == 0 {
        Seq::<UiCommandView>::empty()
    } else {
        match command_of(ms.last()) {
            Some(c) => commands_of(ms.drop_last()).push(c),
            None => commands_of(ms.drop_last()),
        }
    }
}

/// The queue of the user interface as a mathematical value.
pub struct UiQueueModel {
    /// Whether the interface has loaded since the last module change.
    pub loaded: bool,
    /// The events that wait for delivery, oldest first.
    pub pending: Seq<MessageView>,
}

impl UiQueueModel {
    /// The queue at the start: nothing waits and the interface has not
    /// loaded.
    pub open spec fn empty() -> UiQueueModel {
        UiQueueModel { loaded: false, pending: Seq::<MessageView>::empty() }
    }

    /// The queue after an event has come in. `Loaded` opens the delivery;
    /// every other event waits at the end of the queue.
    pub open spec fn receive(self, m: MessageView) -> UiQueueModel {
        if m.id == MessageID::Loaded {
            UiQueueModel { loaded: true, ..self }
        } else {
            UiQueueModel { pending: self.pending.push(m), ..self }
        }
    }

    /// The queue after a run of events has come in.
    pub open spec fn receive_all(self, ms: Seq<MessageView>) -> UiQueueModel
        decreases ms.len(),
    {
        if ms.len() == 0 {
            self
        } else {
            self.receive_all(ms.drop_last()).receive(ms.last())
        }
    }

    /// A flush: the queue afterwards, and the commands to deliver now.
    /// Nothing is delivered and nothing is lost while the interface has not
    /// loaded. Once it has, the pending events are delivered in order up to
    /// and with the first module change; that change makes the interface
    /// load anew, so what follows it waits for the next `Loaded`.
    pub open spec fn flush(self) -> (UiQueueModel, Seq<UiCommandView>) {
        if !self.loaded {
            (self, Seq::<UiCommandView>::empty())
        } else {
            let n = session_len(self.pending);
            (
                UiQueueModel {
                    loaded: next_change(self.pending, 0) >= self.pending.len(),
                    pending: self.pending.skip(n),
                },
                commands_of(self.pending.take(n)),
            )
        }
    }
}

/// The views of a vector of events.
pub open spec fn pending_view(ms: Seq<Message>) -> Seq<MessageView> {
    ms.map_values(|m: Message| m@)
}

/// The views of a vector of commands.
pub open spec fn commands_view(cs: Seq<UiCommand>) -> Seq<UiCommandView> {
    cs.map_values(|c: UiCommand| c@)
}

/// The queue that holds the events for the user interface. Events wait in
/// it until the interface has said that it has loaded.
pub struct UiQueue {
    loaded: bool,
    pending: Vec<Message>,
}

impl View for UiQueue {
    type V = UiQueueModel;

    closed spec fn view(&self) -> UiQueueModel {
        UiQueueModel { loaded: self.loaded, pending: pending_view(self.pending@) }
    }
}

impl UiQueue {
    /// A queue in which nothing waits, for an interface that has not loaded.
    pub fn new() -> (q: Self)
        ensures
            q@ == UiQueueModel::empty(),
    {
        let q = UiQueue { loaded: false, pending: Vec::new() };
        assert(pending_view(q.pending@) =~= Seq::<MessageView>::empty());
        q
    }

    /// Whether the interface has loaded since the last module change.
    pub fn is_loaded(&self) -> (b: bool)
        ensures
            b == self@.loaded,
    {
        self.loaded
    }

    /// The number of events that wait.
    pub fn pending_len(&self) -> (n: usize)
        ensures
            n == self@.pending.len(),
    {
        self.pending.len()
    }

    /// Takes in an event for the user interface.
    pub fn receive(&mut self, m: Message)
        ensures
            final(self)@ == old(self)@.receive(m@),
    {
        match m.id {
            MessageID::Loaded => {
                self.loaded = true;
            },
            _ => {
                let ghost before = self.pending@;
                self.pending.push(m);
                assert(pending_view(self.pending@) =~= pending_view(before).push(m@));
            },
        }
    }

    /// Gives out the commands that are due and removes their events from
    /// the queue.
    pub fn flush(&mut self) -> (commands: Vec<UiCommand>)
        ensures
            (final(self)@, commands_view(commands@)) == old(self)@.flush(),
    {
        let mut commands: Vec<UiCommand> = Vec::new();
        assert(commands_view(commands@) =~= Seq::<UiCommandView>::empty());
        if !self.loaded {
            return commands;
        }
        let ghost all = pending_view(self.pending@);
        let n = self.pending.len();
        let mut i: usize = 0;
        let mut changed = false;
        assert(all.take(0) =~= Seq::<MessageView>::empty());
        while i < n && !changed
            invariant
                i <= n,
                n == self.pending.len(),
                all == pending_view(self.pending@),
                self.pending == old(self).pending,
                commands_view(commands@) == commands_of(all.take(i as int)),
                !changed ==> next_change(all, 0) == next_change(all, i as int),
                changed ==> i >= 1 && next_change(all, 0) == i - 1,
            decreases n - i + (if changed { 0int } else { 1int }),
        {
            let ghost before = commands@;
            proof {
                let next = all.take(i + 1);
                assert(next.drop_last() =~= all.take(i as int));
                assert(next.last() == self.pending@[i as int]@);
            }
            let m = &self.pending[i];
            match command(m) {
                Some(c) => {
                    commands.push(c);
                    assert(commands_view(commands@) =~= commands_view(before).push(c@));
                },
                None => {},
            }
            match m.id {
                MessageID::ChangeModule => {
                    changed = true;
                },
                _ => {},
            }
            i = i + 1;
        }
        proof {
            if !changed {
                assert(i == n);
                assert(next_change(all, n as int) == n);
            }
            assert(session_len(all) == i);
        }
        let mut rest = self.pending.split_off(i);
        std::mem::swap(&mut self.pending, &mut rest);
        self.loaded = !changed;
        assert(pending_view(self.pending@) =~= all.skip(i as int));
        commands
    }
}

/// Events that are no `Loaded` all wait in the queue, in the order in which
/// they came, and do not open the delivery.
pub proof fn lemma_receive_all_waits(q: UiQueueModel, ms: Seq<MessageView>)
    requires
        forall|i: int| 0 <= i < ms.len() ==> (#[trigger] ms[i]).id != MessageID::Loaded,
    ensures
        q.receive_all(ms) == (UiQueueModel { loaded: q.loaded, pending: q.pending + ms }),
    decreases ms.len(),
{
    if ms.len() == 0 {
        assert(q.pending + ms =~= q.pending);
    } else {
        lemma_receive_all_waits(q, ms.drop_last());
        assert((q.pending + ms.drop_last()).push(ms.last()) =~= q.pending + ms);
    }
}

/// A run of parameter events holds no module change.
proof fn lemma_params_hold_no_change(ms: Seq<MessageView>, from: int)
    requires
        0 <= from <= ms.len(),
        forall|i: int| 0 <= i < ms.len() ==> (#[trigger] ms[i]).id == MessageID::Param,
    ensures
        next_change(ms, from) == ms.len(),
    decreases ms.len() - from,
{
    if from < ms.len() {
        lemma_params_hold_no_change(ms, from + 1);
    }
}

/// The command for each parameter event, in the order of the events.
pub open spec fn param_commands(ms: Seq<MessageView>) -> Seq<UiCommandView> {
    Seq::new(
        ms.len(),
        |i: int| UiCommandView::ParamChange { index: ms[i].index, value: ms[i].value },
    )
}

/// A run of parameter events asks for one command each, in order.
proof fn lemma_commands_of_params(ms: Seq<MessageView>)
    requires
        forall|i: int| 0 <= i < ms.len() ==> (#[trigger] ms[i]).id == MessageID::Param,
    ensures
        commands_of(ms) == param_commands(ms),
    decreases ms.len(),
{
    if ms.len() == 0 {
        assert(commands_of(ms) =~= param_commands(ms));
    } else {
        let front = ms.drop_last();
        assert forall|i: int| 0 <= i < front.len() implies (#[trigger] front[i]).id
            == MessageID::Param by {
            assert(front[i] == ms[i]);
        }
        lemma_commands_of_params(front);
        assert(ms.last().id == MessageID::Param);
        assert(commands_of(ms) =~= param_commands(ms));
    }
}

/// Parameter events that come in before the interface has loaded are held
/// back: a flush delivers none of them and loses none. Once `Loaded` has
/// come in, one flush delivers exactly one command for each of them, in the
/// order in which they came; none is left in the queue, and a further flush
/// delivers nothing, so none is delivered twice.
pub proof fn law_deferred_delivery(params: Seq<MessageView>)
    requires
        forall|i: int| 0 <= i < params.len() ==> (#[trigger] params[i]).id == MessageID::Param,
    ensures
        ({
            let waiting = UiQueueModel::empty().receive_all(params);
            let (held, early) = waiting.flush();
            let (after, delivered) = held.receive(loaded_event()).flush();
            &&& early.len() == 0
            &&& held == waiting
            &&& delivered == param_commands(params)
            &&& delivered.len() == params.len()
            &&& after.pending.len() == 0
            &&& after.flush().1.len() == 0
        }),
{
    let q0 = UiQueueModel::empty();
    assert forall|i: int| 0 <= i < params.len() implies (#[trigger] params[i]).id
        != MessageID::Loaded by {}
    lemma_receive_all_waits(q0, params);
    assert(q0.pending + params =~= params);
    let waiting = q0.receive_all(params);
    assert(waiting.pending == params);
    lemma_params_hold_no_change(params, 0);
    assert(params.take(params.len() as int) =~= params);
    lemma_commands_of_params(params);
    let ready = waiting.receive(loaded_event());
    let after = ready.flush().0;
    assert(after.pending =~= Seq::<MessageView>::empty());
    assert(after.pending.take(0) =~= Seq::<MessageView>::empty());
}

} // verus!
