use aa_standalone::bundle::{Bundle, GUIBundle, Info, Module};
use aa_standalone::comms::{LocalReceive, LocalSend, Message, MessageID};
use aa_standalone::messages::Value;
use aa_standalone::standalone::{
    AudioDevice, ConfigurationError, EngineState, EventAction, Handoff, OuterAction, Polled,
    Standalone, StartError, StreamConfig, Topology, UnitAction, BUFFER_FRAMES, SAMPLE_RATE,
};

fn bundle(inputs: i32, outputs: i32, params: Vec<Value>) -> Bundle {
    Bundle {
        wasm_url: "/m/unit.wasm".to_string(),
        gui: GUIBundle {
            url: "/m/gui.html".to_string(),
            name: "m".to_string(),
            params,
            width: 640,
            height: 480,
        },
        info: Info {
            name: "m".to_string(),
            vendor: "v".to_string(),
            presets: 0,
            parameters: 2,
            inputs,
            outputs,
            midi_inputs: 1,
            midi_outputs: 0,
            id: 1,
            version: 1,
            category: "c".to_string(),
            initial_delay: 0,
            preset_chunks: false,
            f64_precision: false,
            silent_when_stopped: true,
        },
    }
}

fn event(id: MessageID, index: u32, value: Value) -> Message {
    Message { id, index, value }
}

#[test]
fn topology_follows_the_channel_counts() {
    let table = [
        (0, 1, Topology::ZeroOne),
        (0, 2, Topology::ZeroTwo),
        (1, 1, Topology::OneOne),
        (1, 2, Topology::OneTwo),
        (2, 1, Topology::TwoOne),
        (2, 2, Topology::TwoTwo),
    ];
    for (i, o, t) in table {
        let got = Topology::select(i, o).unwrap();
        assert_eq!(got, t);
        assert_eq!(got.inputs() as i32, i);
        assert_eq!(got.outputs() as i32, o);
    }
}

#[test]
fn topology_needs_an_output() {
    for i in [-1, 0, 1, 2, 3] {
        assert_eq!(Topology::select(i, 0), Err(ConfigurationError::NoOutputChannels));
        assert_eq!(Topology::select(i, -5), Err(ConfigurationError::NoOutputChannels));
    }
}

#[test]
fn topology_holds_counts_to_the_range() {
    assert_eq!(Topology::select(-3, 1), Ok(Topology::ZeroOne));
    assert_eq!(Topology::select(7, 1), Ok(Topology::TwoOne));
    assert_eq!(Topology::select(1, 9), Ok(Topology::OneTwo));
    assert_eq!(Topology::select(i32::MAX, i32::MAX), Ok(Topology::TwoTwo));
}

#[test]
fn descriptor_channel_checks() {
    assert!(bundle(0, 1, vec![]).info.channels_in_range());
    assert!(bundle(2, 2, vec![]).info.channels_in_range());
    assert!(bundle(0, 0, vec![]).info.channels_in_range());
    assert!(!bundle(3, 1, vec![]).info.channels_in_range());
    assert!(!bundle(1, -1, vec![]).info.channels_in_range());
    assert!(bundle(0, 1, vec![]).info.usable());
    assert!(!bundle(2, 0, vec![]).info.usable());
    assert!(!bundle(0, 0, vec![]).info.usable());
}

#[test]
fn start_opens_a_stream_for_the_descriptor() {
    let mut e = Standalone::new(1, 2, 3, 4);
    assert_eq!(e.state(), EngineState::Idle);
    assert_eq!(e.compute_path(), None);
    let config = e.start_stream().unwrap();
    assert_eq!(
        config,
        StreamConfig {
            input_device: Some(3),
            output_device: 4,
            sample_rate: 44_100,
            buffer_frames: 64,
            input_channels: 1,
            output_channels: 2,
            topology: Topology::OneTwo,
        }
    );
    assert_eq!(SAMPLE_RATE, 44_100);
    assert_eq!(BUFFER_FRAMES, 64);
    assert_eq!(e.state(), EngineState::Streaming(Topology::OneTwo));
    assert_eq!(e.compute_path(), Some(Topology::OneTwo));
}

#[test]
fn start_without_inputs_opens_no_input_stream() {
    let mut e = Standalone::new(0, 1, 3, 4);
    let config = e.start_stream().unwrap();
    assert_eq!(config.input_device, None);
    assert_eq!(config.input_channels, 0);
    assert_eq!(config.topology, Topology::ZeroOne);
}

#[test]
fn start_without_outputs_is_a_configuration_error() {
    let mut e = Standalone::new(2, 0, 0, 0);
    assert_eq!(
        e.start_stream(),
        Err(StartError::Configuration(ConfigurationError::NoOutputChannels))
    );
    assert_eq!(e.state(), EngineState::Idle);
    assert_eq!(e.compute_path(), None);
}

#[test]
fn start_twice_is_refused() {
    let mut e = Standalone::new(0, 2, 0, 0);
    e.start_stream().unwrap();
    assert_eq!(e.start_stream(), Err(StartError::NotIdle));
    assert_eq!(e.state(), EngineState::Streaming(Topology::ZeroTwo));
}

#[test]
fn parameter_events_are_applied_in_the_callback() {
    let mut e = Standalone::new(0, 2, 0, 0);
    e.start_stream().unwrap();
    assert_eq!(
        e.on_event(event(MessageID::Param, 3, Value::VInt(-7))),
        EventAction::SetParam(UnitAction::SetParamInt { index: 3, value: -7 })
    );
    let bits = 0.5f32.to_bits();
    assert_eq!(
        e.on_event(event(MessageID::Param, 4, Value::VFloat(bits))),
        EventAction::SetParam(UnitAction::SetParamFloat { index: 4, bits })
    );
    assert_eq!(e.on_event(event(MessageID::Param, 5, Value::VString("x".to_string()))), EventAction::Ignore);
    assert_eq!(e.on_event(event(MessageID::Param, 5, Value::VPair((1, 2)))), EventAction::Ignore);
    assert_eq!(e.state(), EngineState::Streaming(Topology::ZeroTwo));
    assert_eq!(e.compute_path(), Some(Topology::ZeroTwo));
}

#[test]
fn other_events_are_ignored_in_the_callback() {
    let mut e = Standalone::new(0, 2, 0, 0);
    e.start_stream().unwrap();
    for id in [MessageID::Control, MessageID::Loaded, MessageID::AddModule, MessageID::NoteOn, MessageID::NoteOff] {
        assert_eq!(e.on_event(event(id, 1, Value::VInt(1))), EventAction::Ignore);
        assert_eq!(e.compute_path(), Some(Topology::ZeroTwo));
    }
}

#[test]
fn stopping_events_are_handed_to_the_outer_loop() {
    for id in [MessageID::ChangeModule, MessageID::AddInputDevice, MessageID::AddOutputDevice, MessageID::Exit] {
        let mut e = Standalone::new(2, 1, 0, 0);
        e.start_stream().unwrap();
        let m = event(id, 0, Value::VInt(1));
        assert_eq!(e.on_event(m.clone()), EventAction::Handoff(m));
        assert_eq!(e.state(), EngineState::SwapPending(Topology::TwoOne));
        assert_eq!(e.compute_path(), None);
        assert_eq!(e.on_event(event(MessageID::Param, 0, Value::VInt(1))), EventAction::Ignore);
        assert_eq!(e.compute_path(), None);
    }
}

#[test]
fn idle_engine_ignores_events() {
    let mut e = Standalone::new(2, 1, 0, 0);
    assert_eq!(e.on_event(event(MessageID::Param, 0, Value::VInt(1))), EventAction::Ignore);
    assert_eq!(e.on_event(event(MessageID::Exit, 0, Value::VInt(0))), EventAction::Ignore);
    assert_eq!(e.state(), EngineState::Idle);
}

#[test]
fn poll_takes_events_only_while_streaming() {
    let (tx, rx) = crossbeam_channel::unbounded();
    let bus = LocalReceive::new(rx);
    let sender = LocalSend::new(tx);
    let mut e = Standalone::new(0, 1, 0, 0);
    sender.send_message(event(MessageID::Param, 1, Value::VInt(5))).unwrap();
    assert_eq!(e.poll_event(&bus), Polled::Empty);
    e.start_stream().unwrap();
    assert_eq!(
        e.poll_event(&bus),
        Polled::Event(EventAction::SetParam(UnitAction::SetParamInt { index: 1, value: 5 }))
    );
    assert_eq!(e.poll_event(&bus), Polled::Empty);
    let exit = event(MessageID::Exit, 0, Value::VInt(0));
    sender.send_message(exit.clone()).unwrap();
    sender.send_message(event(MessageID::Param, 2, Value::VInt(6))).unwrap();
    assert_eq!(e.poll_event(&bus), Polled::Event(EventAction::Handoff(exit)));
    assert_eq!(e.poll_event(&bus), Polled::Empty);
    assert_eq!(bus.try_receive(), Some(event(MessageID::Param, 2, Value::VInt(6))));
}

#[test]
fn device_selection_stores_the_device_and_restarts() {
    let mut e = Standalone::new(1, 1, 10, 20);
    e.start_stream().unwrap();
    let m = event(MessageID::AddInputDevice, 0, Value::VInt(5));
    e.on_event(m.clone());
    assert_eq!(e.on_handoff(Handoff::Signal(m)), OuterAction::Restart);
    assert_eq!(e.state(), EngineState::Idle);
    assert_eq!(e.devices(), (5, 20));
    let config = e.start_stream().unwrap();
    assert_eq!(config.input_device, Some(5));
    assert_eq!(config.topology, Topology::OneOne);

    let m = event(MessageID::AddOutputDevice, 0, Value::VInt(8));
    e.on_event(m.clone());
    assert_eq!(e.on_handoff(Handoff::Signal(m)), OuterAction::Restart);
    assert_eq!(e.devices(), (5, 8));

    e.start_stream().unwrap();
    let m = event(MessageID::AddOutputDevice, 0, Value::VString("8".to_string()));
    e.on_event(m.clone());
    assert_eq!(e.on_handoff(Handoff::Signal(m)), OuterAction::Restart);
    assert_eq!(e.devices(), (5, 8));
}

#[test]
fn negative_device_index_wraps_as_a_cast_does() {
    let mut e = Standalone::new(1, 1, 10, 20);
    e.start_stream().unwrap();
    let m = event(MessageID::AddInputDevice, 0, Value::VInt(-1));
    e.on_event(m.clone());
    assert_eq!(e.on_handoff(Handoff::Signal(m)), OuterAction::Restart);
    assert_eq!(e.devices(), (u32::MAX, 20));
}

#[test]
fn stream_failure_restarts_and_closed_channel_ends() {
    let mut e = Standalone::new(1, 1, 0, 0);
    e.start_stream().unwrap();
    assert_eq!(e.on_handoff(Handoff::StreamFailed), OuterAction::Restart);
    assert_eq!(e.state(), EngineState::Idle);
    assert!(!e.is_terminated());
    e.start_stream().unwrap();
    assert_eq!(e.on_handoff(Handoff::Closed), OuterAction::Terminate);
    assert!(e.is_terminated());
    assert_eq!(e.start_stream(), Err(StartError::Terminated));
}

#[test]
fn module_change_swaps_between_sessions() {
    let mut e = Standalone::new(0, 1, 1, 2);
    e.start_stream().unwrap();
    assert_eq!(e.compute_path(), Some(Topology::ZeroOne));

    let change = event(MessageID::ChangeModule, 0, Value::VString("mods/next.json".to_string()));
    assert_eq!(e.on_event(change.clone()), EventAction::Handoff(change.clone()));
    assert_eq!(e.compute_path(), None);

    let next = bundle(2, 2, vec![Value::VFloat(1.5f32.to_bits()), Value::VInt(3)]);
    assert_eq!(e.install("http://h", &next), None);

    assert_eq!(e.on_handoff(Handoff::Signal(change)), OuterAction::Load("mods/next.json".to_string()));
    assert_eq!(e.state(), EngineState::Idle);
    assert_eq!(e.compute_path(), None);

    let done = e.install("http://h", &next).unwrap();
    assert_eq!(
        done.ui_messages,
        vec![
            event(MessageID::ChangeModule, 0, Value::VString("http://h/m/gui.html 640 480".to_string())),
            event(MessageID::Param, 0, Value::VFloat(1.5f32.to_bits())),
            event(MessageID::Param, 1, Value::VInt(3)),
        ]
    );
    assert_eq!(
        done.unit_actions,
        vec![
            UnitAction::SetParamFloat { index: 0, bits: 1.5f32.to_bits() },
            UnitAction::SetParamInt { index: 1, value: 3 },
        ]
    );
    assert_eq!(e.compute_path(), None);

    let config = e.start_stream().unwrap();
    assert_eq!(config.sample_rate, SAMPLE_RATE);
    assert_eq!(config.topology, Topology::TwoTwo);
    assert_eq!(config.input_device, Some(1));
    assert_eq!(e.compute_path(), Some(Topology::TwoTwo));
}

#[test]
fn module_change_without_a_locator_restarts() {
    let mut e = Standalone::new(0, 1, 1, 2);
    e.start_stream().unwrap();
    let change = event(MessageID::ChangeModule, 0, Value::VInt(4));
    e.on_event(change.clone());
    assert_eq!(e.on_handoff(Handoff::Signal(change)), OuterAction::Restart);
    assert_eq!(e.start_stream().unwrap().topology, Topology::ZeroOne);
}

#[test]
fn failed_load_keeps_the_previous_module() {
    let mut e = Standalone::new(1, 2, 1, 2);
    e.start_stream().unwrap();
    let change = event(MessageID::ChangeModule, 0, Value::VString("bad.json".to_string()));
    e.on_event(change.clone());
    assert_eq!(e.on_handoff(Handoff::Signal(change)), OuterAction::Load("bad.json".to_string()));
    assert_eq!(e.start_stream().unwrap().topology, Topology::OneTwo);
}

#[test]
fn install_skips_defaults_that_are_no_numbers() {
    let mut e = Standalone::new(0, 1, 0, 0);
    let b = bundle(0, 2, vec![Value::VString("s".to_string()), Value::VInt(1), Value::VPair((1, 2)), Value::VInt(2)]);
    let done = e.install("", &b).unwrap();
    assert_eq!(done.ui_messages.len(), 5);
    assert_eq!(done.ui_messages[0].id, MessageID::ChangeModule);
    for (i, m) in done.ui_messages[1..].iter().enumerate() {
        assert_eq!(m.id, MessageID::Param);
        assert_eq!(m.index, i as u32);
        assert_eq!(m.value, b.gui.params[i]);
    }
    assert_eq!(
        done.unit_actions,
        vec![UnitAction::SetParamInt { index: 1, value: 1 }, UnitAction::SetParamInt { index: 3, value: 2 }]
    );
    assert_eq!(Standalone::set_param(9, &Value::VVU8(vec![1])), None);
    assert_eq!(Standalone::set_params(&vec![]), vec![]);
}

#[test]
fn exit_ends_the_engine_for_good() {
    let mut e = Standalone::new(1, 1, 0, 0);
    e.start_stream().unwrap();
    let exit = event(MessageID::Exit, 0, Value::VInt(0));
    assert_eq!(e.on_event(exit.clone()), EventAction::Handoff(exit.clone()));
    assert_eq!(e.compute_path(), None);
    assert_eq!(e.on_handoff(Handoff::Signal(exit.clone())), OuterAction::Terminate);
    assert!(e.is_terminated());
    assert_eq!(e.state(), EngineState::Idle);

    assert_eq!(e.start_stream(), Err(StartError::Terminated));
    assert_eq!(e.install("", &bundle(1, 1, vec![])), None);
    assert_eq!(e.on_event(event(MessageID::Param, 0, Value::VInt(1))), EventAction::Ignore);
    assert_eq!(e.on_handoff(Handoff::StreamFailed), OuterAction::Terminate);
    assert_eq!(e.on_handoff(Handoff::Signal(exit)), OuterAction::Terminate);
    assert_eq!(e.compute_path(), None);
    assert!(e.is_terminated());
}

#[test]
fn startup_events_for_modules() {
    assert_eq!(
        Standalone::add_module_message("Gain", "mods/gain.json"),
        event(MessageID::AddModule, 0, Value::VString("Gain=mods/gain.json".to_string()))
    );
    let modules = vec![
        Module { name: "A".to_string(), json_url: "a.json".to_string() },
        Module { name: "B".to_string(), json_url: "b.json".to_string() },
    ];
    assert_eq!(
        Standalone::modules_messages(&modules),
        vec![
            event(MessageID::AddModule, 0, Value::VString("A=a.json".to_string())),
            event(MessageID::AddModule, 0, Value::VString("B=b.json".to_string())),
        ]
    );
    assert_eq!(Standalone::modules_messages(&vec![]), vec![]);
}

#[test]
fn startup_events_for_devices() {
    let devices = vec![
        AudioDevice { name: "Mic".to_string(), index: 0, max_input_channels: 2, max_output_channels: 0 },
        AudioDevice { name: "Speakers".to_string(), index: 1, max_input_channels: 0, max_output_channels: 2 },
        AudioDevice { name: "Duplex".to_string(), index: 12, max_input_channels: 1, max_output_channels: 1 },
        AudioDevice { name: "Dead".to_string(), index: 3, max_input_channels: 0, max_output_channels: 0 },
    ];
    assert_eq!(
        Standalone::audio_devices_messages(&devices),
        vec![
            event(MessageID::AddInputDevice, 0, Value::VString("Mic=0".to_string())),
            event(MessageID::AddOutputDevice, 0, Value::VString("Speakers=1".to_string())),
            event(MessageID::AddInputDevice, 0, Value::VString("Duplex=12".to_string())),
            event(MessageID::AddOutputDevice, 0, Value::VString("Duplex=12".to_string())),
        ]
    );
}

#[test]
fn startup_events_for_parameters() {
    let params = vec![Value::VFloat(7), Value::VString("s".to_string()), Value::VInt(-1)];
    let got = Standalone::params_messages(&params);
    assert_eq!(got.len(), 3);
    for (i, m) in got.iter().enumerate() {
        assert_eq!(*m, event(MessageID::Param, i as u32, params[i].clone()));
    }
}

#[test]
fn send_functions_put_the_events_on_the_bus() {
    let (tx, rx) = crossbeam_channel::unbounded();
    let comms = LocalSend::new(tx);
    Standalone::send_add_module(&comms, "A", "a.json").unwrap();
    Standalone::send_add_input_device(&comms, "Mic", 4).unwrap();
    Standalone::send_add_output_device(&comms, "Out", 5).unwrap();
    Standalone::send_modules(&comms, &vec![Module { name: "B".to_string(), json_url: "b".to_string() }]).unwrap();
    Standalone::send_audio_devices(
        &comms,
        &vec![AudioDevice { name: "D".to_string(), index: 2, max_input_channels: 1, max_output_channels: 0 }],
    )
    .unwrap();
    Standalone::send_params(&comms, &vec![Value::VInt(1), Value::VInt(2)]).unwrap();
    let got: Vec<Message> = rx.try_iter().collect();
    assert_eq!(
        got,
        vec![
            event(MessageID::AddModule, 0, Value::VString("A=a.json".to_string())),
            event(MessageID::AddInputDevice, 0, Value::VString("Mic=4".to_string())),
            event(MessageID::AddOutputDevice, 0, Value::VString("Out=5".to_string())),
            event(MessageID::AddModule, 0, Value::VString("B=b".to_string())),
            event(MessageID::AddInputDevice, 0, Value::VString("D=2".to_string())),
            event(MessageID::Param, 0, Value::VInt(1)),
            event(MessageID::Param, 1, Value::VInt(2)),
        ]
    );
}

#[test]
fn sending_nothing_cannot_fail() {
    let (tx, rx) = crossbeam_channel::unbounded::<Message>();
    drop(rx);
    let comms = LocalSend::new(tx);
    assert_eq!(Standalone::send_modules(&comms, &vec![]), Ok(()));
    assert_eq!(Standalone::send_params(&comms, &vec![]), Ok(()));
    assert_eq!(Standalone::send_audio_devices(&comms, &vec![]), Ok(()));
    let silent = vec![AudioDevice { name: "Dead".to_string(), index: 0, max_input_channels: 0, max_output_channels: 0 }];
    assert_eq!(Standalone::send_audio_devices(&comms, &silent), Ok(()));
    assert!(Standalone::send_params(&comms, &vec![Value::VInt(1)]).is_err());
    assert!(Standalone::send_modules(&comms, &vec![Module { name: "A".to_string(), json_url: "a".to_string() }]).is_err());
    assert!(Standalone::send_add_module(&comms, "A", "a").is_err());
}
