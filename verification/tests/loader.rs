use aa_standalone::bundle::{Bundle, GUIBundle, Info};
use aa_standalone::loader::{LoadError, LoadEvent, LoadStep, Loader, Request};
use aa_standalone::messages::Value;
use aa_standalone::utils::{err, get_string, ok};

fn bundle(inputs: i32, outputs: i32) -> Bundle {
    Bundle {
        wasm_url: "/mods/gain.wasm".to_string(),
        gui: GUIBundle {
            url: "/mods/gain.html".to_string(),
            name: "gain".to_string(),
            params: vec![Value::VInt(1)],
            width: 10,
            height: 20,
        },
        info: Info {
            name: "gain".to_string(),
            vendor: "v".to_string(),
            presets: 0,
            parameters: 1,
            inputs,
            outputs,
            midi_inputs: 0,
            midi_outputs: 0,
            id: 7,
            version: 2,
            category: "fx".to_string(),
            initial_delay: 0,
            preset_chunks: false,
            f64_precision: false,
            silent_when_stopped: false,
        },
    }
}

#[test]
fn result_helpers() {
    assert_eq!(ok(5), Ok(5));
    assert_eq!(err::<i32>(), Err(()));
}

#[test]
fn text_from_fetched_bytes() {
    assert_eq!(get_string(b"hello".to_vec()), Ok("hello".to_string()));
    assert_eq!(get_string("käse €".as_bytes().to_vec()), Ok("käse €".to_string()));
    assert_eq!(get_string(vec![]), Ok(String::new()));
    assert_eq!(get_string(vec![0xFF, 0xFE]), Err(()));
    assert_eq!(get_string(vec![b'a', 0xC3]), Err(()));
}

#[test]
fn a_load_runs_through_its_four_requests() {
    let (loader, request) = Loader::begin("http://host:8000", "mods/gain.json");
    assert_eq!(request, Request::Fetch("http://host:8000/mods/gain.json".to_string()));
    assert_eq!(loader, Loader::Document { base: "http://host:8000".to_string() });

    let step = loader.step(LoadEvent::Fetched(Some(b"{ \"doc\": 1 }".to_vec())));
    let loader = match step {
        LoadStep::Continue(l, Request::Parse(text)) => {
            assert_eq!(text, "{ \"doc\": 1 }");
            l
        }
        other => panic!("unexpected {:?}", other),
    };

    let b = bundle(1, 2);
    let step = loader.step(LoadEvent::Parsed(Some(b.clone())));
    let loader = match step {
        LoadStep::Continue(l, Request::Fetch(address)) => {
            assert_eq!(address, "http://host:8000/mods/gain.wasm");
            l
        }
        other => panic!("unexpected {:?}", other),
    };

    let step = loader.step(LoadEvent::Fetched(Some(vec![0, 97, 115, 109])));
    let loader = match step {
        LoadStep::Continue(l, Request::Instantiate(payload)) => {
            assert_eq!(payload, vec![0, 97, 115, 109]);
            l
        }
        other => panic!("unexpected {:?}", other),
    };

    assert_eq!(loader.step(LoadEvent::Instantiated(true)), LoadStep::Finished(b));
}

#[test]
fn document_fetch_failures() {
    let begin = || Loader::begin("b", "l").0;
    assert_eq!(begin().step(LoadEvent::Fetched(None)), LoadStep::Failed(LoadError::DocumentFetch));
    assert_eq!(begin().step(LoadEvent::Fetched(Some(vec![0xFF]))), LoadStep::Failed(LoadError::DocumentFetch));
    assert_eq!(begin().step(LoadEvent::Instantiated(true)), LoadStep::Failed(LoadError::DocumentFetch));
}

#[test]
fn parse_failures() {
    let parsing = || Loader::Parse { base: "b".to_string() };
    assert_eq!(parsing().step(LoadEvent::Parsed(None)), LoadStep::Failed(LoadError::Parse));
    assert_eq!(parsing().step(LoadEvent::Parsed(Some(bundle(3, 1)))), LoadStep::Failed(LoadError::Parse));
    assert_eq!(parsing().step(LoadEvent::Parsed(Some(bundle(1, -1)))), LoadStep::Failed(LoadError::Parse));
    assert_eq!(parsing().step(LoadEvent::Fetched(Some(vec![]))), LoadStep::Failed(LoadError::Parse));
    assert!(matches!(parsing().step(LoadEvent::Parsed(Some(bundle(0, 0)))), LoadStep::Continue(_, _)));
}

#[test]
fn payload_and_instantiation_failures() {
    let b = bundle(1, 1);
    assert_eq!(
        Loader::Payload { bundle: b.clone() }.step(LoadEvent::Fetched(None)),
        LoadStep::Failed(LoadError::PayloadFetch)
    );
    assert_eq!(
        Loader::Payload { bundle: b.clone() }.step(LoadEvent::Parsed(None)),
        LoadStep::Failed(LoadError::PayloadFetch)
    );
    assert_eq!(
        Loader::Unit { bundle: b.clone() }.step(LoadEvent::Instantiated(false)),
        LoadStep::Failed(LoadError::Instantiation)
    );
    assert_eq!(
        Loader::Unit { bundle: b.clone() }.step(LoadEvent::Fetched(Some(vec![]))),
        LoadStep::Failed(LoadError::Instantiation)
    );
}

#[test]
fn repeated_loads_are_independent() {
    let (a, ra) = Loader::begin("h", "m.json");
    let (b, rb) = Loader::begin("h", "m.json");
    assert_eq!(ra, rb);
    assert_eq!(a.step(LoadEvent::Fetched(None)), LoadStep::Failed(LoadError::DocumentFetch));
    assert!(matches!(b.step(LoadEvent::Fetched(Some(b"x".to_vec()))), LoadStep::Continue(_, _)));
}
