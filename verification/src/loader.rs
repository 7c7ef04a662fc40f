//! The module loader: the steps from a locator to a descriptor and a unit.
//!
//! Loading fetches the descriptor document, parses it, fetches the binary
//! payload and constructs the unit from it. Fetching, parsing and
//! constructing are done by whoever drives the loader; the loader says what
//! to do next and how the load ends. It keeps nothing between loads.

use crate::bundle::Bundle;
use crate::text::join2;
use crate::utils::get_string;
use vstd::prelude::*;
use vstd::string::*;
use vstd::utf8::{decode_utf8, valid_utf8};

verus! {

/// Why a module could not be loaded.
#[derive(Clone, Copy, Debug, PartialEq, Eq, Structural)]
pub enum LoadError {
    /// The descriptor document could not be fetched, or is no text.
    DocumentFetch,
    /// The descriptor document is malformed, or declares a channel count
    /// other than 0, 1 or 2.
    Parse,
    /// The binary payload could not be fetched.
    PayloadFetch,
    /// No unit could be constructed from the payload.
    Instantiation,
}

/// What the loader asks for next.
#[derive(Debug, PartialEq)]
pub enum Request {
    /// Fetch the bytes at this address.
    Fetch(String),
    /// Parse this text as a descriptor document.
    Parse(String),
    /// Construct a unit from this payload.
    Instantiate(Vec<u8>),
}

/// The answer to a request.
#[derive(Debug, PartialEq)]
pub enum LoadEvent {
    /// The bytes that were fetched; `None` where the fetch failed.
    Fetched(Option<Vec<u8>>),
    /// The descriptor that was parsed; `None` where the text is malformed.
    Parsed(Option<Bundle>),
    /// Whether a unit was constructed.
    Instantiated(bool),
}

/// A load in progress: the request that is out, and what is known so far.
#[derive(Debug, PartialEq)]
pub enum Loader {
    /// The descriptor document is being fetched.
    Document { base: String },
    /// The descriptor document is being parsed.
    Parse { base: String },
    /// The payload of the module with this descriptor is being fetched.
    Payload { bundle: Bundle },
    /// The unit of the module with this descriptor is being constructed.
    Unit { bundle: Bundle },
}

/// How a step of a load ends.
#[derive(Debug, PartialEq)]
pub enum LoadStep {
    /// The load goes on with this request.
    Continue(Loader, Request),
    /// The unit is constructed; this is its descriptor.
    Finished(Bundle),
    /// The load has failed. The module that was live before stays live.
    Failed(LoadError),
}

/// The address of a descriptor document: the locator under the base
/// address.
pub open spec fn document_address(base: Seq<char>, locator: Seq<char>) -> Seq<char> {
    base + seq!['/'] + locator
}

/// The address of a payload: the payload's locator directly behind the base
/// address.
pub open spec fn payload_address(base: Seq<char>, wasm_url: Seq<char>) -> Seq<char> {
    base + wasm_url
}

/// What a step of a load must return for a state and the event that came.
/// An event that does not answer the request that is out fails the load
/// with the error of that request.
pub open spec fn step_of(loader: Loader, event: LoadEvent, r: LoadStep) -> bool {
    match loader {
        Loader::Document { base } => match event {
            LoadEvent::Fetched(Some(bytes)) if valid_utf8(bytes@) => {
                &&& r matches LoadStep::Continue(Loader::Parse { base: kept }, Request::Parse(text))
                &&& kept@ == base@
                &&& text@ == decode_utf8(bytes@)
            },
            _ => r matches LoadStep::Failed(LoadError::DocumentFetch),
        },
        Loader::Parse { base } => match event {
            LoadEvent::Parsed(Some(bundle)) if bundle.info.spec_channels_in_range() => {
                &&& r matches LoadStep::Continue(
                    Loader::Payload { bundle: kept },
                    Request::Fetch(address),
                )
                &&& kept == bundle
                &&& address@ == payload_address(base@, bundle.wasm_url@)
            },
            _ => r matches LoadStep::Failed(LoadError::Parse),
        },
        Loader::Payload { bundle } => match event {
            LoadEvent::Fetched(Some(bytes)) => {
                &&& r matches LoadStep::Continue(
                    Loader::Unit { bundle: kept },
                    Request::Instantiate(payload),
                )
                &&& kept == bundle
                &&& payload@ == bytes@
            },
            _ => r matches LoadStep::Failed(LoadError::PayloadFetch),
        },
        Loader::Unit { bundle } => match event {
            LoadEvent::Instantiated(true) => r matches LoadStep::Finished(done) && done == bundle,
            _ => r matches LoadStep::Failed(LoadError::Instantiation),
        },
    }
}

impl Loader {
    /// Begins the load of the module at `locator` under the base address
    /// `base`: the first request fetches the descriptor document.
    pub fn begin(base: &str, locator: &str) -> (r: (Loader, Request))
        ensures
            r.0 matches Loader::Document { base: kept } && kept@ == base@,
            r.1 matches Request::Fetch(address) && address@ == document_address(base@, locator@),
    {
        proof {
            reveal_strlit("/");
            assert("/"@ =~= seq!['/']);
        }
        let address = join2(base, "/", locator);
        (Loader::Document { base: String::from_str(base) }, Request::Fetch(address))
    }

    /// Takes the answer to the request that is out and says how the load
    /// goes on.
    pub fn step(self, event: LoadEvent) -> (r: LoadStep)
        ensures
            step_of(self, event, r),
    {
        match self {
            Loader::Document { base } => match event {
                LoadEvent::Fetched(Some(bytes)) => match get_string(bytes) {
                    Ok(text) => LoadStep::Continue(Loader::Parse { base }, Request::Parse(text)),
                    Err(_) => LoadStep::Failed(LoadError::DocumentFetch),
                },
                _ => LoadStep::Failed(LoadError::DocumentFetch),
            },
            Loader::Parse { base } => match event {
                LoadEvent::Parsed(Some(bundle)) => {
                    if bundle.info.channels_in_range() {
                        let mut address = base;
                        address.append(bundle.wasm_url.as_str());
                        LoadStep::Continue(Loader::Payload { bundle }, Request::Fetch(address))
                    } else {
                        LoadStep::Failed(LoadError::Parse)
                    }
                },
                _ => LoadStep::Failed(LoadError::Parse),
            },
            Loader::Payload { bundle } => match event {
                LoadEvent::Fetched(Some(bytes)) => LoadStep::Continue(
                    Loader::Unit { bundle },
                    Request::Instantiate(bytes),
                ),
                _ => LoadStep::Failed(LoadError::PayloadFetch),
            },
            Loader::Unit { bundle } => match event {
                LoadEvent::Instantiated(true) => LoadStep::Finished(bundle),
                _ => LoadStep::Failed(LoadError::Instantiation),
            },
        }
    }
}

} // verus!
