//! Errors of the library.
use vstd::prelude::*;

verus! {

/// Failure of the multiplexer.
#[derive(Debug)]
pub enum MuxError {
    /// The connection is closed.
    MuxClosed,
    /// No stream pair is free.
    CapacityExhausted { in_use: usize, limit: u32 },
    /// Anything else, in words.
    Transport(String),
}

/// Failure of a port-forward operation.
#[derive(Debug)]
pub enum Error {
    /// The caller's input or the environment does not allow the operation.
    Configuration(String),
    /// The network failed.
    Network(String),
    /// The Kubernetes client failed, in words.
    Kube(String),
    /// The server refused the protocol upgrade.
    UpgradeFailed { status: Option<u16>, message: String },
    /// The server broke the protocol.
    ProtocolViolation { context: &'static str, detail: String },
    /// No session or stream is free.
    CapacityExhausted { in_use: usize, capacity: usize },
    /// The operation was cancelled.
    Cancelled,
    /// The multiplexer failed.
    Mux(MuxError),
}

impl Error {
    /// Whether this is a configuration error with the text `text`.
    pub open spec fn is_configuration(self, text: Seq<char>) -> bool {
        self matches Error::Configuration(s) && s@ == text
    }

    /// Whether this is a network error with the text `text`.
    pub open spec fn is_network(self, text: Seq<char>) -> bool {
        self matches Error::Network(s) && s@ == text
    }

    /// A failure of the multiplexer as a failure of the operation. Exhausted
    /// capacity keeps its meaning, since callers go on to another session on
    /// it.
    pub open spec fn of_mux(e: MuxError) -> Error {
        match e {
            MuxError::CapacityExhausted { in_use, limit } => Error::CapacityExhausted {
                in_use,
                capacity: limit as usize,
            },
            _ => Error::Mux(e),
        }
    }

    /// Takes over a failure of the multiplexer.
    pub fn from_mux(e: MuxError) -> (r: Error)
        ensures
            r == Error::of_mux(e),
    {
        match e {
            MuxError::CapacityExhausted { in_use, limit } => Error::CapacityExhausted {
                in_use,
                capacity: limit as usize,
            },
            other => Error::Mux(other),
        }
    }
}

/// A connect can tell a full session from any other failure: exhausted
/// capacity, and nothing else, stays exhausted capacity, with its numbers;
/// every other failure is carried along as it is.
pub proof fn law_only_full_sessions_look_full(e: MuxError)
    ensures
        Error::of_mux(e) is CapacityExhausted <==> e is CapacityExhausted,
        e matches MuxError::CapacityExhausted { in_use, limit } ==> Error::of_mux(e)->in_use
            == in_use && Error::of_mux(e)->capacity == limit,
        !(e is CapacityExhausted) ==> Error::of_mux(e) == Error::Mux(e),
{
}

/// An error that is told by its kind and text is of that kind and bears that
/// text, so the two kinds exclude each other and the text is unique.
pub proof fn law_errors_tell_kind_and_text(e: Error, text: Seq<char>, other: Seq<char>)
    ensures
        e.is_configuration(text) ==> (e matches Error::Configuration(s) && s@ == text),
        e.is_network(text) ==> (e matches Error::Network(s) && s@ == text),
        e.is_configuration(text) && e.is_configuration(other) ==> text == other,
        e.is_network(text) && e.is_network(other) ==> text == other,
        !(e.is_configuration(text) && e.is_network(other)),
        e matches Error::Configuration(s) ==> e.is_configuration(s@),
        e matches Error::Network(s) ==> e.is_network(s@),
{
}

} // verus!
