//! Errors of the speech pipeline.
use vstd::prelude::*;

verus! {

/// What can go wrong while turning text into audio or playing it.
#[derive(Debug)]
pub enum SynthesisError {
    /// The text was empty or held only whitespace.
    EmptyInput,
    /// A connection, request or transport failure.
    Network(String),
    /// The remote service sent something the protocol does not allow.
    Protocol(String),
    /// A synthesis tool or utility is not present on this host.
    ToolUnavailable(String),
    /// Every strategy failed; one entry per strategy tried, in order.
    AllMethodsFailed(Vec<String>),
    /// The audio cache could not be read or written.
    Cache(String),
    /// Audio could not be decoded or played.
    Playback(String),
    /// Playback ran past its time bound and was stopped.
    PlaybackTimeout,
}

/// The short label of an error's kind.
pub open spec fn error_kind(e: SynthesisError) -> Seq<char> {
    match e {
        SynthesisError::EmptyInput => "empty input"@,
        SynthesisError::Network(_) => "network error"@,
        SynthesisError::Protocol(_) => "protocol error"@,
        SynthesisError::ToolUnavailable(_) => "tool unavailable"@,
        SynthesisError::AllMethodsFailed(_) => "all synthesis methods failed"@,
        SynthesisError::Cache(_) => "cache error"@,
        SynthesisError::Playback(_) => "playback error"@,
        SynthesisError::PlaybackTimeout => "playback timeout"@,
    }
}

impl SynthesisError {
    /// The error's kind, as a short label.
    pub fn kind(&self) -> (r: &'static str)
        ensures
            r@ == error_kind(*self),
    {
        match self {
            SynthesisError::EmptyInput => "empty input",
            SynthesisError::Network(_) => "network error",
            SynthesisError::Protocol(_) => "protocol error",
            SynthesisError::ToolUnavailable(_) => "tool unavailable",
            SynthesisError::AllMethodsFailed(_) => "all synthesis methods failed",
            SynthesisError::Cache(_) => "cache error",
            SynthesisError::Playback(_) => "playback error",
            SynthesisError::PlaybackTimeout => "playback timeout",
        }
    }
}

} // verus!
