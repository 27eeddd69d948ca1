//! Outcomes that are not values: which header was asked for, and why a
//! field could not be read.

use vstd::prelude::*;

verus! {

/// The protocol headers this crate reads from a request.
#[derive(Clone, Copy, Debug, PartialEq, Eq, Structural)]
pub enum HeaderId {
    /// Generic header: length of the message body in bytes.
    ContentLength,
    /// Generic header: free-form vendor name/value pairs.
    VendorSpecificParams,
    /// Recognizer header: sensitivity threshold.
    SensitivityLevel,
    /// Recognizer header: how long to wait for speech to start.
    NoInputTimeout,
    /// Recognizer header: how long recognition may run.
    RecognitionTimeout,
    /// Recognizer header: whether timers start with the request.
    StartInputTimers,
    /// Recognizer header: silence that ends an utterance.
    SpeechCompleteTimeout,
    /// Synthesizer header: name of the requested voice.
    VoiceName,
}

/// Why an extraction produced no value.
#[derive(Clone, Copy, Debug, PartialEq, Eq, Structural)]
pub enum Error {
    /// No request was handed in at all.
    NullRequest,
    /// The request does not carry the header: its presence flag is down, or
    /// the flag is up but the header block holding the field is unreachable.
    NoSuchHeader(HeaderId),
    /// A byte buffer was expected to hold text and is not valid UTF-8.
    InvalidText,
}

} // verus!
