//! The recognition view: the recognizer headers of one request.

use crate::error::{Error, HeaderId};
use crate::headers::{extract_vendor_specific_parameters, holds_exactly, vendor_parameters};
use crate::request::{RecogHeader, Request, ResourceHeader, HOST_TRUE};
use vstd::hash_map::StringHashMap;
use vstd::prelude::*;

verus! {

/// Sensitivity used where the request names none: 0.6, as the bit pattern
/// of an IEEE 754 double.
pub const DEFAULT_SENSITIVITY: u64 = 0x3FE3_3333_3333_3333;

/// No-input timeout used where the request names none, in milliseconds.
pub const DEFAULT_NOINPUT_TIMEOUT: usize = 5000;

/// Recognition timeout used where the request names none, in milliseconds.
pub const DEFAULT_RECOGNITION_TIMEOUT: usize = 20000;

/// Input timers start with the request unless it says otherwise.
pub const DEFAULT_START_INPUT_TIMERS: bool = true;

/// Silence timeout used where the request names none, in milliseconds.
pub const DEFAULT_SILENCE_TIMEOUT: usize = 1000;

/// The recognizer header block from which the field `id` is read. The block
/// is consulted only once the presence flag of `id` was found up; a flag
/// that is down and a block that is unreachable give the same outcome.
pub open spec fn recog_block(request: Option<&Request>, id: HeaderId) -> Result<
    RecogHeader,
    Error,
> {
    match request {
        None => Err(Error::NullRequest),
        Some(r) => if r.has(id) {
            match r.recog_header() {
                Some(header) => Ok(header),
                None => Err(Error::NoSuchHeader(id)),
            }
        } else {
            Err(Error::NoSuchHeader(id))
        },
    }
}

/// The delay in milliseconds that a raw speech-complete count stands for.
/// The bands follow a vendor convention and are not a formula.
pub open spec fn silence_delay(raw: usize) -> usize {
    if raw <= 1 {
        1000
    } else if raw <= 4 {
        (raw * 1000) as usize
    } else if raw <= 20 {
        1200
    } else {
        raw
    }
}

/// The sensitivity level that a request carries, as the bit pattern of a
/// double.
pub open spec fn sensitivity_of(request: Option<&Request>) -> Result<u64, Error> {
    match recog_block(request, HeaderId::SensitivityLevel) {
        Ok(header) => Ok(header.sensitivity_level),
        Err(e) => Err(e),
    }
}

/// The no-input timeout that a request carries, in milliseconds.
pub open spec fn noinput_timeout_of(request: Option<&Request>) -> Result<usize, Error> {
    match recog_block(request, HeaderId::NoInputTimeout) {
        Ok(header) => Ok(header.no_input_timeout),
        Err(e) => Err(e),
    }
}

/// The recognition timeout that a request carries, in milliseconds.
pub open spec fn recognition_timeout_of(request: Option<&Request>) -> Result<usize, Error> {
    match recog_block(request, HeaderId::RecognitionTimeout) {
        Ok(header) => Ok(header.recognition_timeout),
        Err(e) => Err(e),
    }
}

/// Whether a request asks for input timers to start with it.
pub open spec fn start_input_timers_of(request: Option<&Request>) -> Result<bool, Error> {
    match recog_block(request, HeaderId::StartInputTimers) {
        Ok(header) => Ok(header.start_input_timers == HOST_TRUE),
        Err(e) => Err(e),
    }
}

/// The silence that ends an utterance, in milliseconds: the raw count of
/// the request mapped by [`silence_delay`].
pub open spec fn speech_complete_timeout_of(request: Option<&Request>) -> Result<usize, Error> {
    match recog_block(request, HeaderId::SpeechCompleteTimeout) {
        Ok(header) => Ok(silence_delay(header.speech_complete_timeout)),
        Err(e) => Err(e),
    }
}

/// Finds the recognizer header block for reading the field `id`: checks the
/// request, then the presence flag, then the block.
fn locate_recog_header(request: Option<&Request>, id: HeaderId) -> (found: Result<
    &RecogHeader,
    Error,
>)
    ensures
        match found {
            Ok(header) => recog_block(request, id) == Ok::<RecogHeader, Error>(*header),
            Err(e) => recog_block(request, id) == Err::<RecogHeader, Error>(e),
        },
{
    let request = match request {
        Some(request) => request,
        None => {
            return Err(Error::NullRequest);
        },
    };
    if request.property_check(id) {
        match &request.resource_header {
            Some(ResourceHeader::Recognizer(header)) => Ok(header),
            _ => Err(Error::NoSuchHeader(id)),
        }
    } else {
        Err(Error::NoSuchHeader(id))
    }
}

/// Maps the recognizer's raw speech-complete count to a delay in
/// milliseconds: 0 and 1 give 1000; 2, 3 and 4 give a thousand times the
/// count; 5 to 20 give 1200; every other count is already the delay.
pub fn speech_complete_delay(raw: usize) -> (delay: usize)
    ensures
        delay == silence_delay(raw),
{
    if raw <= 1 {
        1000
    } else if raw <= 4 {
        raw * 1000
    } else if raw <= 20 {
        1200
    } else {
        raw
    }
}

/// Reads the sensitivity level, as the bit pattern of a double.
pub fn extract_sensitivity(request: Option<&Request>) -> (outcome: Result<u64, Error>)
    ensures
        outcome == sensitivity_of(request),
{
    match locate_recog_header(request, HeaderId::SensitivityLevel) {
        Ok(header) => Ok(header.sensitivity_level),
        Err(e) => Err(e),
    }
}

/// Reads the no-input timeout, in milliseconds.
pub fn extract_noinput_timeout(request: Option<&Request>) -> (outcome: Result<usize, Error>)
    ensures
        outcome == noinput_timeout_of(request),
{
    match locate_recog_header(request, HeaderId::NoInputTimeout) {
        Ok(header) => Ok(header.no_input_timeout),
        Err(e) => Err(e),
    }
}

/// Reads the recognition timeout, in milliseconds.
pub fn extract_recognition_timeout(request: Option<&Request>) -> (outcome: Result<usize, Error>)
    ensures
        outcome == recognition_timeout_of(request),
{
    match locate_recog_header(request, HeaderId::RecognitionTimeout) {
        Ok(header) => Ok(header.recognition_timeout),
        Err(e) => Err(e),
    }
}

/// Reads the start-input-timers flag, converting the host's boolean.
pub fn extract_start_input_timers(request: Option<&Request>) -> (outcome: Result<bool, Error>)
    ensures
        outcome == start_input_timers_of(request),
{
    match locate_recog_header(request, HeaderId::StartInputTimers) {
        Ok(header) => Ok(header.start_input_timers == HOST_TRUE),
        Err(e) => Err(e),
    }
}

/// Reads the speech-complete timeout and maps the raw count to a delay in
/// milliseconds.
pub fn extract_speech_complete_timeout(request: Option<&Request>) -> (outcome: Result<
    usize,
    Error,
>)
    ensures
        outcome == speech_complete_timeout_of(request),
{
    match locate_recog_header(request, HeaderId::SpeechCompleteTimeout) {
        Ok(header) => Ok(speech_complete_delay(header.speech_complete_timeout)),
        Err(e) => Err(e),
    }
}

/// The recognizer headers of one request. Each field keeps the outcome of
/// its extraction, so a value that was sent stays distinguishable from a
/// default; the accessors of the same names substitute the defaults.
pub struct RecogHeaders {
    /// Sensitivity threshold, as the bit pattern of a double.
    pub sensitivity: Result<u64, Error>,
    pub noinput_timeout: Result<usize, Error>,
    pub recognition_timeout: Result<usize, Error>,
    pub start_input_timers: Result<bool, Error>,
    pub silence_timeout: Result<usize, Error>,
    pub vendor_specific: StringHashMap<String>,
}

impl RecogHeaders {
    /// Whether this view is what `request` carries.
    pub open spec fn describes(&self, request: Option<&Request>) -> bool {
        &&& self.sensitivity == sensitivity_of(request)
        &&& self.noinput_timeout == noinput_timeout_of(request)
        &&& self.recognition_timeout == recognition_timeout_of(request)
        &&& self.start_input_timers == start_input_timers_of(request)
        &&& self.silence_timeout == speech_complete_timeout_of(request)
        &&& holds_exactly(self.vendor_specific, vendor_parameters(request))
    }

    /// What [`RecogHeaders::sensitivity`] returns.
    pub open spec fn spec_sensitivity(&self) -> u64 {
        match self.sensitivity {
            Ok(level) => level,
            Err(_) => DEFAULT_SENSITIVITY,
        }
    }

    /// What [`RecogHeaders::noinput_timeout`] returns.
    pub open spec fn spec_noinput_timeout(&self) -> usize {
        match self.noinput_timeout {
            Ok(timeout) => timeout,
            Err(_) => DEFAULT_NOINPUT_TIMEOUT,
        }
    }

    /// What [`RecogHeaders::recognition_timeout`] returns.
    pub open spec fn spec_recognition_timeout(&self) -> usize {
        match self.recognition_timeout {
            Ok(timeout) => timeout,
            Err(_) => DEFAULT_RECOGNITION_TIMEOUT,
        }
    }

    /// What [`RecogHeaders::start_input_timers`] returns.
    pub open spec fn spec_start_input_timers(&self) -> bool {
        match self.start_input_timers {
            Ok(start) => start,
            Err(_) => DEFAULT_START_INPUT_TIMERS,
        }
    }

    /// What [`RecogHeaders::silence_timeout`] returns.
    pub open spec fn spec_silence_timeout(&self) -> usize {
        match self.silence_timeout {
            Ok(timeout) => timeout,
            Err(_) => DEFAULT_SILENCE_TIMEOUT,
        }
    }

    /// Extracts every recognizer field of `request`, each on its own.
    pub fn new(request: Option<&Request>) -> (headers: Self)
        ensures
            headers.describes(request),
    {
        RecogHeaders {
            sensitivity: extract_sensitivity(request),
            noinput_timeout: extract_noinput_timeout(request),
            recognition_timeout: extract_recognition_timeout(request),
            start_input_timers: extract_start_input_timers(request),
            silence_timeout: extract_speech_complete_timeout(request),
            vendor_specific: extract_vendor_specific_parameters(request),
        }
    }

    /// The sensitivity level as the bit pattern of a double, or that of 0.6
    /// where none was extracted.
    #[verifier::when_used_as_spec(spec_sensitivity)]
    pub fn sensitivity(&self) -> (level: u64)
        ensures
            level == self.spec_sensitivity(),
    {
        match self.sensitivity {
            Ok(level) => level,
            Err(_) => DEFAULT_SENSITIVITY,
        }
    }

    /// The no-input timeout in milliseconds, or 5000 where none was
    /// extracted.
    #[verifier::when_used_as_spec(spec_noinput_timeout)]
    pub fn noinput_timeout(&self) -> (timeout: usize)
        ensures
            timeout == self.spec_noinput_timeout(),
    {
        match self.noinput_timeout {
            Ok(timeout) => timeout,
            Err(_) => DEFAULT_NOINPUT_TIMEOUT,
        }
    }

    /// The recognition timeout in milliseconds, or 20000 where none was
    /// extracted.
    #[verifier::when_used_as_spec(spec_recognition_timeout)]
    pub fn recognition_timeout(&self) -> (timeout: usize)
        ensures
            timeout == self.spec_recognition_timeout(),
    {
        match self.recognition_timeout {
            Ok(timeout) => timeout,
            Err(_) => DEFAULT_RECOGNITION_TIMEOUT,
        }
    }

    /// Whether input timers start with the request; true where nothing was
    /// extracted.
    #[verifier::when_used_as_spec(spec_start_input_timers)]
    pub fn start_input_timers(&self) -> (start: bool)
        ensures
            start == self.spec_start_input_timers(),
    {
        match self.start_input_timers {
            Ok(start) => start,
            Err(_) => DEFAULT_START_INPUT_TIMERS,
        }
    }

    /// The silence timeout in milliseconds, or 1000 where none was
    /// extracted.
    #[verifier::when_used_as_spec(spec_silence_timeout)]
    pub fn silence_timeout(&self) -> (timeout: usize)
        ensures
            timeout == self.spec_silence_timeout(),
    {
        match self.silence_timeout {
            Ok(timeout) => timeout,
            Err(_) => DEFAULT_SILENCE_TIMEOUT,
        }
    }
}

/// The bands of the speech-complete mapping, value by value.
pub proof fn lemma_silence_delay_bands(raw: usize)
    ensures
        raw <= 1 ==> silence_delay(raw) == 1000,
        2 <= raw <= 4 ==> silence_delay(raw) == raw * 1000,
        5 <= raw <= 20 ==> silence_delay(raw) == 1200,
        raw >= 21 ==> silence_delay(raw) == raw,
{
}

/// Without a request every recognizer field reports the null request, and
/// none reports a default.
pub proof fn lemma_null_request_has_no_recog_fields()
    ensures
        sensitivity_of(None) == Err::<u64, Error>(Error::NullRequest),
        noinput_timeout_of(None) == Err::<usize, Error>(Error::NullRequest),
        recognition_timeout_of(None) == Err::<usize, Error>(Error::NullRequest),
        start_input_timers_of(None) == Err::<bool, Error>(Error::NullRequest),
        speech_complete_timeout_of(None) == Err::<usize, Error>(Error::NullRequest),
{
}

/// A recognizer field whose presence flag is down is reported as missing,
/// and its accessor gives exactly the documented default.
pub proof fn lemma_absent_recog_field_defaults(request: &Request, headers: RecogHeaders)
    requires
        headers.describes(Some(request)),
    ensures
        !request.has(HeaderId::SensitivityLevel) ==> headers.sensitivity == Err::<u64, Error>(
            Error::NoSuchHeader(HeaderId::SensitivityLevel),
        ) && headers.sensitivity() == 0x3FE3_3333_3333_3333u64,
        !request.has(HeaderId::NoInputTimeout) ==> headers.noinput_timeout == Err::<usize, Error>(
            Error::NoSuchHeader(HeaderId::NoInputTimeout),
        ) && headers.noinput_timeout() == 5000,
        !request.has(HeaderId::RecognitionTimeout) ==> headers.recognition_timeout == Err::<
            usize,
            Error,
        >(Error::NoSuchHeader(HeaderId::RecognitionTimeout)) && headers.recognition_timeout()
            == 20000,
        !request.has(HeaderId::StartInputTimers) ==> headers.start_input_timers == Err::<
            bool,
            Error,
        >(Error::NoSuchHeader(HeaderId::StartInputTimers)) && headers.start_input_timers(),
        !request.has(HeaderId::SpeechCompleteTimeout) ==> headers.silence_timeout == Err::<
            usize,
            Error,
        >(Error::NoSuchHeader(HeaderId::SpeechCompleteTimeout)) && headers.silence_timeout()
            == 1000,
{
}

} // verus!
