//! The synthesis view: content length, voice name and body of one request.

use crate::error::{Error, HeaderId};
use crate::headers::{extract_vendor_specific_parameters, holds_exactly, vendor_parameters};
use crate::request::{Request, ResourceHeader};
use crate::text::{apt_str_to_string, decoded, outcome_view};
use vstd::hash_map::StringHashMap;
use vstd::prelude::*;

verus! {

/// Content length used where the request names none.
pub const DEFAULT_CONTENT_LENGTH: usize = 0;

/// The content length that a request carries, in bytes. It is read from
/// the generic header block once its presence flag was found up.
pub open spec fn content_length_of(request: Option<&Request>) -> Result<usize, Error> {
    match request {
        None => Err(Error::NullRequest),
        Some(r) => if r.has(HeaderId::ContentLength) {
            match r.generic_header {
                Some(header) => Ok(header.content_length),
                None => Err(Error::NoSuchHeader(HeaderId::ContentLength)),
            }
        } else {
            Err(Error::NoSuchHeader(HeaderId::ContentLength))
        },
    }
}

/// The voice name of a request. A name buffer that carries no bytes is a
/// header without a name, not an empty name.
pub open spec fn voice_name_of(request: Option<&Request>) -> Result<Option<Seq<char>>, Error> {
    match request {
        None => Err(Error::NullRequest),
        Some(r) => if r.has(HeaderId::VoiceName) {
            match r.synth_header() {
                Some(header) => decoded(header.voice_name@),
                None => Err(Error::NoSuchHeader(HeaderId::VoiceName)),
            }
        } else {
            Err(Error::NoSuchHeader(HeaderId::VoiceName))
        },
    }
}

/// The body of a request as text. No presence flag guards the body. A body
/// that is not valid text counts as no body, as a zero-length one does.
pub open spec fn body_of(request: Option<&Request>) -> Result<Option<Seq<char>>, Error> {
    match request {
        None => Err(Error::NullRequest),
        Some(r) => match decoded(r.body@) {
            Ok(text) => Ok(text),
            Err(_) => Ok(None),
        },
    }
}

/// Reads the content length, in bytes.
pub fn extract_content_length(request: Option<&Request>) -> (outcome: Result<usize, Error>)
    ensures
        outcome == content_length_of(request),
{
    let request = match request {
        Some(request) => request,
        None => {
            return Err(Error::NullRequest);
        },
    };
    if request.property_check(HeaderId::ContentLength) {
        match &request.generic_header {
            Some(header) => Ok(header.content_length),
            None => Err(Error::NoSuchHeader(HeaderId::ContentLength)),
        }
    } else {
        Err(Error::NoSuchHeader(HeaderId::ContentLength))
    }
}

/// Reads the voice name.
pub fn extract_voice_name(request: Option<&Request>) -> (outcome: Result<Option<String>, Error>)
    ensures
        outcome_view(outcome) == voice_name_of(request),
{
    let request = match request {
        Some(request) => request,
        None => {
            return Err(Error::NullRequest);
        },
    };
    if request.property_check(HeaderId::VoiceName) {
        match &request.resource_header {
            Some(ResourceHeader::Synthesizer(header)) => apt_str_to_string(&header.voice_name),
            _ => Err(Error::NoSuchHeader(HeaderId::VoiceName)),
        }
    } else {
        Err(Error::NoSuchHeader(HeaderId::VoiceName))
    }
}

/// Reads the message body as text.
pub fn extract_body(request: Option<&Request>) -> (outcome: Result<Option<String>, Error>)
    ensures
        outcome_view(outcome) == body_of(request),
{
    let request = match request {
        Some(request) => request,
        None => {
            return Err(Error::NullRequest);
        },
    };
    match apt_str_to_string(&request.body) {
        Ok(text) => Ok(text),
        Err(_) => Ok(None),
    }
}

/// The synthesizer headers of one request. Each field keeps the outcome of
/// its extraction; the accessors of the same names substitute the defaults.
pub struct SynthHeaders {
    pub content_length: Result<usize, Error>,
    pub voice_name: Result<Option<String>, Error>,
    pub body: Result<Option<String>, Error>,
    pub vendor_specific: StringHashMap<String>,
}

impl SynthHeaders {
    /// Whether this view is what `request` carries.
    pub open spec fn describes(&self, request: Option<&Request>) -> bool {
        &&& self.content_length == content_length_of(request)
        &&& outcome_view(self.voice_name) == voice_name_of(request)
        &&& outcome_view(self.body) == body_of(request)
        &&& holds_exactly(self.vendor_specific, vendor_parameters(request))
    }

    /// What [`SynthHeaders::content_length`] returns.
    pub open spec fn spec_content_length(&self) -> usize {
        match self.content_length {
            Ok(length) => length,
            Err(_) => DEFAULT_CONTENT_LENGTH,
        }
    }

    /// The voice name that the accessor gives: the extracted name, or the
    /// empty string where none was extracted.
    pub open spec fn spec_voice_name(&self) -> Seq<char> {
        match self.voice_name {
            Ok(Some(voice)) => voice@,
            _ => Seq::empty(),
        }
    }

    /// The body that the accessor gives: the extracted text, if any.
    pub open spec fn spec_body(&self) -> Option<Seq<char>> {
        match self.body {
            Ok(Some(text)) => Some(text@),
            _ => None,
        }
    }

    /// Extracts every synthesizer field of `request`, each on its own.
    pub fn new(request: Option<&Request>) -> (headers: Self)
        ensures
            headers.describes(request),
    {
        SynthHeaders {
            content_length: extract_content_length(request),
            voice_name: extract_voice_name(request),
            body: extract_body(request),
            vendor_specific: extract_vendor_specific_parameters(request),
        }
    }

    /// The content length in bytes, or 0 where none was extracted.
    #[verifier::when_used_as_spec(spec_content_length)]
    pub fn content_length(&self) -> (length: usize)
        ensures
            length == self.spec_content_length(),
    {
        match self.content_length {
            Ok(length) => length,
            Err(_) => DEFAULT_CONTENT_LENGTH,
        }
    }

    /// The voice name, or the empty string where none was extracted.
    pub fn voice_name(&self) -> (voice: &str)
        ensures
            voice@ == self.spec_voice_name(),
    {
        match &self.voice_name {
            Ok(Some(voice)) => voice.as_str(),
            _ => {
                proof {
                    reveal_strlit("");
                }
                ""
            },
        }
    }

    /// The body as text, where there is one.
    pub fn body(&self) -> (text: Option<&str>)
        ensures
            match text {
                Some(t) => self.spec_body() == Some(t@),
                None => self.spec_body() is None,
            },
    {
        match &self.body {
            Ok(Some(text)) => Some(text.as_str()),
            _ => None,
        }
    }
}

/// Without a request every synthesizer field reports the null request, and
/// none reports a default.
pub proof fn lemma_null_request_has_no_synth_fields()
    ensures
        content_length_of(None) == Err::<usize, Error>(Error::NullRequest),
        voice_name_of(None) == Err::<Option<Seq<char>>, Error>(Error::NullRequest),
        body_of(None) == Err::<Option<Seq<char>>, Error>(Error::NullRequest),
{
}

/// A synthesizer field whose presence flag is down is reported as missing,
/// and its accessor gives exactly the documented default.
pub proof fn lemma_absent_synth_field_defaults(request: &Request, headers: SynthHeaders)
    requires
        headers.describes(Some(request)),
    ensures
        !request.has(HeaderId::ContentLength) ==> headers.content_length == Err::<usize, Error>(
            Error::NoSuchHeader(HeaderId::ContentLength),
        ) && headers.content_length() == 0,
        !request.has(HeaderId::VoiceName) ==> headers.voice_name == Err::<Option<String>, Error>(
            Error::NoSuchHeader(HeaderId::VoiceName),
        ) && headers.spec_voice_name() == Seq::<char>::empty(),
{
}

/// A buffer without bytes is no text: as a voice name and as a body, a
/// zero-length buffer is extracted as absent, never as an empty string that
/// is present.
pub proof fn lemma_zero_length_text_is_absent(request: &Request, headers: SynthHeaders)
    requires
        headers.describes(Some(request)),
    ensures
        request.has(HeaderId::VoiceName) && request.synth_header() is Some
            && request.synth_header().unwrap().voice_name@ == Some(Seq::<u8>::empty())
            ==> headers.voice_name == Ok::<Option<String>, Error>(None),
        request.body@ == Some(Seq::<u8>::empty()) ==> headers.body == Ok::<Option<String>, Error>(
            None,
        ) && headers.spec_body() is None,
{
}

} // verus!
