//! The parsed request as this crate reads it.
//!
//! The host parses the wire format. What reaches this crate is a set of
//! presence flags, one per header, next to the header blocks that hold the
//! values. A flag and the reachability of a block are independent facts:
//! a field is read only after its flag was checked and its block was found.

use crate::error::HeaderId;
use crate::text::AptStr;
use vstd::prelude::*;

verus! {

/// One vendor-specific parameter: a name and a value, both raw buffers.
pub struct VendorPair {
    pub name: AptStr,
    pub value: AptStr,
}

/// Headers shared by every resource type.
pub struct GenericHeader {
    pub content_length: usize,
    pub vendor_specific_params: Vec<VendorPair>,
}

/// The value the host stores in a boolean field to mean "true".
pub const HOST_TRUE: i32 = 1;

/// Headers of the recognizer resource, as the host stores them.
pub struct RecogHeader {
    /// Sensitivity threshold, a fraction, as the bit pattern of an IEEE 754
    /// double. This crate carries the level and never computes with it.
    pub sensitivity_level: u64,
    /// Milliseconds.
    pub no_input_timeout: usize,
    /// Milliseconds.
    pub recognition_timeout: usize,
    /// A host boolean: `HOST_TRUE` means true, anything else false.
    pub start_input_timers: i32,
    /// The recognizer's raw count, not yet a delay.
    pub speech_complete_timeout: usize,
}

/// Headers of the synthesizer resource.
pub struct SynthHeader {
    pub voice_name: AptStr,
}

/// The resource-specific header block of a request.
pub enum ResourceHeader {
    Recognizer(RecogHeader),
    Synthesizer(SynthHeader),
}

/// One parsed inbound request.
pub struct Request {
    /// The headers whose presence flag is up.
    pub properties: Vec<HeaderId>,
    /// `None` where the generic header block is unreachable.
    pub generic_header: Option<GenericHeader>,
    /// `None` where the resource header block is unreachable.
    pub resource_header: Option<ResourceHeader>,
    /// The message body. The protocol always carries one, possibly empty.
    pub body: AptStr,
}

impl Request {
    /// Whether the presence flag of `id` is up.
    pub open spec fn has(&self, id: HeaderId) -> bool {
        self.properties@.contains(id)
    }

    /// The recognizer header block, where the request has one.
    pub open spec fn recog_header(&self) -> Option<RecogHeader> {
        match self.resource_header {
            Some(ResourceHeader::Recognizer(header)) => Some(header),
            _ => None,
        }
    }

    /// The synthesizer header block, where the request has one.
    pub open spec fn synth_header(&self) -> Option<SynthHeader> {
        match self.resource_header {
            Some(ResourceHeader::Synthesizer(header)) => Some(header),
            _ => None,
        }
    }

    /// Checks the presence flag of `id`.
    pub fn property_check(&self, id: HeaderId) -> (present: bool)
        ensures
            present == self.has(id),
    {
        let mut i: usize = 0;
        while i < self.properties.len()
            invariant
                i <= self.properties@.len(),
                forall|j: int| 0 <= j < i ==> self.properties@[j] != id,
            decreases self.properties@.len() - i,
        {
            if self.properties[i] == id {
                return true;
            }
            i += 1;
        }
        false
    }
}

} // verus!
