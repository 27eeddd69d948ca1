//! The engine handle: one engine instance shared between the host and the
//! channels it serves, shut down at most once.

use crate::error::Error;
use crate::text::outcome_view;
use std::sync::atomic::{AtomicUsize, Ordering};
use std::sync::Arc;
use vstd::prelude::*;
use vstd::utf8::{decode_utf8, valid_utf8};

verus! {

/// What an engine does when the host unloads it. It is invoked at most
/// once, by the holder that gives the handle back while no shared reference
/// is outstanding.
pub trait Shutdown {
    fn shutdown(self);
}

/// The number that an atomic counter holds. It is meaningful for a counter
/// that is only ever changed through an exclusive reference, as the channel
/// counter of a handle is.
pub uninterp spec fn counter_value(counter: AtomicUsize) -> usize;

/// `AtomicUsize::new`: a counter that holds `value`.
#[verifier::external_body]
fn counter_new(value: usize) -> (counter: AtomicUsize)
    ensures
        counter_value(counter) == value,
{
    AtomicUsize::new(value)
}

/// `AtomicUsize::load`, sequentially consistent: the number the counter
/// holds.
#[verifier::external_body]
fn counter_load(counter: &AtomicUsize) -> (value: usize)
    ensures
        value == counter_value(*counter),
{
    counter.load(Ordering::SeqCst)
}

/// `AtomicUsize::fetch_add`, sequentially consistent: adds `amount` to the
/// counter in one atomic step and returns the number it held before. The
/// sum wraps around on overflow.
#[verifier::external_body]
fn counter_fetch_add(counter: &mut AtomicUsize, amount: usize) -> (previous: usize)
    ensures
        previous == counter_value(*old(counter)),
        counter_value(*final(counter)) == if previous + amount <= usize::MAX {
            previous + amount
        } else {
            previous + amount - usize::MAX - 1
        },
{
    counter.fetch_add(amount, Ordering::SeqCst)
}

/// `Arc::clone`: one more reference to the same value.
#[verifier::external_body]
fn arc_clone<E>(shared: &Arc<E>) -> (another: Arc<E>)
    ensures
        another == *shared,
{
    Arc::clone(shared)
}

/// `Arc::try_unwrap`: the value itself where this was the only strong
/// reference, else the reference back. Which of the two comes back depends
/// on the other holders and is not stated.
#[verifier::external_body]
fn arc_try_unwrap<E>(shared: Arc<E>) -> (reclaimed: Result<E, Arc<E>>)
    ensures
        match reclaimed {
            Ok(value) => value == *shared,
            Err(still_shared) => still_shared == shared,
        },
{
    Arc::try_unwrap(shared)
}

/// What became of a handle that the host gave back.
#[derive(Clone, Copy, Debug, PartialEq, Eq, Structural)]
pub enum Teardown {
    /// The handle was null; nothing was done.
    NullHandle,
    /// Shared references were outstanding. The engine was not shut down and
    /// lives on until its last holder lets go.
    StillShared,
    /// The handle was the sole owner and the engine was shut down.
    ShutDown,
}

/// The ordinal that the next channel gets on a handle that has opened
/// `opened` channels.
pub open spec fn next_ordinal(opened: nat) -> nat {
    opened + 1
}

/// The ordinals that `calls` channel openings in a row return on a handle
/// that has opened `opened` channels before them.
pub open spec fn ordinals(opened: nat, calls: nat) -> Seq<nat>
    decreases calls,
{
    if calls == 0 {
        Seq::empty()
    } else {
        seq![next_ordinal(opened)] + ordinals(next_ordinal(opened), (calls - 1) as nat)
    }
}

/// Channel openings in a row count up by one: the first of them on a fresh
/// handle returns 1, and the `i`-th after `opened` earlier ones returns
/// `opened + i`.
pub proof fn lemma_ordinals_count_up(opened: nat, calls: nat)
    ensures
        ordinals(opened, calls).len() == calls,
        forall|i: int| 0 <= i < calls ==> #[trigger] ordinals(opened, calls)[i] == opened + 1 + i,
    decreases calls,
{
    if calls > 0 {
        lemma_ordinals_count_up(next_ordinal(opened), (calls - 1) as nat);
    }
}

/// The host's handle on an engine: the engine, shared with every reference
/// taken through [`SafeEngine::engine`], and the count of channels opened
/// so far, which only grows.
pub struct SafeEngine<E> {
    inner: Arc<E>,
    channel_counter: AtomicUsize,
}

impl<E> SafeEngine<E> {
    /// The engine behind the handle.
    pub closed spec fn engine_value(&self) -> E {
        *self.inner
    }

    /// How many channels were opened through the handle.
    pub closed spec fn spec_channels_opened(&self) -> usize {
        counter_value(self.channel_counter)
    }

    /// Takes ownership of `engine` and wraps it for sharing. The box is the
    /// host's sole reference to the handle; no channel is open yet.
    pub fn leaked(engine: E) -> (handle: Box<Self>)
        ensures
            handle.engine_value() == engine,
            handle.channels_opened() == 0,
    {
        Box::new(SafeEngine { inner: Arc::new(engine), channel_counter: counter_new(0) })
    }

    /// A new shared reference to the engine. The channel count is left
    /// alone.
    pub fn engine(&self) -> (shared: Arc<E>)
        ensures
            *shared == self.engine_value(),
    {
        arc_clone(&self.inner)
    }

    /// How many channels were opened through the handle.
    #[verifier::when_used_as_spec(spec_channels_opened)]
    pub fn channels_opened(&self) -> (opened: usize)
        ensures
            opened == self.spec_channels_opened(),
    {
        counter_load(&self.channel_counter)
    }

    /// Counts one more channel and returns its ordinal. Ordinals start at 1
    /// and each is one more than the one before.
    pub fn channel_opened(&mut self) -> (ordinal: usize)
        requires
            old(self).channels_opened() < usize::MAX,
        ensures
            ordinal == next_ordinal(old(self).channels_opened() as nat),
            final(self).channels_opened() == ordinal,
            final(self).engine_value() == old(self).engine_value(),
    {
        1 + counter_fetch_add(&mut self.channel_counter, 1)
    }
}

impl<E: Shutdown> SafeEngine<E> {
    /// Acts on an attempt to reclaim the engine for the holder alone: shuts
    /// the engine down where the attempt succeeded, and leaves it to the
    /// remaining holders where it did not.
    pub fn conclude(reclaimed: Result<E, Arc<E>>) -> (outcome: Teardown)
        ensures
            outcome == match reclaimed {
                Ok(_) => Teardown::ShutDown,
                Err(_) => Teardown::StillShared,
            },
    {
        match reclaimed {
            Ok(engine_to_shutdown) => {
                engine_to_shutdown.shutdown();
                Teardown::ShutDown
            },
            Err(_) => Teardown::StillShared,
        }
    }

    /// Takes the handle back from the host. A null handle is tolerated and
    /// nothing happens. Otherwise the handle is reclaimed, and the engine is
    /// shut down if and only if no shared reference is outstanding at that
    /// instant.
    pub fn destroy(this: Option<Box<Self>>) -> (outcome: Teardown)
        ensures
            this is None <==> outcome == Teardown::NullHandle,
    {
        match this {
            None => Teardown::NullHandle,
            Some(handle) => {
                let SafeEngine { inner, channel_counter: _ } = *handle;
                Self::conclude(arc_try_unwrap(inner))
            },
        }
    }
}

/// What an engine-level configuration lookup yields, given the raw value
/// that the host returned for the key: nothing where the key is missing,
/// the text of the value, or an error where the value is not valid text.
pub open spec fn attribute_of(raw_value: Option<Seq<u8>>) -> Result<Option<Seq<char>>, Error> {
    match raw_value {
        None => Ok(None),
        Some(bytes) => if valid_utf8(bytes) {
            Ok(Some(decode_utf8(bytes)))
        } else {
            Err(Error::InvalidText)
        },
    }
}

/// Decodes the raw value of an engine parameter, such as a secret key.
/// `raw_value` is `None` where the engine configuration has no such key.
pub fn get_attribute(raw_value: Option<&[u8]>) -> (outcome: Result<Option<String>, Error>)
    ensures
        outcome_view(outcome) == attribute_of(
            match raw_value {
                Some(bytes) => Some(bytes@),
                None => None,
            },
        ),
{
    match raw_value {
        None => Ok(None),
        Some(bytes) => match core::str::from_utf8(bytes) {
            Ok(text) => Ok(Some(text.to_owned())),
            Err(_) => Err(Error::InvalidText),
        },
    }
}

} // verus!
