//! Drawing numeric identifiers for registry keys.
//!
//! Identifiers come from a 32-bit permuted congruential generator that is
//! seeded once, from the wall clock, the first time one is requested.

use crate::failure::{Failure, Fault};
use std::time::{Duration, SystemTime, SystemTimeError};
use vstd::prelude::*;

verus! {

/// The generator state `(state, increment)` that `oorandom::Rand32::new`
/// builds from a seed.
pub uninterp spec fn rand32_seeded(seed: u64) -> (u64, u64);

/// What one call of `oorandom::Rand32::rand_u32` does to a generator in the
/// state `(state, inc)`: the number it returns, then the state it leaves.
pub uninterp spec fn rand32_step(state: u64, inc: u64) -> (u32, u64, u64);

/// Calls `oorandom::Rand32::new` and reads the resulting state back with
/// `Rand32::state`. The generator is a pure function of its seed, so the
/// state is named by [`rand32_seeded`].
#[verifier::external_body]
fn rand32_new(seed: u64) -> (r: (u64, u64))
    ensures
        r == rand32_seeded(seed),
{
    oorandom::Rand32::new(seed).state()
}

/// Rebuilds a generator with `oorandom::Rand32::from_state`, calls
/// `Rand32::rand_u32` once, and reads the state back. The draw and the
/// state it leaves depend on the state before alone, and are named by
/// [`rand32_step`].
#[verifier::external_body]
fn rand32_draw(state: u64, inc: u64) -> (r: (u32, u64, u64))
    ensures
        r == rand32_step(state, inc),
{
    let mut rng = oorandom::Rand32::from_state((state, inc));
    let value = rng.rand_u32();
    let (state, inc) = rng.state();
    (value, state, inc)
}

#[verifier::external_type_specification]
#[verifier::external_body]
pub struct ExSystemTime(SystemTime);

#[verifier::external_type_specification]
#[verifier::external_body]
pub struct ExSystemTimeError(SystemTimeError);

/// `SystemTime::now` reads the wall clock; nothing is known of the reading.
pub assume_specification[ SystemTime::now ]() -> (now: SystemTime);

/// `Duration::as_secs` gives the whole seconds of a duration; the duration
/// is opaque here, so nothing is claimed of the number.
pub assume_specification[ Duration::as_secs ](d: &Duration) -> (secs: u64);

/// Calls `SystemTime::duration_since` against the Unix epoch. It fails when
/// the clock reads earlier than the epoch; nothing else is claimed.
#[verifier::external_body]
fn since_epoch(now: &SystemTime) -> (elapsed: Result<Duration, SystemTimeError>) {
    now.duration_since(std::time::UNIX_EPOCH)
}

/// Reads the wall clock as whole seconds since the Unix epoch, or `None`
/// where the clock cannot give one.
fn clock_seconds() -> (reading: Option<u64>) {
    let now = SystemTime::now();
    match since_epoch(&now) {
        Ok(elapsed) => Some(elapsed.as_secs()),
        Err(_) => None,
    }
}

/// A lazily seeded source of 32-bit identifiers.
pub struct IdAllocator {
    generator: Option<(u64, u64)>,
}

impl View for IdAllocator {
    type V = Option<(u64, u64)>;

    /// `None` until seeded, then the generator's `(state, increment)`.
    closed spec fn view(&self) -> Option<(u64, u64)> {
        self.generator
    }
}

/// The allocator after a request that found it in state `before`, where
/// `reading` is what the clock gave (consulted only when unseeded).
pub open spec fn allocator_after(before: Option<(u64, u64)>, reading: Option<u64>) -> Option<
    (u64, u64),
> {
    match before {
        Some(g) => Some((rand32_step(g.0, g.1).1, rand32_step(g.0, g.1).2)),
        None => match reading {
            Some(seed) => {
                let g = rand32_seeded(seed);
                Some((rand32_step(g.0, g.1).1, rand32_step(g.0, g.1).2))
            },
            None => None,
        },
    }
}

/// The answer to a request that found the allocator in state `before`.
pub open spec fn drawn(before: Option<(u64, u64)>, reading: Option<u64>) -> Result<u32, Failure> {
    match before {
        Some(g) => Ok(rand32_step(g.0, g.1).0),
        None => match reading {
            Some(seed) => {
                let g = rand32_seeded(seed);
                Ok(rand32_step(g.0, g.1).0)
            },
            None => Err(Failure::Internal(Fault::ClockUnavailable)),
        },
    }
}

impl IdAllocator {
    /// An allocator that has not been seeded yet.
    pub fn new() -> (ids: IdAllocator)
        ensures
            ids@ is None,
    {
        IdAllocator { generator: None }
    }

    /// An allocator seeded with `seed`, for callers that need a repeatable
    /// sequence.
    pub fn with_seed(seed: u64) -> (ids: IdAllocator)
        ensures
            ids@ == Some(rand32_seeded(seed)),
    {
        IdAllocator { generator: Some(rand32_new(seed)) }
    }

    /// Whether the generator has been seeded.
    pub fn is_seeded(&self) -> (seeded: bool)
        ensures
            seeded == (self@ is Some),
    {
        self.generator.is_some()
    }

    /// Draws the next identifier, seeding first from `reading` when the
    /// allocator is unseeded. An unseeded allocator with no clock reading
    /// stays unseeded and reports the clock as unavailable.
    pub fn next_with(&mut self, reading: Option<u64>) -> (id: Result<u32, Failure>)
        ensures
            id == drawn(old(self)@, reading),
            final(self)@ == allocator_after(old(self)@, reading),
    {
        let current: Option<(u64, u64)> = match self.generator {
            Some(g) => Some(g),
            None => match reading {
                Some(seed) => Some(rand32_new(seed)),
                None => None,
            },
        };
        match current {
            Some(g) => {
                let step: (u32, u64, u64) = rand32_draw(g.0, g.1);
                self.generator = Some((step.1, step.2));
                Ok(step.0)
            },
            None => Err(Failure::Internal(Fault::ClockUnavailable)),
        }
    }
}

/// Draws the next identifier from `ids`. The first request seeds the
/// generator from the wall clock; when the clock cannot be read the request
/// fails and the allocator stays unseeded, so a later request tries again.
pub fn rand_u32(ids: &mut IdAllocator) -> (id: Result<u32, Failure>)
    ensures
        old(ids)@ is Some ==> id == drawn(old(ids)@, None) && final(ids)@ == allocator_after(
            old(ids)@,
            None,
        ),
        old(ids)@ is None ==> exists|reading: Option<u64>|
            id == drawn(None, reading) && final(ids)@ == allocator_after(None, reading),
{
    let reading: Option<u64> = if ids.is_seeded() {
        None
    } else {
        clock_seconds()
    };
    ids.next_with(reading)
}

} // verus!
