//! A store that names live objects by numeric handle.
//!
//! One registry exists per category of object (sessions, processes,
//! language-server processes). A handle present in a registry denotes
//! exactly one object, and a handle is never given out while it is still
//! registered: a drawn identifier that is taken moves on to the next free
//! key.

use crate::failure::Failure;
use crate::ids::{allocator_after, drawn, rand_u32, IdAllocator};
use std::collections::hash_map::Entry;
use std::collections::HashMap;
use vstd::prelude::*;

verus! {

broadcast use vstd::std_specs::hash::group_hash_axioms;

/// Whether `k` lies on the walk that starts at `start`, steps upward by one,
/// wraps from the largest key to zero, and stops just before `h`.
pub open spec fn on_walk(start: usize, h: usize, k: usize) -> bool {
    if start <= h {
        start <= k < h
    } else {
        k >= start || k < h
    }
}

/// Whether `h` is the first key not in `taken` on the upward, wrapping walk
/// from `start`.
pub open spec fn is_first_free(taken: Set<usize>, start: usize, h: usize) -> bool {
    &&& !taken.contains(h)
    &&& forall|k: usize| on_walk(start, h, k) ==> taken.contains(k)
}

/// A finite set that holds every key below `n` has at least `n` members.
proof fn lemma_prefix_len(s: Set<usize>, n: nat)
    requires
        s.finite(),
        n <= usize::MAX + 1,
        forall|k: usize| (k as nat) < n ==> s.contains(k),
    ensures
        s.len() >= n,
    decreases n,
{
    if n > 0 {
        let last = (n - 1) as usize;
        let rest = s.remove(last);
        assert forall|k: usize| (k as nat) < n - 1 implies rest.contains(k) by {
            assert(s.contains(k));
        }
        lemma_prefix_len(rest, (n - 1) as nat);
    }
}

/// The first free key on a walk is unique: a start and a set of taken keys
/// determine the handle that is claimed.
pub proof fn lemma_first_free_unique(taken: Set<usize>, start: usize, a: usize, b: usize)
    requires
        is_first_free(taken, start, a),
        is_first_free(taken, start, b),
    ensures
        a == b,
{
    if a != b {
        assert(on_walk(start, a, b) || on_walk(start, b, a));
    }
}

/// What an insertion does: a handle is drawn from the allocator, walked to
/// the first free key, and the object registered there. The clock is read
/// only if the allocator is unseeded; `reading` is what it gave.
pub open spec fn inserted<T>(
    before: Map<usize, T>,
    ids_before: Option<(u64, u64)>,
    object: T,
    after: Map<usize, T>,
    ids_after: Option<(u64, u64)>,
    handle: Result<usize, Failure>,
) -> bool {
    exists|reading: Option<u64>|
        {
            &&& ids_before is Some ==> reading is None
            &&& ids_after == allocator_after(ids_before, reading)
            &&& match #[trigger] drawn(ids_before, reading) {
                Ok(draw) => {
                    &&& handle is Ok
                    &&& is_first_free(before.dom(), draw as usize, handle->Ok_0)
                    &&& after =~= before.insert(handle->Ok_0, object)
                },
                Err(e) => handle == Err::<usize, Failure>(e) && after =~= before,
            }
        }
}

/// What registering yields as a handle, seen as a plain key.
pub open spec fn key_of<H: View<V = usize>>(registered: Result<H, Failure>) -> Result<
    usize,
    Failure,
> {
    match registered {
        Ok(handle) => Ok(handle@),
        Err(e) => Err(e),
    }
}

/// Maps handles to the live objects they name.
pub struct Registry<T> {
    entries: HashMap<usize, T>,
}

impl<T> View for Registry<T> {
    type V = Map<usize, T>;

    /// The registered objects by handle.
    closed spec fn view(&self) -> Map<usize, T> {
        self.entries@
    }
}

impl<T> Registry<T> {
    /// A registry with nothing registered.
    pub fn new() -> (registry: Registry<T>)
        ensures
            registry@ == Map::<usize, T>::empty(),
    {
        Registry { entries: HashMap::new() }
    }

    /// How many objects are registered.
    pub fn len(&self) -> (count: usize)
        ensures
            self@.dom().finite(),
            count == self@.len(),
    {
        self.entries.len()
    }

    /// Whether `handle` names a registered object.
    pub fn contains(&self, handle: usize) -> (present: bool)
        ensures
            present == self@.contains_key(handle),
    {
        self.entries.contains_key(&handle)
    }

    /// The object that `handle` names, for reading.
    pub fn lookup_for_read(&self, handle: usize) -> (found: Result<&T, Failure>)
        ensures
            self@.contains_key(handle) ==> found == Ok::<&T, Failure>(&self@[handle]),
            !self@.contains_key(handle) ==> found == Err::<&T, Failure>(
                Failure::NotFound { id: handle },
            ),
    {
        match self.entries.get(&handle) {
            Some(object) => Ok(object),
            None => Err(Failure::NotFound { id: handle }),
        }
    }

    /// The object that `handle` names, for changing in place. Whatever the
    /// caller leaves behind the reference is what the handle names
    /// afterwards; no other entry changes.
    pub fn lookup_for_write(&mut self, handle: usize) -> (found: Result<&mut T, Failure>)
        ensures
            match found {
                Ok(object) => {
                    &&& old(self)@.contains_key(handle)
                    &&& *object == old(self)@[handle]
                    &&& final(self)@ == old(self)@.insert(handle, *final(object))
                },
                Err(e) => {
                    &&& !old(self)@.contains_key(handle)
                    &&& e == Failure::NotFound { id: handle }
                    &&& final(self)@ == old(self)@
                },
            },
    {
        match self.entries.entry(handle) {
            Entry::Occupied(slot) => Ok(slot.into_mut()),
            Entry::Vacant(_) => Err(Failure::NotFound { id: handle }),
        }
    }

    /// Takes the object that `handle` names out of the registry.
    pub fn remove(&mut self, handle: usize) -> (removed: Result<T, Failure>)
        ensures
            old(self)@.contains_key(handle) ==> removed == Ok::<T, Failure>(old(self)@[handle]),
            !old(self)@.contains_key(handle) ==> removed == Err::<T, Failure>(
                Failure::NotFound { id: handle },
            ),
            final(self)@ == old(self)@.remove(handle),
    {
        match self.entries.remove(&handle) {
            Some(object) => Ok(object),
            None => Err(Failure::NotFound { id: handle }),
        }
    }

    /// Registers `object` under the first free key on the walk from `draw`
    /// and returns that key.
    pub fn claim(&mut self, draw: u32, object: T) -> (handle: usize)
        ensures
            is_first_free(old(self)@.dom(), draw as usize, handle),
            !old(self)@.contains_key(draw as usize) ==> handle == draw as usize,
            final(self)@ == old(self)@.insert(handle, object),
    {
        let start: usize = draw as usize;
        let mut candidate: usize = start;
        let mut wrapped: bool = false;
        while self.entries.contains_key(&candidate)
            invariant
                self.entries@ == old(self).entries@,
                start == draw as usize,
                !wrapped ==> start <= candidate,
                !wrapped ==> forall|k: usize| start <= k < candidate ==> self.entries@.contains_key(k),
                wrapped ==> candidate < start,
                wrapped ==> forall|k: usize|
                    (k >= start || k < candidate) ==> self.entries@.contains_key(k),
            decreases (if wrapped { 0int } else { 1int }), usize::MAX - candidate,
        {
            proof {
                let full = candidate == usize::MAX && start == 0 || wrapped && candidate + 1
                    == start;
                if full {
                    assert(self.entries.len() == self.entries@.len());
                    lemma_prefix_len(self.entries@.dom(), (usize::MAX + 1) as nat);
                }
            }
            if candidate == usize::MAX {
                candidate = 0;
                wrapped = true;
            } else {
                candidate = candidate + 1;
            }
        }
        self.entries.insert(candidate, object);
        candidate
    }

    /// Registers `object` under a handle drawn from `ids` and returns the
    /// handle. The handle is never one that is still registered. Where the
    /// generator cannot be seeded the object is not registered.
    pub fn insert(&mut self, ids: &mut IdAllocator, object: T) -> (handle: Result<usize, Failure>)
        ensures
            inserted(old(self)@, old(ids)@, object, final(self)@, final(ids)@, handle),
            handle matches Ok(h) ==> !old(self)@.contains_key(h) && final(self)@ == old(self)@.insert(
                h,
                object,
            ),
            handle is Err ==> final(self)@ == old(self)@,
            old(ids)@ is Some ==> handle is Ok,
    {
        match rand_u32(ids) {
            Ok(draw) => Ok(self.claim(draw, object)),
            Err(e) => Err(e),
        }
    }
}

} // verus!
