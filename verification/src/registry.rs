//! The ordered collection of live process handles.

use vstd::prelude::*;

verus! {

/// The processes that a supervisor has spawned and not yet handed out for
/// termination, oldest first. The handle type is the host's: the registry never
/// looks inside one.
pub struct ProcessRegistry<H> {
    entries: Vec<H>,
}

impl<H> View for ProcessRegistry<H> {
    type V = Seq<H>;

    closed spec fn view(&self) -> Seq<H> {
        self.entries@
    }
}

impl<H> ProcessRegistry<H> {
    /// A registry that tracks no process.
    pub fn new() -> (registry: Self)
        ensures
            registry@ == Seq::<H>::empty(),
    {
        ProcessRegistry { entries: Vec::new() }
    }

    /// The number of tracked processes.
    pub fn len(&self) -> (count: usize)
        ensures
            count == self@.len(),
    {
        self.entries.len()
    }

    /// Whether no process is tracked.
    pub fn is_empty(&self) -> (empty: bool)
        ensures
            empty == (self@.len() == 0),
    {
        self.entries.len() == 0
    }

    /// Takes ownership of a freshly spawned process.
    pub fn push(&mut self, handle: H)
        ensures
            final(self)@ == old(self)@.push(handle),
    {
        self.entries.push(handle);
    }

    /// Lends one tracked process to the host, which may query it but cannot
    /// remove it.
    pub fn entry_mut(&mut self, index: usize) -> (handle: &mut H)
        requires
            index < old(self)@.len(),
        ensures
            *handle == old(self)@[index as int],
            final(self)@ == old(self)@.update(index as int, *final(handle)),
        no_unwind
    {
        &mut self.entries[index]
    }

    /// Removes every tracked process and hands them out, oldest first.
    pub fn drain(&mut self) -> (handles: Vec<H>)
        ensures
            handles@ == old(self)@,
            final(self)@ == Seq::<H>::empty(),
    {
        let mut handles: Vec<H> = Vec::new();
        core::mem::swap(&mut self.entries, &mut handles);
        handles
    }
}

} // verus!
