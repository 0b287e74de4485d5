//! The job registry: opaque handles to live job contexts.
//!
//! The registry owns every job context. Handles are unsigned 64-bit
//! integers, issued monotonically and never recycled, so a destroyed
//! handle can never silently resolve to a different context. The registry
//! is the only process-wide mutable state of the bridge; a host wraps one
//! instance in its own synchronization and every operation here is a
//! single bounded mutation, so operations on different handles never
//! interfere (a fact the dispatch layer's laws state precisely).

use vstd::prelude::*;

use crate::assoc::assoc_view;
use crate::assoc::lemma_assoc_view_dom;
use crate::assoc::lemma_assoc_view_index;
use crate::assoc::lemma_assoc_view_push;
use crate::assoc::lemma_assoc_view_remove;
use crate::assoc::lemma_assoc_view_update;
use crate::assoc::lemma_unique_keys_push;
use crate::assoc::unique_keys;
use crate::errors::BridgeError;
use crate::job::JobContext;
use crate::ports::PortView;

verus! {

/// The abstraction of a whole registry: each live handle's job, itself
/// seen as a map from port id to port.
pub type RegView = Map<u64, Map<i32, PortView>>;

/// The process-wide mapping from handle to job context.
pub struct Registry {
    next_handle: u64,
    jobs: Vec<(u64, JobContext)>,
}

impl View for Registry {
    type V = RegView;

    closed spec fn view(&self) -> RegView {
        assoc_view(self.jobs@)
    }
}

impl Registry {
    /// The handle the next successful create will issue.
    pub closed spec fn spec_next(&self) -> u64 {
        self.next_handle
    }

    /// Handles are unique, below the next handle to issue, and every
    /// held job context is itself well formed.
    pub closed spec fn wf(&self) -> bool {
        &&& unique_keys(self.jobs@)
        &&& forall|i: int|
            0 <= i < self.jobs@.len() ==> (#[trigger] self.jobs@[i]).0 < self.next_handle
        &&& forall|i: int| 0 <= i < self.jobs@.len() ==> (#[trigger] self.jobs@[i]).1.wf()
    }

    /// An empty registry: no live handles, issuing from zero.
    pub fn new() -> (reg: Registry)
        ensures
            reg.wf(),
            reg@ == Map::<u64, Map<i32, PortView>>::empty(),
            reg.spec_next() == 0,
    {
        Registry { next_handle: 0, jobs: Vec::new() }
    }

    /// The position of the entry for `handle`, if it is live.
    fn find(&self, handle: u64) -> (r: Option<usize>)
        ensures
            match r {
                Some(i) => i < self.jobs@.len() && self.jobs@[i as int].0 == handle,
                None => forall|i: int| 0 <= i < self.jobs@.len() ==> self.jobs@[i].0 != handle,
            },
    {
        let n = self.jobs.len();
        let mut i: usize = 0;
        while i < n
            invariant
                n == self.jobs@.len(),
                i <= n,
                forall|j: int| 0 <= j < i ==> self.jobs@[j].0 != handle,
            decreases n - i,
        {
            if self.jobs[i].0 == handle {
                return Some(i);
            }
            i = i + 1;
        }
        None
    }

    /// Whether `handle` resolves to a live job context.
    pub fn contains(&self, handle: u64) -> (r: bool)
        ensures
            r == self@.dom().contains(handle),
    {
        proof {
            lemma_assoc_view_dom(self.jobs@, handle);
        }
        self.find(handle).is_some()
    }

    /// Creates a job context with an empty port table under a fresh
    /// handle. Fails only when the 64-bit handle space is exhausted,
    /// which normal operation never reaches.
    pub fn create(&mut self) -> (r: Result<u64, BridgeError>)
        requires
            old(self).wf(),
        ensures
            final(self).wf(),
            old(self).spec_next() == u64::MAX ==> r == Err::<u64, BridgeError>(
                BridgeError::RegistryExhausted,
            ) && final(self)@ == old(self)@ && final(self).spec_next() == old(self).spec_next(),
            old(self).spec_next() < u64::MAX ==> {
                &&& r == Ok::<u64, BridgeError>(old(self).spec_next())
                &&& !old(self)@.dom().contains(old(self).spec_next())
                &&& final(self)@ == old(self)@.insert(
                    old(self).spec_next(),
                    Map::<i32, PortView>::empty(),
                )
                &&& final(self).spec_next() == old(self).spec_next() + 1
            },
    {
        if self.next_handle == u64::MAX {
            return Err(BridgeError::RegistryExhausted);
        }
        let handle = self.next_handle;
        let job = JobContext::new();
        proof {
            lemma_assoc_view_dom(self.jobs@, handle);
            lemma_unique_keys_push(self.jobs@, handle, job);
            lemma_assoc_view_push(self.jobs@, handle, job);
        }
        self.next_handle = handle + 1;
        self.jobs.push((handle, job));
        Ok(handle)
    }

    /// Removes the mapping for `handle` and releases the job context with
    /// all its ports. A second destroy of the same handle finds nothing
    /// and reports `HandleNotFound`, never undefined behavior.
    pub fn destroy(&mut self, handle: u64) -> (r: Result<(), BridgeError>)
        requires
            old(self).wf(),
        ensures
            final(self).wf(),
            final(self).spec_next() == old(self).spec_next(),
            old(self)@.dom().contains(handle) ==> r == Ok::<(), BridgeError>(()) && final(self)@
                == old(self)@.remove(handle),
            !old(self)@.dom().contains(handle) ==> r == Err::<(), BridgeError>(
                BridgeError::HandleNotFound,
            ) && final(self)@ == old(self)@,
    {
        proof {
            lemma_assoc_view_dom(self.jobs@, handle);
        }
        match self.find(handle) {
            None => Err(BridgeError::HandleNotFound),
            Some(i) => {
                proof {
                    lemma_assoc_view_remove(self.jobs@, i as int);
                }
                let _released = self.jobs.remove(i);
                Ok(())
            },
        }
    }

    /// Resolves a handle to its job context for the duration of the
    /// borrow.
    pub fn lookup(&self, handle: u64) -> (r: Option<&JobContext>)
        requires
            self.wf(),
        ensures
            match r {
                Some(job) => self@.dom().contains(handle) && job@ == self@[handle] && job.wf(),
                None => !self@.dom().contains(handle),
            },
    {
        proof {
            lemma_assoc_view_dom(self.jobs@, handle);
        }
        match self.find(handle) {
            None => None,
            Some(i) => {
                proof {
                    lemma_assoc_view_index(self.jobs@, i as int);
                }
                Some(&self.jobs[i].1)
            },
        }
    }

    /// Resolves a handle to its job context for one mutation. What the
    /// caller does through the borrow becomes the handle's new job; no
    /// other handle's job changes.
    pub fn lookup_mut(&mut self, handle: u64) -> (r: Option<&mut JobContext>)
        requires
            old(self).wf(),
        ensures
            match r {
                Some(job) => {
                    &&& old(self)@.dom().contains(handle)
                    &&& (*job)@ == old(self)@[handle]
                    &&& (*job).wf()
                    &&& final(self)@ == old(self)@.insert(handle, (*final(job))@)
                    &&& final(self).spec_next() == old(self).spec_next()
                    &&& ((*final(job)).wf() ==> final(self).wf())
                },
                None => {
                    &&& !old(self)@.dom().contains(handle)
                    &&& *final(self) == *old(self)
                },
            },
    {
        proof {
            lemma_assoc_view_dom(self.jobs@, handle);
        }
        match self.find(handle) {
            None => None,
            Some(i) => {
                proof {
                    lemma_assoc_view_index(self.jobs@, i as int);
                    assert forall|v: JobContext|
                        #[trigger] assoc_view(self.jobs@.update(i as int, (handle, v)))
                            == assoc_view(self.jobs@).insert(handle, v@) && unique_keys(
                            self.jobs@.update(i as int, (handle, v)),
                        ) by {
                        lemma_assoc_view_update(self.jobs@, i as int, v);
                    }
                }
                Some(&mut self.jobs[i].1)
            },
        }
    }
}

} // verus!
