//! IO ports and the per-job port table.
//!
//! A port is a data source or sink of one job context, identified by a
//! small signed integer id that is unique within that context. A port id
//! is bound to exactly one variant for the lifetime of its job context:
//! rebinding the same id is an error, never an overwrite.

use vstd::pervasive::VecAdditionalExecFns;
use vstd::prelude::*;

use crate::assoc::assoc_view;
use crate::assoc::lemma_assoc_view_dom;
use crate::assoc::lemma_assoc_view_index;
use crate::assoc::lemma_assoc_view_push;
use crate::assoc::lemma_assoc_view_update;
use crate::assoc::lemma_unique_keys_push;
use crate::assoc::unique_keys;
use crate::errors::BridgeError;

verus! {

/// One data port of a job context.
pub enum IoPort {
    /// An immutable byte sequence, fully supplied at attach time.
    InputBuffer(Vec<u8>),
    /// A filesystem path the engine collaborator resolves lazily.
    InputFile(String),
    /// Engine-filled bytes; empty of content until the engine writes it,
    /// and that state is tracked explicitly, not via a zero length.
    OutputBuffer(Option<Vec<u8>>),
}

/// The abstraction of a port: the same three variants over mathematical
/// sequences.
pub enum PortView {
    InputBuffer(Seq<u8>),
    InputFile(Seq<char>),
    OutputBuffer(Option<Seq<u8>>),
}

impl View for IoPort {
    type V = PortView;

    open spec fn view(&self) -> PortView {
        match self {
            IoPort::InputBuffer(bytes) => PortView::InputBuffer(bytes@),
            IoPort::InputFile(path) => PortView::InputFile(path@),
            IoPort::OutputBuffer(produced) => PortView::OutputBuffer(
                match produced {
                    Some(bytes) => Some(bytes@),
                    None => None,
                },
            ),
        }
    }
}

/// The port table of one job context: a mapping from port id to port,
/// owned exclusively by that context.
pub struct PortTable {
    entries: Vec<(i32, IoPort)>,
}

impl View for PortTable {
    type V = Map<i32, PortView>;

    closed spec fn view(&self) -> Map<i32, PortView> {
        assoc_view(self.entries@)
    }
}

impl PortTable {
    /// Each port id is bound at most once.
    pub closed spec fn wf(&self) -> bool {
        unique_keys(self.entries@)
    }

    /// A context starts with an empty port table.
    pub fn new() -> (t: PortTable)
        ensures
            t.wf(),
            t@ == Map::<i32, PortView>::empty(),
    {
        PortTable { entries: Vec::new() }
    }

    /// The position of the entry bound to `id`, if any.
    fn find(&self, id: i32) -> (r: Option<usize>)
        ensures
            match r {
                Some(i) => i < self.entries@.len() && self.entries@[i as int].0 == id,
                None => forall|i: int| 0 <= i < self.entries@.len() ==> self.entries@[i].0 != id,
            },
    {
        let n = self.entries.len();
        let mut i: usize = 0;
        while i < n
            invariant
                n == self.entries@.len(),
                i <= n,
                forall|j: int| 0 <= j < i ==> self.entries@[j].0 != id,
            decreases n - i,
        {
            if self.entries[i].0 == id {
                return Some(i);
            }
            i = i + 1;
        }
        None
    }

    /// Whether `id` is bound to a port.
    pub fn contains(&self, id: i32) -> (r: bool)
        ensures
            r == self@.dom().contains(id),
    {
        proof {
            lemma_assoc_view_dom(self.entries@, id);
        }
        self.find(id).is_some()
    }

    /// Binds `id` to `port`. Rebinding an already bound id is refused, so
    /// a port id keeps one variant for the life of the context.
    pub fn bind(&mut self, id: i32, port: IoPort) -> (r: Result<(), BridgeError>)
        requires
            old(self).wf(),
        ensures
            final(self).wf(),
            old(self)@.dom().contains(id) ==> r == Err::<(), BridgeError>(
                BridgeError::PortAlreadyBound,
            ) && final(self)@ == old(self)@,
            !old(self)@.dom().contains(id) ==> r == Ok::<(), BridgeError>(()) && final(self)@
                == old(self)@.insert(id, port@),
    {
        proof {
            lemma_assoc_view_dom(self.entries@, id);
        }
        match self.find(id) {
            Some(_) => Err(BridgeError::PortAlreadyBound),
            None => {
                proof {
                    lemma_unique_keys_push(self.entries@, id, port);
                    lemma_assoc_view_push(self.entries@, id, port);
                }
                self.entries.push((id, port));
                Ok(())
            },
        }
    }

    /// The port bound to `id`, if any.
    pub fn get(&self, id: i32) -> (r: Option<&IoPort>)
        requires
            self.wf(),
        ensures
            match r {
                Some(port) => self@.dom().contains(id) && port@ == self@[id],
                None => !self@.dom().contains(id),
            },
    {
        proof {
            lemma_assoc_view_dom(self.entries@, id);
        }
        match self.find(id) {
            Some(i) => {
                proof {
                    lemma_assoc_view_index(self.entries@, i as int);
                }
                Some(&self.entries[i].1)
            },
            None => None,
        }
    }

    /// Replaces the port already bound to `id`.
    pub fn replace(&mut self, id: i32, port: IoPort) -> (r: bool)
        requires
            old(self).wf(),
        ensures
            final(self).wf(),
            r == old(self)@.dom().contains(id),
            r ==> final(self)@ == old(self)@.insert(id, port@),
            !r ==> final(self)@ == old(self)@,
    {
        proof {
            lemma_assoc_view_dom(self.entries@, id);
        }
        match self.find(id) {
            Some(i) => {
                proof {
                    lemma_assoc_view_index(self.entries@, i as int);
                    lemma_assoc_view_update(self.entries@, i as int, port);
                }
                self.entries.set(i, (id, port));
                true
            },
            None => false,
        }
    }
}

} // verus!
