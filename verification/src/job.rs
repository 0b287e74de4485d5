//! The job context: one processing session.
//!
//! A job context owns its port table exclusively and is only ever reached
//! through the registry by its handle. Its operations attach ports, hand
//! input bytes to the engine collaborator, take the bytes the engine
//! produced, and give them back to the host.
//!
//! Output ports track "has the engine written this" explicitly: reading
//! one before the engine has written it is `OutputNotReady`, never an
//! empty buffer. Once written, an output port stays readable; repeated
//! reads return the same bytes.

use vstd::prelude::*;

use crate::errors::BridgeError;
use crate::ports::IoPort;
use crate::ports::PortTable;
use crate::ports::PortView;

verus! {

/// What attaching a port to a job does: rebinding a bound id is refused,
/// an input-file port needs a non-empty path, anything else binds the id.
pub open spec fn spec_attach(job: Map<i32, PortView>, id: i32, port: PortView) -> Result<
    Map<i32, PortView>,
    BridgeError,
> {
    if job.dom().contains(id) {
        Err(BridgeError::PortAlreadyBound)
    } else if match port {
        PortView::InputFile(path) => path.len() == 0,
        _ => false,
    } {
        Err(BridgeError::InvalidPath)
    } else {
        Ok(job.insert(id, port))
    }
}

/// Relates an attach operation's result and final state to `spec_attach`.
pub open spec fn attach_outcome(
    before: Map<i32, PortView>,
    after: Map<i32, PortView>,
    r: Result<(), BridgeError>,
    id: i32,
    port: PortView,
) -> bool {
    match spec_attach(before, id, port) {
        Ok(bound) => r == Ok::<(), BridgeError>(()) && after == bound,
        Err(e) => r == Err::<(), BridgeError>(e) && after == before,
    }
}

/// What reading an output port returns: the produced bytes, or why not.
pub open spec fn spec_get_output(job: Map<i32, PortView>, id: i32) -> Result<
    Seq<u8>,
    BridgeError,
> {
    if !job.dom().contains(id) {
        Err(BridgeError::PortNotFound)
    } else {
        match job[id] {
            PortView::OutputBuffer(Some(bytes)) => Ok(bytes),
            PortView::OutputBuffer(None) => Err(BridgeError::OutputNotReady),
            _ => Err(BridgeError::PortTypeMismatch),
        }
    }
}

/// What the engine writing `bytes` to an output port does to the job.
pub open spec fn spec_record_output(job: Map<i32, PortView>, id: i32, bytes: Seq<u8>) -> Result<
    Map<i32, PortView>,
    BridgeError,
> {
    if !job.dom().contains(id) {
        Err(BridgeError::PortNotFound)
    } else {
        match job[id] {
            PortView::OutputBuffer(_) => Ok(job.insert(id, PortView::OutputBuffer(Some(bytes)))),
            _ => Err(BridgeError::PortTypeMismatch),
        }
    }
}

/// What the engine reading an input-buffer port sees: exactly the bytes
/// the host attached.
pub open spec fn spec_input_bytes(job: Map<i32, PortView>, id: i32) -> Result<Seq<u8>, BridgeError> {
    if !job.dom().contains(id) {
        Err(BridgeError::PortNotFound)
    } else {
        match job[id] {
            PortView::InputBuffer(bytes) => Ok(bytes),
            _ => Err(BridgeError::PortTypeMismatch),
        }
    }
}

/// A byte-for-byte copy, so the host's buffer and the engine's never
/// alias each other.
fn copy_bytes(src: &Vec<u8>) -> (r: Vec<u8>)
    ensures
        r@ == src@,
{
    let n = src.len();
    let mut out: Vec<u8> = Vec::new();
    let mut i: usize = 0;
    while i < n
        invariant
            n == src@.len(),
            i <= n,
            out@ == src@.subrange(0, i as int),
        decreases n - i,
    {
        out.push(src[i]);
        i = i + 1;
    }
    proof {
        assert(out@ =~= src@);
    }
    out
}

/// One processing session: a port table and the rules for using it.
pub struct JobContext {
    ports: PortTable,
}

impl View for JobContext {
    type V = Map<i32, PortView>;

    closed spec fn view(&self) -> Map<i32, PortView> {
        self.ports@
    }
}

impl JobContext {
    /// The port ids are unique within this context.
    pub closed spec fn wf(&self) -> bool {
        self.ports.wf()
    }

    /// A fresh context with an empty port table.
    pub fn new() -> (job: JobContext)
        ensures
            job.wf(),
            job@ == Map::<i32, PortView>::empty(),
    {
        JobContext { ports: PortTable::new() }
    }

    /// Attaches an immutable input byte buffer. The buffer is moved into
    /// the port, so the host cannot mutate engine-visible memory later.
    pub fn add_input_buffer(&mut self, id: i32, bytes: Vec<u8>) -> (r: Result<(), BridgeError>)
        requires
            old(self).wf(),
        ensures
            final(self).wf(),
            attach_outcome(old(self)@, final(self)@, r, id, PortView::InputBuffer(bytes@)),
    {
        self.ports.bind(id, IoPort::InputBuffer(bytes))
    }

    /// Attaches an input file path, resolved lazily by the engine
    /// collaborator; only an empty path is rejected here.
    pub fn add_input_file(&mut self, id: i32, path: String) -> (r: Result<(), BridgeError>)
        requires
            old(self).wf(),
        ensures
            final(self).wf(),
            attach_outcome(old(self)@, final(self)@, r, id, PortView::InputFile(path@)),
    {
        if self.ports.contains(id) {
            return Err(BridgeError::PortAlreadyBound);
        }
        if path.as_str().is_empty() {
            return Err(BridgeError::InvalidPath);
        }
        self.ports.bind(id, IoPort::InputFile(path))
    }

    /// Attaches an output buffer port, not yet written by the engine.
    pub fn add_output_buffer(&mut self, id: i32) -> (r: Result<(), BridgeError>)
        requires
            old(self).wf(),
        ensures
            final(self).wf(),
            attach_outcome(old(self)@, final(self)@, r, id, PortView::OutputBuffer(None)),
    {
        self.ports.bind(id, IoPort::OutputBuffer(None))
    }

    /// The bytes the engine produced on an output port, as a copy the
    /// host owns. Reading does not consume the port: a second read
    /// returns the same bytes.
    pub fn get_output_buffer(&self, id: i32) -> (r: Result<Vec<u8>, BridgeError>)
        requires
            self.wf(),
        ensures
            match r {
                Ok(bytes) => spec_get_output(self@, id) == Ok::<Seq<u8>, BridgeError>(bytes@),
                Err(e) => spec_get_output(self@, id) == Err::<Seq<u8>, BridgeError>(e),
            },
    {
        match self.ports.get(id) {
            None => Err(BridgeError::PortNotFound),
            Some(IoPort::OutputBuffer(Some(bytes))) => Ok(copy_bytes(bytes)),
            Some(IoPort::OutputBuffer(None)) => Err(BridgeError::OutputNotReady),
            Some(_) => Err(BridgeError::PortTypeMismatch),
        }
    }

    /// Records the bytes the engine collaborator produced for an output
    /// port. Writing again replaces the earlier bytes: the engine owns
    /// the port's content until the host reads it.
    pub fn record_output(&mut self, id: i32, bytes: Vec<u8>) -> (r: Result<(), BridgeError>)
        requires
            old(self).wf(),
        ensures
            final(self).wf(),
            match spec_record_output(old(self)@, id, bytes@) {
                Ok(written) => r == Ok::<(), BridgeError>(()) && final(self)@ == written,
                Err(e) => r == Err::<(), BridgeError>(e) && final(self)@ == old(self)@,
            },
    {
        match self.ports.get(id) {
            None => {
                return Err(BridgeError::PortNotFound);
            },
            Some(IoPort::OutputBuffer(_)) => {},
            Some(_) => {
                return Err(BridgeError::PortTypeMismatch);
            },
        }
        let replaced = self.ports.replace(id, IoPort::OutputBuffer(Some(bytes)));
        assert(replaced);
        Ok(())
    }

    /// The bytes behind an input-buffer port, for the engine collaborator
    /// to read: exactly the bytes the host attached.
    pub fn input_bytes(&self, id: i32) -> (r: Result<&Vec<u8>, BridgeError>)
        requires
            self.wf(),
        ensures
            match r {
                Ok(bytes) => spec_input_bytes(self@, id) == Ok::<Seq<u8>, BridgeError>(bytes@),
                Err(e) => spec_input_bytes(self@, id) == Err::<Seq<u8>, BridgeError>(e),
            },
    {
        match self.ports.get(id) {
            None => Err(BridgeError::PortNotFound),
            Some(IoPort::InputBuffer(bytes)) => Ok(bytes),
            Some(_) => Err(BridgeError::PortTypeMismatch),
        }
    }
}

} // verus!
