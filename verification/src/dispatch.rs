//! The command dispatch facade: the caller-facing operation set.
//!
//! Each operation takes the registry and plain boundary values (an
//! unsigned handle, a signed port id, byte buffers, strings), validates
//! the handle and the port, and delegates to the job context. Every
//! outcome is a structured result; no internal failure may cross the
//! boundary as a fault.
//!
//! The engine collaborator call inside a message is outside work: the
//! host first validates and extracts the command with
//! [`job_message_begin`], runs the engine (which reads input ports
//! through [`job_input_bytes`] and writes output ports through
//! [`job_record_output`]), and finally folds the engine's own outcome
//! into the result shape with [`job_message_complete`].
//!
//! Each operation's contract equates its result and the registry's new
//! abstraction with a specification-level model of the operation; the
//! laws module states the system-wide properties over those models.

use vstd::prelude::*;

use crate::errors::BridgeError;
use crate::job::spec_attach;
use crate::job::spec_get_output;
use crate::job::spec_input_bytes;
use crate::job::spec_record_output;
use crate::ports::PortView;
use crate::registry::RegView;
use crate::registry::Registry;

verus! {

/// A validated command for the engine collaborator: exactly the method
/// name and JSON body the host sent, forwarded byte-transparently.
pub struct EngineCall {
    pub method: String,
    pub body: String,
}

/// What creating a job does: a fresh handle over an empty port table, or
/// `RegistryExhausted` once the handle space ends. Yields the result, the
/// registry's new abstraction, and the next handle to issue.
pub open spec fn spec_create(m: RegView, next: u64) -> (Result<u64, BridgeError>, RegView, u64) {
    if next == u64::MAX {
        (Err(BridgeError::RegistryExhausted), m, next)
    } else {
        (Ok(next), m.insert(next, Map::<i32, PortView>::empty()), (next + 1) as u64)
    }
}

/// What destroying a handle does: the mapping goes away exactly when it
/// was live.
pub open spec fn spec_destroy(m: RegView, h: u64) -> (Result<(), BridgeError>, RegView) {
    if m.dom().contains(h) {
        (Ok(()), m.remove(h))
    } else {
        (Err(BridgeError::HandleNotFound), m)
    }
}

/// What attaching a port through the facade does: an unknown handle is
/// reported before any port rule is consulted.
pub open spec fn spec_dispatch_attach(m: RegView, h: u64, id: i32, port: PortView) -> (
    Result<(), BridgeError>,
    RegView,
) {
    if !m.dom().contains(h) {
        (Err(BridgeError::HandleNotFound), m)
    } else {
        match spec_attach(m[h], id, port) {
            Ok(bound) => (Ok(()), m.insert(h, bound)),
            Err(e) => (Err(e), m),
        }
    }
}

/// What reading an output port through the facade returns.
pub open spec fn spec_dispatch_get_output(m: RegView, h: u64, id: i32) -> Result<
    Seq<u8>,
    BridgeError,
> {
    if !m.dom().contains(h) {
        Err(BridgeError::HandleNotFound)
    } else {
        spec_get_output(m[h], id)
    }
}

/// What the engine writing an output port through the facade does.
pub open spec fn spec_dispatch_record_output(m: RegView, h: u64, id: i32, bytes: Seq<u8>) -> (
    Result<(), BridgeError>,
    RegView,
) {
    if !m.dom().contains(h) {
        (Err(BridgeError::HandleNotFound), m)
    } else {
        match spec_record_output(m[h], id, bytes) {
            Ok(written) => (Ok(()), m.insert(h, written)),
            Err(e) => (Err(e), m),
        }
    }
}

/// What the engine reading an input port through the facade sees.
pub open spec fn spec_dispatch_input_bytes(m: RegView, h: u64, id: i32) -> Result<
    Seq<u8>,
    BridgeError,
> {
    if !m.dom().contains(h) {
        Err(BridgeError::HandleNotFound)
    } else {
        spec_input_bytes(m[h], id)
    }
}

/// What beginning a message does: on a live handle, exactly the method
/// and body the host sent, unchanged; the core never interprets them.
pub open spec fn spec_message_begin(m: RegView, h: u64, method: String, body: String) -> Result<
    EngineCall,
    BridgeError,
> {
    if m.dom().contains(h) {
        Ok(EngineCall { method, body })
    } else {
        Err(BridgeError::HandleNotFound)
    }
}

/// What completing a message does: the engine's response passes through
/// unchanged, its failure is surfaced as `EngineFailure`.
pub open spec fn spec_message_complete(
    m: RegView,
    h: u64,
    outcome: Result<String, String>,
) -> Result<String, BridgeError> {
    if !m.dom().contains(h) {
        Err(BridgeError::HandleNotFound)
    } else {
        match outcome {
            Ok(response_json) => Ok(response_json),
            Err(detail) => Err(BridgeError::EngineFailure(detail)),
        }
    }
}

/// Creates a job context and returns its fresh handle.
pub fn job_create(reg: &mut Registry) -> (r: Result<u64, BridgeError>)
    requires
        old(reg).wf(),
    ensures
        final(reg).wf(),
        ({
            let (r0, m2, n2) = spec_create(old(reg)@, old(reg).spec_next());
            r == r0 && final(reg)@ == m2 && final(reg).spec_next() == n2
        }),
        r matches Ok(h) ==> !old(reg)@.dom().contains(h),
{
    reg.create()
}

/// Destroys the job context behind `handle`, releasing its ports.
pub fn job_destroy(reg: &mut Registry, handle: u64) -> (r: Result<(), BridgeError>)
    requires
        old(reg).wf(),
    ensures
        final(reg).wf(),
        final(reg).spec_next() == old(reg).spec_next(),
        ({
            let (r0, m2) = spec_destroy(old(reg)@, handle);
            r == r0 && final(reg)@ == m2
        }),
{
    reg.destroy(handle)
}

/// Attaches an input byte buffer to a port of the job behind `handle`.
pub fn job_add_input_buffer(reg: &mut Registry, handle: u64, io_id: i32, bytes: Vec<u8>) -> (r:
    Result<(), BridgeError>)
    requires
        old(reg).wf(),
    ensures
        final(reg).wf(),
        final(reg).spec_next() == old(reg).spec_next(),
        ({
            let (r0, m2) = spec_dispatch_attach(
                old(reg)@,
                handle,
                io_id,
                PortView::InputBuffer(bytes@),
            );
            r == r0 && final(reg)@ == m2
        }),
{
    match reg.lookup_mut(handle) {
        None => Err(BridgeError::HandleNotFound),
        Some(job) => {
            let r = job.add_input_buffer(io_id, bytes);
            proof {
                if r is Err {
                    assert(old(reg)@.insert(handle, old(reg)@[handle]) =~= old(reg)@);
                }
            }
            r
        },
    }
}

/// Attaches an input file path to a port of the job behind `handle`.
pub fn job_add_input_file(reg: &mut Registry, handle: u64, io_id: i32, path: String) -> (r: Result<
    (),
    BridgeError,
>)
    requires
        old(reg).wf(),
    ensures
        final(reg).wf(),
        final(reg).spec_next() == old(reg).spec_next(),
        ({
            let (r0, m2) = spec_dispatch_attach(
                old(reg)@,
                handle,
                io_id,
                PortView::InputFile(path@),
            );
            r == r0 && final(reg)@ == m2
        }),
{
    match reg.lookup_mut(handle) {
        None => Err(BridgeError::HandleNotFound),
        Some(job) => {
            let r = job.add_input_file(io_id, path);
            proof {
                if r is Err {
                    assert(old(reg)@.insert(handle, old(reg)@[handle]) =~= old(reg)@);
                }
            }
            r
        },
    }
}

/// Attaches an output buffer port, to be written by the engine, to the
/// job behind `handle`.
pub fn job_add_output_buffer(reg: &mut Registry, handle: u64, io_id: i32) -> (r: Result<
    (),
    BridgeError,
>)
    requires
        old(reg).wf(),
    ensures
        final(reg).wf(),
        final(reg).spec_next() == old(reg).spec_next(),
        ({
            let (r0, m2) = spec_dispatch_attach(
                old(reg)@,
                handle,
                io_id,
                PortView::OutputBuffer(None),
            );
            r == r0 && final(reg)@ == m2
        }),
{
    match reg.lookup_mut(handle) {
        None => Err(BridgeError::HandleNotFound),
        Some(job) => {
            let r = job.add_output_buffer(io_id);
            proof {
                if r is Err {
                    assert(old(reg)@.insert(handle, old(reg)@[handle]) =~= old(reg)@);
                }
            }
            r
        },
    }
}

/// The bytes the engine produced on an output port of the job behind
/// `handle`, copied for the host. Reading consumes nothing: a second
/// read returns the same bytes.
pub fn job_get_output_buffer(reg: &Registry, handle: u64, io_id: i32) -> (r: Result<
    Vec<u8>,
    BridgeError,
>)
    requires
        reg.wf(),
    ensures
        match r {
            Ok(bytes) => spec_dispatch_get_output(reg@, handle, io_id) == Ok::<Seq<u8>, BridgeError>(
                bytes@,
            ),
            Err(e) => spec_dispatch_get_output(reg@, handle, io_id) == Err::<Seq<u8>, BridgeError>(
                e,
            ),
        },
{
    match reg.lookup(handle) {
        None => Err(BridgeError::HandleNotFound),
        Some(job) => job.get_output_buffer(io_id),
    }
}

/// Records bytes the engine collaborator produced for an output port of
/// the job behind `handle`.
pub fn job_record_output(reg: &mut Registry, handle: u64, io_id: i32, bytes: Vec<u8>) -> (r: Result<
    (),
    BridgeError,
>)
    requires
        old(reg).wf(),
    ensures
        final(reg).wf(),
        final(reg).spec_next() == old(reg).spec_next(),
        ({
            let (r0, m2) = spec_dispatch_record_output(old(reg)@, handle, io_id, bytes@);
            r == r0 && final(reg)@ == m2
        }),
{
    match reg.lookup_mut(handle) {
        None => Err(BridgeError::HandleNotFound),
        Some(job) => {
            let r = job.record_output(io_id, bytes);
            proof {
                if r is Err {
                    assert(old(reg)@.insert(handle, old(reg)@[handle]) =~= old(reg)@);
                }
            }
            r
        },
    }
}

/// The bytes behind an input-buffer port of the job behind `handle`, for
/// the engine collaborator: exactly the bytes the host attached.
pub fn job_input_bytes(reg: &Registry, handle: u64, io_id: i32) -> (r: Result<&Vec<u8>, BridgeError>)
    requires
        reg.wf(),
    ensures
        match r {
            Ok(bytes) => spec_dispatch_input_bytes(reg@, handle, io_id) == Ok::<Seq<u8>, BridgeError>(
                bytes@,
            ),
            Err(e) => spec_dispatch_input_bytes(reg@, handle, io_id) == Err::<Seq<u8>, BridgeError>(
                e,
            ),
        },
{
    match reg.lookup(handle) {
        None => Err(BridgeError::HandleNotFound),
        Some(job) => job.input_bytes(io_id),
    }
}

/// Validates a handle and yields the command to forward to the engine
/// collaborator, method and body unchanged.
pub fn job_message_begin(reg: &Registry, handle: u64, method: String, body: String) -> (r: Result<
    EngineCall,
    BridgeError,
>)
    ensures
        r == spec_message_begin(reg@, handle, method, body),
{
    if reg.contains(handle) {
        Ok(EngineCall { method, body })
    } else {
        Err(BridgeError::HandleNotFound)
    }
}

/// Folds the engine collaborator's outcome into the boundary result: its
/// response passes through unchanged, its failure becomes
/// `EngineFailure` with the engine's own detail.
pub fn job_message_complete(reg: &Registry, handle: u64, outcome: Result<String, String>) -> (r:
    Result<String, BridgeError>)
    ensures
        r == spec_message_complete(reg@, handle, outcome),
{
    if !reg.contains(handle) {
        return Err(BridgeError::HandleNotFound);
    }
    match outcome {
        Ok(response_json) => Ok(response_json),
        Err(detail) => Err(BridgeError::EngineFailure(detail)),
    }
}

} // verus!
