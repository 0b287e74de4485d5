//! System-wide laws of the bridge core, proved over the dispatch models.
//!
//! The dispatch operations' contracts equate each executable operation
//! with a specification-level model; this module states and proves what
//! holds of those models across whole operation sequences: the registry's
//! accounting of handles, the fate of a destroyed handle, the
//! once-per-id port binding rule, the output port lifecycle, the
//! independence of distinct handles, and the byte-for-byte transparency
//! of the data handed to the engine collaborator.

use vstd::prelude::*;

use crate::dispatch::spec_create;
use crate::dispatch::spec_destroy;
use crate::dispatch::spec_dispatch_attach;
use crate::dispatch::spec_dispatch_get_output;
use crate::dispatch::spec_dispatch_input_bytes;
use crate::dispatch::spec_dispatch_record_output;
use crate::dispatch::spec_message_begin;
use crate::dispatch::spec_message_complete;
use crate::dispatch::EngineCall;
use crate::errors::BridgeError;
use crate::ports::PortView;
use crate::registry::RegView;

verus! {

/// One record of the registry's history: a create that issued a handle,
/// or a destroy that revoked one.
pub enum RegistryEvent {
    Created(u64),
    Destroyed(u64),
}

/// The handle an event concerns.
pub open spec fn event_handle(e: RegistryEvent) -> u64 {
    match e {
        RegistryEvent::Created(h) => h,
        RegistryEvent::Destroyed(h) => h,
    }
}

/// Whether the event is a create.
pub open spec fn is_created(e: RegistryEvent) -> bool {
    match e {
        RegistryEvent::Created(_) => true,
        RegistryEvent::Destroyed(_) => false,
    }
}

/// What one event does to the registry's abstraction. A create inserts a
/// job with an empty port table, exactly as `spec_create` does on its
/// issued handle; a destroy removes the mapping, exactly as
/// `spec_destroy` does on a live handle.
pub open spec fn apply_event(m: RegView, e: RegistryEvent) -> RegView {
    match e {
        RegistryEvent::Created(h) => m.insert(h, Map::<i32, PortView>::empty()),
        RegistryEvent::Destroyed(h) => m.remove(h),
    }
}

/// A whole history of events, applied in order.
pub open spec fn apply_events(m: RegView, s: Seq<RegistryEvent>) -> RegView
    decreases s.len(),
{
    if s.len() == 0 {
        m
    } else {
        apply_event(apply_events(m, s.drop_last()), s.last())
    }
}

/// Whether the history creates `h`.
pub open spec fn created_in(s: Seq<RegistryEvent>, h: u64) -> bool {
    exists|i: int| 0 <= i < s.len() && is_created(s[i]) && event_handle(s[i]) == h
}

/// Whether the history destroys `h`.
pub open spec fn destroyed_in(s: Seq<RegistryEvent>, h: u64) -> bool {
    exists|i: int| 0 <= i < s.len() && !is_created(s[i]) && event_handle(s[i]) == h
}

/// The histories the registry can produce, however many callers
/// interleave: every create issues a fresh handle (handles are never
/// recycled), and a destroy only ever revokes a handle that was issued,
/// at most once.
pub open spec fn wf_history(s: Seq<RegistryEvent>) -> bool {
    &&& (forall|i: int, j: int|
        #![trigger s[i], s[j]]
        0 <= i < j < s.len() && is_created(s[i]) && is_created(s[j]) ==> event_handle(s[i])
            != event_handle(s[j]))
    &&& (forall|i: int, j: int|
        #![trigger s[i], s[j]]
        0 <= i < j < s.len() && !is_created(s[i]) && !is_created(s[j]) ==> event_handle(s[i])
            != event_handle(s[j]))
    &&& (forall|j: int|
        0 <= j < s.len() && !is_created(#[trigger] s[j]) ==> exists|i: int|
            0 <= i < j && is_created(#[trigger] s[i]) && event_handle(s[i]) == event_handle(s[j]))
}

/// A history extended by an event that does not create `h` creates `h`
/// exactly when its prefix does.
proof fn lemma_created_in_step(s: Seq<RegistryEvent>, h: u64)
    requires
        s.len() > 0,
        !(is_created(s.last()) && event_handle(s.last()) == h),
    ensures
        created_in(s, h) <==> created_in(s.drop_last(), h),
{
    let dl = s.drop_last();
    if created_in(s, h) {
        let i = choose|i: int| 0 <= i < s.len() && is_created(s[i]) && event_handle(s[i]) == h;
        assert(i < s.len() - 1);
        assert(dl[i] == s[i]);
    }
    if created_in(dl, h) {
        let i = choose|i: int| 0 <= i < dl.len() && is_created(dl[i]) && event_handle(dl[i]) == h;
        assert(s[i] == dl[i]);
    }
}

/// A history extended by an event that does not destroy `h` destroys `h`
/// exactly when its prefix does.
proof fn lemma_destroyed_in_step(s: Seq<RegistryEvent>, h: u64)
    requires
        s.len() > 0,
        !(!is_created(s.last()) && event_handle(s.last()) == h),
    ensures
        destroyed_in(s, h) <==> destroyed_in(s.drop_last(), h),
{
    let dl = s.drop_last();
    if destroyed_in(s, h) {
        let i = choose|i: int| 0 <= i < s.len() && !is_created(s[i]) && event_handle(s[i]) == h;
        assert(i < s.len() - 1);
        assert(dl[i] == s[i]);
    }
    if destroyed_in(dl, h) {
        let i = choose|i: int|
            0 <= i < dl.len() && !is_created(dl[i]) && event_handle(dl[i]) == h;
        assert(s[i] == dl[i]);
    }
}

/// A prefix of a well-formed history is well formed.
proof fn lemma_wf_history_prefix(s: Seq<RegistryEvent>)
    requires
        wf_history(s),
        s.len() > 0,
    ensures
        wf_history(s.drop_last()),
{
    let dl = s.drop_last();
    assert forall|i: int, j: int|
        #![trigger dl[i], dl[j]]
        0 <= i < j < dl.len() && is_created(dl[i]) && is_created(dl[j]) implies event_handle(
        dl[i],
    ) != event_handle(dl[j]) by {
        assert(dl[i] == s[i] && dl[j] == s[j]);
    }
    assert forall|i: int, j: int|
        #![trigger dl[i], dl[j]]
        0 <= i < j < dl.len() && !is_created(dl[i]) && !is_created(dl[j]) implies event_handle(
        dl[i],
    ) != event_handle(dl[j]) by {
        assert(dl[i] == s[i] && dl[j] == s[j]);
    }
    assert forall|j: int| 0 <= j < dl.len() && !is_created(#[trigger] dl[j]) implies exists|i: int|
        0 <= i < j && is_created(#[trigger] dl[i]) && event_handle(dl[i]) == event_handle(
        dl[j],
    ) by {
        assert(dl[j] == s[j]);
        let i = choose|i: int|
            0 <= i < j && is_created(#[trigger] s[i]) && event_handle(s[i]) == event_handle(s[j]);
        assert(dl[i] == s[i]);
        assert(0 <= i < j && is_created(dl[i]) && event_handle(dl[i]) == event_handle(dl[j]));
    }
}

/// However create and destroy calls from any number of callers
/// interleave, the registry holds exactly the handles created and not
/// yet destroyed: none is lost, none is duplicated, none survives its
/// destroy. Starting from the documented initial state (empty), a handle
/// is live after a well-formed history exactly when the history created
/// it and did not destroy it.
pub proof fn lemma_registry_accounting(s: Seq<RegistryEvent>, h: u64)
    requires
        wf_history(s),
    ensures
        apply_events(Map::<u64, Map<i32, PortView>>::empty(), s).dom().contains(h) <==> (created_in(
            s,
            h,
        ) && !destroyed_in(s, h)),
    decreases s.len(),
{
    let empty = Map::<u64, Map<i32, PortView>>::empty();
    if s.len() == 0 {
        assert(!created_in(s, h));
    } else {
        let dl = s.drop_last();
        let last = s.last();
        lemma_wf_history_prefix(s);
        lemma_registry_accounting(dl, h);
        let m1 = apply_events(empty, dl);
        match last {
            RegistryEvent::Created(h2) => {
                if h2 == h {
                    assert(is_created(s[s.len() - 1]) && event_handle(s[s.len() - 1]) == h);
                    assert(created_in(s, h));
                    assert(!destroyed_in(s, h)) by {
                        if destroyed_in(s, h) {
                            let j = choose|j: int|
                                0 <= j < s.len() && !is_created(s[j]) && event_handle(s[j]) == h;
                            assert(j < s.len() - 1);
                            let i = choose|i: int|
                                0 <= i < j && is_created(#[trigger] s[i]) && event_handle(s[i])
                                    == event_handle(s[j]);
                            assert(event_handle(s[i]) != event_handle(s[s.len() - 1]));
                            assert(false);
                        }
                    }
                } else {
                    lemma_created_in_step(s, h);
                    lemma_destroyed_in_step(s, h);
                }
            },
            RegistryEvent::Destroyed(h2) => {
                if h2 == h {
                    assert(!is_created(s[s.len() - 1]) && event_handle(s[s.len() - 1]) == h);
                    assert(destroyed_in(s, h));
                } else {
                    lemma_created_in_step(s, h);
                    lemma_destroyed_in_step(s, h);
                }
            },
        }
    }
}

/// A successful create changes the registry exactly as its event does.
pub proof fn lemma_create_matches_event(m: RegView, next: u64)
    requires
        next < u64::MAX,
    ensures
        spec_create(m, next).1 == apply_event(m, RegistryEvent::Created(next)),
{
}

/// A successful destroy changes the registry exactly as its event does.
pub proof fn lemma_destroy_matches_event(m: RegView, h: u64)
    requires
        m.dom().contains(h),
    ensures
        spec_destroy(m, h).1 == apply_event(m, RegistryEvent::Destroyed(h)),
{
}

/// After a destroy of `h`, every operation on `h` reports
/// `HandleNotFound` and changes nothing, the destroyed handle first of
/// all: a second destroy finds nothing.
pub proof fn lemma_destroyed_handle_rejected(
    m: RegView,
    h: u64,
    id: i32,
    port: PortView,
    bytes: Seq<u8>,
    method: String,
    body: String,
    outcome: Result<String, String>,
)
    ensures
        ({
            let m1 = spec_destroy(m, h).1;
            &&& !m1.dom().contains(h)
            &&& spec_destroy(m1, h) == (Err::<(), BridgeError>(BridgeError::HandleNotFound), m1)
            &&& spec_dispatch_attach(m1, h, id, port) == (
                Err::<(), BridgeError>(BridgeError::HandleNotFound),
                m1,
            )
            &&& spec_dispatch_get_output(m1, h, id) == Err::<Seq<u8>, BridgeError>(
                BridgeError::HandleNotFound,
            )
            &&& spec_dispatch_record_output(m1, h, id, bytes) == (
                Err::<(), BridgeError>(BridgeError::HandleNotFound),
                m1,
            )
            &&& spec_dispatch_input_bytes(m1, h, id) == Err::<Seq<u8>, BridgeError>(
                BridgeError::HandleNotFound,
            )
            &&& spec_message_begin(m1, h, method, body) == Err::<EngineCall, BridgeError>(
                BridgeError::HandleNotFound,
            )
            &&& spec_message_complete(m1, h, outcome) == Err::<String, BridgeError>(
                BridgeError::HandleNotFound,
            )
        }),
{
}

/// Attaching two ports with the same id to the same job, whatever the
/// two variants, fails the second time with `PortAlreadyBound`, and the
/// job keeps the first binding.
pub proof fn lemma_rebind_rejected(m: RegView, h: u64, id: i32, first: PortView, second: PortView)
    requires
        spec_dispatch_attach(m, h, id, first).0 is Ok,
    ensures
        ({
            let m1 = spec_dispatch_attach(m, h, id, first).1;
            &&& spec_dispatch_attach(m1, h, id, second) == (
                Err::<(), BridgeError>(BridgeError::PortAlreadyBound),
                m1,
            )
            &&& m1[h][id] == first
        }),
{
}

/// The output port lifecycle: attaching an output port succeeds on an
/// unused id; reading it before the engine wrote it is `OutputNotReady`,
/// never silently empty bytes; after exactly one producing write it
/// yields exactly the produced bytes. Reading is a function of the
/// registry state and mutates nothing, so a second read yields the same
/// bytes again.
pub proof fn lemma_output_lifecycle(m: RegView, h: u64, id: i32, bytes: Seq<u8>)
    requires
        m.dom().contains(h),
        !m[h].dom().contains(id),
    ensures
        ({
            let (attached_r, m1) = spec_dispatch_attach(m, h, id, PortView::OutputBuffer(None));
            let (written_r, m2) = spec_dispatch_record_output(m1, h, id, bytes);
            &&& attached_r is Ok
            &&& spec_dispatch_get_output(m1, h, id) == Err::<Seq<u8>, BridgeError>(
                BridgeError::OutputNotReady,
            )
            &&& written_r is Ok
            &&& spec_dispatch_get_output(m2, h, id) == Ok::<Seq<u8>, BridgeError>(bytes)
        }),
{
}

/// Two creates issue distinct handles, and destroying the first leaves
/// the second's job exactly as it was: jobs under different handles are
/// fully independent.
pub proof fn lemma_creates_distinct(m: RegView, next: u64)
    requires
        next + 1 < u64::MAX,
    ensures
        ({
            let (first_r, m1, next1) = spec_create(m, next);
            let (second_r, m2, next2) = spec_create(m1, next1);
            &&& first_r is Ok && second_r is Ok
            &&& first_r->Ok_0 != second_r->Ok_0
            &&& ({
                let (destroy_r, m3) = spec_destroy(m2, first_r->Ok_0);
                &&& destroy_r is Ok
                &&& m3.dom().contains(second_r->Ok_0)
                &&& m3[second_r->Ok_0] == m2[second_r->Ok_0]
            })
        }),
{
}

/// No operation on one handle touches another handle's job: whether the
/// other handle is live, and what its job holds, are exactly as before.
pub proof fn lemma_handles_independent(
    m: RegView,
    h: u64,
    other: u64,
    id: i32,
    port: PortView,
    bytes: Seq<u8>,
)
    requires
        h != other,
    ensures
        ({
            let m1 = spec_dispatch_attach(m, h, id, port).1;
            m1.dom().contains(other) == m.dom().contains(other) && (m.dom().contains(other)
                ==> m1[other] == m[other])
        }),
        ({
            let m1 = spec_dispatch_record_output(m, h, id, bytes).1;
            m1.dom().contains(other) == m.dom().contains(other) && (m.dom().contains(other)
                ==> m1[other] == m[other])
        }),
        ({
            let m1 = spec_destroy(m, h).1;
            m1.dom().contains(other) == m.dom().contains(other) && (m.dom().contains(other)
                ==> m1[other] == m[other])
        }),
        ({
            let m1 = spec_create(m, h).1;
            m1.dom().contains(other) == m.dom().contains(other) && (m.dom().contains(other)
                ==> m1[other] == m[other])
        }),
{
}

/// The bytes the host attaches to an input port are, byte for byte, the
/// bytes the engine collaborator reads from it: no transcoding anywhere
/// between the two.
pub proof fn lemma_input_round_trip(m: RegView, h: u64, id: i32, bytes: Seq<u8>)
    requires
        m.dom().contains(h),
        !m[h].dom().contains(id),
    ensures
        ({
            let (attached_r, m1) = spec_dispatch_attach(m, h, id, PortView::InputBuffer(bytes));
            &&& attached_r is Ok
            &&& spec_dispatch_input_bytes(m1, h, id) == Ok::<Seq<u8>, BridgeError>(bytes)
        }),
{
}

} // verus!
