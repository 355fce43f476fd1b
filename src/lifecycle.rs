//! The lifecycle shared by producers and consumers of both backends:
//! created, then any number of operations, then stopped, then released.
use vstd::prelude::*;

use crate::capability::Capability;
use crate::handle::{Handle, HandleKind, NativeCall};

verus! {

/// The calls that end a producer's or consumer's life: a stop, always (stopping again is
/// harmless), then the one release.
pub open spec fn teardown_calls(kind: HandleKind, addr: u64) -> Seq<NativeCall> {
    seq![NativeCall::Stop(kind, addr), NativeCall::Release(kind, addr)]
}

/// A producer's or consumer's handle together with whether it still runs.
#[derive(Debug)]
pub struct Lifecycle {
    kind: HandleKind,
    handle: Handle,
    cap: Capability,
    live: bool,
}

impl Lifecycle {
    pub closed spec fn spec_kind(&self) -> HandleKind {
        self.kind
    }

    pub closed spec fn spec_addr(&self) -> u64 {
        self.handle.spec_addr()
    }

    pub closed spec fn spec_live(&self) -> bool {
        self.live
    }

    /// The capability the handle was had under.
    pub closed spec fn spec_cap(&self) -> Capability {
        self.cap
    }

    /// The handle is not null, and it was had where the service is present.
    pub open spec fn wf(&self) -> bool {
        self.spec_addr() != 0 && self.spec_cap().spec_available()
    }

    /// The same handle, stopped.
    pub closed spec fn spec_stopped(&self) -> Lifecycle {
        Lifecycle { kind: self.kind, handle: self.handle, cap: self.cap, live: false }
    }

    /// The call that `stop` plans: one while live, none after.
    pub open spec fn stop_call(&self) -> Option<NativeCall> {
        if self.spec_live() {
            Some(NativeCall::Stop(self.spec_kind(), self.spec_addr()))
        } else {
            None
        }
    }

    /// A query is only put to a live handle; once stopped the answer is known to be empty.
    pub open spec fn query_call(&self, call: NativeCall) -> Option<NativeCall> {
        if self.spec_live() {
            Some(call)
        } else {
            None
        }
    }

    pub open spec fn finish_calls(&self) -> Seq<NativeCall> {
        teardown_calls(self.spec_kind(), self.spec_addr())
    }

    /// A live lifecycle of a raw handle that creation returned; none where the service is
    /// absent or the handle is null.
    pub fn start(cap: &Capability, kind: HandleKind, raw: u64) -> (r: Option<Lifecycle>)
        ensures
            r is Some <==> cap.spec_available() && raw != 0,
            r matches Some(l) ==> l.wf() && l.spec_kind() == kind && l.spec_addr() == raw
                && l.spec_live(),
    {
        if !cap.is_available() {
            return None;
        }
        match Handle::from_raw(raw) {
            Some(handle) => Some(Lifecycle { kind, handle, cap: *cap, live: true }),
            None => None,
        }
    }

    pub fn addr(&self) -> (r: u64)
        ensures
            r == self.spec_addr(),
    {
        self.handle.addr()
    }

    pub fn is_live(&self) -> (r: bool)
        ensures
            r == self.spec_live(),
    {
        self.live
    }

    /// Passes a query on while live.
    pub fn query(&self, call: NativeCall) -> (r: Option<NativeCall>)
        ensures
            r == self.query_call(call),
    {
        if self.live {
            Some(call)
        } else {
            None
        }
    }

    /// Stops the handle: the first stop plans the foreign stop, later ones plan nothing and
    /// change nothing.
    pub fn stop(&mut self) -> (r: Option<NativeCall>)
        ensures
            r == old(self).stop_call(),
            *final(self) == old(self).spec_stopped(),
            !final(self).spec_live(),
            final(self).spec_addr() == old(self).spec_addr(),
            final(self).spec_kind() == old(self).spec_kind(),
            final(self).spec_cap() == old(self).spec_cap(),
    {
        if self.live {
            self.live = false;
            Some(NativeCall::Stop(self.kind, self.handle.addr()))
        } else {
            None
        }
    }

    /// Ends the handle's life: a stop first, whatever stops came before, then exactly one
    /// release.
    pub fn finish(self) -> (r: Vec<NativeCall>)
        ensures
            r@ == self.finish_calls(),
    {
        let addr = self.handle.addr();
        let mut calls: Vec<NativeCall> = Vec::new();
        calls.push(NativeCall::Stop(self.kind, addr));
        calls.push(NativeCall::Release(self.kind, addr));
        assert(calls@ =~= teardown_calls(self.kind, addr));
        calls
    }
}

/// A lifecycle after `n` stops in a row.
pub open spec fn stopped_times(l: Lifecycle, n: nat) -> Lifecycle
    decreases n,
{
    if n == 0 {
        l
    } else {
        stopped_times(l, (n - 1) as nat).spec_stopped()
    }
}

/// Stopping is idempotent: after the first stop, any number of further stops plan no call
/// and leave the lifecycle exactly as the first stop left it.
pub proof fn lemma_stop_idempotent(l: Lifecycle, n: nat)
    ensures
        stopped_times(l.spec_stopped(), n) == l.spec_stopped(),
        stopped_times(l.spec_stopped(), n).stop_call() is None,
        !l.spec_stopped().spec_live(),
        l.spec_stopped().spec_addr() == l.spec_addr(),
        l.spec_stopped().spec_kind() == l.spec_kind(),
    decreases n,
{
    if n > 0 {
        lemma_stop_idempotent(l, (n - 1) as nat);
    }
}

/// Whatever happened before, ending a lifecycle stops its handle and then releases it
/// exactly once, as the last call.
pub proof fn lemma_teardown_releases_once(l: Lifecycle)
    ensures
        l.finish_calls() == seq![
            NativeCall::Stop(l.spec_kind(), l.spec_addr()),
            NativeCall::Release(l.spec_kind(), l.spec_addr()),
        ],
        l.spec_stopped().finish_calls() == l.finish_calls(),
        l.finish_calls().last() == NativeCall::Release(l.spec_kind(), l.spec_addr()),
{
}

/// The answer to a query: what the framework reported where the query was put, and false
/// where none was planned (a stopped handle).
pub open spec fn query_answer(planned: Option<NativeCall>, reported: bool) -> bool {
    planned is Some && reported
}

/// Reads the answer to a query that `query` (or a producer's or consumer's query method)
/// planned: none planned means false, without asking the framework.
pub fn answer(planned: &Option<NativeCall>, reported: bool) -> (r: bool)
    ensures
        r == query_answer(*planned, reported),
{
    planned.is_some() && reported
}

} // verus!
