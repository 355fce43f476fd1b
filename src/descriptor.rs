//! Descriptions of producers, with their borrowed and owned regimes.
use vstd::prelude::*;

use crate::capability::Capability;
use crate::handle::{lemma_net_refs_append, net_refs, Handle, HandleKind, NativeCall};

verus! {

/// The metadata record (unique id, name, application name) of one producer.
///
/// A description has one of two regimes, fixed when it is made. One taken from a directory
/// snapshot is borrowed: it stays valid only until the directory refreshes and its end
/// releases nothing. One returned by a producer, or made by `clone_owned`, is owned: it
/// holds its own reference on the record, which its end gives back exactly once.
/// `retain` takes further references without changing the regime; each is given back by
/// one `release`.
#[derive(Debug)]
pub struct ServerDescription {
    handle: Handle,
    cap: Capability,
    owned: bool,
    own_held: bool,
    taken: u64,
}

impl ServerDescription {
    pub closed spec fn spec_addr(&self) -> u64 {
        self.handle.spec_addr()
    }

    /// The capability the description was had under.
    pub closed spec fn spec_cap(&self) -> Capability {
        self.cap
    }

    /// Whether this value was made owned.
    pub closed spec fn spec_is_owned(&self) -> bool {
        self.owned
    }

    /// Whether an owned value still holds its own reference, which its end gives back.
    pub closed spec fn spec_own_held(&self) -> bool {
        self.own_held
    }

    /// References taken by `retain` and not yet given back by `release`.
    pub closed spec fn spec_taken(&self) -> nat {
        self.taken as nat
    }

    /// The handle is not null, it was had where the service is present, and only an owned
    /// value holds a reference of its own.
    pub open spec fn wf(&self) -> bool {
        &&& self.spec_addr() != 0
        &&& self.spec_cap().spec_available()
        &&& self.spec_own_held() ==> self.spec_is_owned()
    }

    /// The owned description that `clone_owned` makes of this one.
    pub closed spec fn spec_clone(&self) -> ServerDescription {
        ServerDescription { handle: self.handle, cap: self.cap, owned: true, own_held: true, taken: 0 }
    }

    /// The calls that end this value's life: the release of its own reference, if it holds
    /// one.
    pub open spec fn finish_calls(&self) -> Seq<NativeCall> {
        if self.spec_own_held() {
            seq![NativeCall::Release(HandleKind::Description, self.spec_addr())]
        } else {
            Seq::empty()
        }
    }

    /// A borrowed description of a raw handle from a directory snapshot; none where the
    /// service is absent or the handle is null.
    pub fn borrowed(cap: &Capability, raw: u64) -> (r: Option<ServerDescription>)
        ensures
            r is Some <==> cap.spec_available() && raw != 0,
            r matches Some(d) ==> d.wf() && d.spec_addr() == raw && !d.spec_is_owned()
                && !d.spec_own_held() && d.spec_taken() == 0,
    {
        if !cap.is_available() {
            return None;
        }
        match Handle::from_raw(raw) {
            Some(handle) => Some(ServerDescription { handle, cap: *cap, owned: false, own_held: false, taken: 0 }),
            None => None,
        }
    }

    /// An owned description of a raw handle that the framework returned already retained;
    /// none where the service is absent or the handle is null.
    pub fn owned(cap: &Capability, raw: u64) -> (r: Option<ServerDescription>)
        ensures
            r is Some <==> cap.spec_available() && raw != 0,
            r matches Some(d) ==> d.wf() && d.spec_addr() == raw && d.spec_is_owned()
                && d.spec_own_held() && d.spec_taken() == 0,
    {
        if !cap.is_available() {
            return None;
        }
        match Handle::from_raw(raw) {
            Some(handle) => Some(ServerDescription { handle, cap: *cap, owned: true, own_held: true, taken: 0 }),
            None => None,
        }
    }

    /// The raw handle, to hand to the framework.
    pub fn addr(&self) -> (r: u64)
        ensures
            r == self.spec_addr(),
    {
        self.handle.addr()
    }

    /// References taken by `retain` that are still to be given back by `release`.
    pub fn taken(&self) -> (r: u64)
        ensures
            r == self.spec_taken(),
    {
        self.taken
    }

    /// Whether this value was made owned.
    pub fn is_owned(&self) -> (r: bool)
        ensures
            r == self.spec_is_owned(),
    {
        self.owned
    }

    /// The call that copies the record's unique id.
    pub fn uuid(&self) -> (r: NativeCall)
        ensures
            r == NativeCall::CopyUuid(self.spec_addr()),
    {
        NativeCall::CopyUuid(self.handle.addr())
    }

    /// The call that copies the record's human-readable name.
    pub fn name(&self) -> (r: NativeCall)
        ensures
            r == NativeCall::CopyName(self.spec_addr()),
    {
        NativeCall::CopyName(self.handle.addr())
    }

    /// The call that copies the name of the application hosting the producer.
    pub fn app_name(&self) -> (r: NativeCall)
        ensures
            r == NativeCall::CopyAppName(self.spec_addr()),
    {
        NativeCall::CopyAppName(self.handle.addr())
    }

    /// Takes one more reference on the record, so that it stays valid after the directory
    /// refreshes. The regime stays as it is and so does what the end of this value gives
    /// back: the reference is given back by one `release`.
    pub fn retain(&mut self) -> (r: NativeCall)
        requires
            old(self).spec_taken() < u64::MAX,
        ensures
            r == NativeCall::Retain(old(self).spec_addr()),
            final(self).spec_addr() == old(self).spec_addr(),
            final(self).wf() == old(self).wf(),
            final(self).spec_is_owned() == old(self).spec_is_owned(),
            final(self).spec_own_held() == old(self).spec_own_held(),
            final(self).finish_calls() == old(self).finish_calls(),
            final(self).spec_taken() == old(self).spec_taken() + 1,
    {
        self.taken = self.taken + 1;
        NativeCall::Retain(self.handle.addr())
    }

    /// Gives back one reference: first one taken by `retain`, else an owned value's own
    /// reference, which its end then no longer releases. A value that holds none (a
    /// borrowed description never retained) is left as it is and no call is made:
    /// releasing what was never retained is refused rather than passed on.
    pub fn release(&mut self) -> (r: Option<NativeCall>)
        ensures
            final(self).spec_addr() == old(self).spec_addr(),
            old(self).wf() ==> final(self).wf(),
            final(self).spec_is_owned() == old(self).spec_is_owned(),
            old(self).spec_taken() > 0 ==> r == Some(
                NativeCall::Release(HandleKind::Description, old(self).spec_addr()),
            ) && final(self).spec_taken() == old(self).spec_taken() - 1
                && final(self).spec_own_held() == old(self).spec_own_held(),
            old(self).spec_taken() == 0 && old(self).spec_own_held() ==> r == Some(
                NativeCall::Release(HandleKind::Description, old(self).spec_addr()),
            ) && final(self).spec_taken() == 0 && !final(self).spec_own_held(),
            old(self).spec_taken() == 0 && !old(self).spec_own_held() ==> r is None
                && final(self).spec_taken() == 0 && !final(self).spec_own_held(),
    {
        if self.taken > 0 {
            self.taken = self.taken - 1;
            Some(NativeCall::Release(HandleKind::Description, self.handle.addr()))
        } else if self.own_held {
            self.own_held = false;
            Some(NativeCall::Release(HandleKind::Description, self.handle.addr()))
        } else {
            None
        }
    }

    /// An owned description of the same record, whatever this one's regime: it retains the
    /// record, so it outlives both this value and the next directory refresh.
    pub fn clone_owned(&self) -> (r: (ServerDescription, NativeCall))
        ensures
            r.0 == self.spec_clone(),
            self.wf() ==> r.0.wf(),
            r.0.spec_addr() == self.spec_addr(),
            r.0.spec_is_owned(),
            r.0.spec_own_held(),
            r.0.spec_taken() == 0,
            r.1 == NativeCall::Retain(self.spec_addr()),
    {
        (
            ServerDescription { handle: self.handle, cap: self.cap, owned: true, own_held: true, taken: 0 },
            NativeCall::Retain(self.handle.addr()),
        )
    }

    /// Ends this value's life: one release where it holds its own reference (an owned
    /// value not released by hand), none for a borrowed description. Every reference taken
    /// by `retain` must have been given back by its `release` first.
    pub fn finish(self) -> (r: Vec<NativeCall>)
        requires
            self.spec_taken() == 0,
        ensures
            r@ == self.finish_calls(),
    {
        let mut calls: Vec<NativeCall> = Vec::new();
        if self.own_held {
            calls.push(NativeCall::Release(HandleKind::Description, self.handle.addr()));
            assert(calls@ =~= self.finish_calls());
        } else {
            assert(calls@ =~= self.finish_calls());
        }
        calls
    }
}

/// The references a description's own end gives back: one where it holds its own.
pub open spec fn own_refs(d: &ServerDescription) -> int {
    if d.spec_own_held() {
        1
    } else {
        0
    }
}

/// Ending a description gives back exactly its own reference, by one release of that
/// record: an owned one releases once, a borrowed one never.
pub proof fn lemma_finish_balances(d: &ServerDescription)
    requires
        d.wf(),
    ensures
        net_refs(d.finish_calls(), d.spec_addr()) == -own_refs(d),
        d.finish_calls().len() == own_refs(d),
        forall|i: int|
            0 <= i < d.finish_calls().len() ==> #[trigger] d.finish_calls()[i] == NativeCall::Release(
                HandleKind::Description,
                d.spec_addr(),
            ),
        !d.spec_is_owned() ==> d.finish_calls().len() == 0,
{
    let addr = d.spec_addr();
    let release = NativeCall::Release(HandleKind::Description, addr);
    assert(net_refs(Seq::<NativeCall>::empty(), addr) == 0);
    if d.spec_own_held() {
        assert(seq![release].drop_last() =~= Seq::<NativeCall>::empty());
        assert(seq![release].last() == release);
    }
}

/// A clone reads its fields from the very record its source reads them from, and it keeps
/// that record alive on its own: once the clone was made and the source has ended, the
/// references left from both are exactly the one the clone holds, which it gives back when
/// it ends in turn.
pub proof fn lemma_clone_outlives_source(d: &ServerDescription)
    requires
        d.wf(),
    ensures
        d.spec_clone().spec_addr() == d.spec_addr(),
        d.spec_clone().wf(),
        own_refs(d) + net_refs(
            seq![NativeCall::Retain(d.spec_addr())] + d.finish_calls(),
            d.spec_addr(),
        ) == own_refs(&d.spec_clone()),
        own_refs(&d.spec_clone()) == 1,
        d.spec_clone().spec_is_owned(),
        net_refs(d.spec_clone().finish_calls(), d.spec_addr()) == -1,
{
    let call = NativeCall::Retain(d.spec_addr());
    lemma_finish_balances(d);
    lemma_net_refs_append(seq![call], d.finish_calls(), d.spec_addr());
    assert(seq![call].drop_last() =~= Seq::<NativeCall>::empty());
    assert(seq![call].last() == call);
    assert(net_refs(Seq::<NativeCall>::empty(), d.spec_addr()) == 0);
    assert(net_refs(seq![call], d.spec_addr()) == 1);
    lemma_finish_balances(&d.spec_clone());
}

/// A borrowed description promoted by cloning survives a directory refresh: the borrowed
/// one never releases the record, and the promoted copy holds the one reference on it.
pub proof fn lemma_promoted_survives_refresh(d: &ServerDescription)
    requires
        d.wf(),
        !d.spec_is_owned(),
    ensures
        d.finish_calls().len() == 0,
        d.spec_clone().spec_is_owned(),
        d.spec_clone().spec_addr() == d.spec_addr(),
        net_refs(seq![NativeCall::Retain(d.spec_addr())] + d.finish_calls(), d.spec_addr()) == 1,
{
    lemma_clone_outlives_source(d);
}

} // verus!
