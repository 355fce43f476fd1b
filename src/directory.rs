//! The process-wide directory of producers and its snapshots.
use vstd::prelude::*;

use crate::descriptor::ServerDescription;
use crate::capability::Capability;
use crate::handle::{Handle, NativeCall};

verus! {

/// The non-null raw handles of a snapshot, in index order.
pub open spec fn non_null(raws: Seq<u64>) -> Seq<u64>
    decreases raws.len(),
{
    if raws.len() == 0 {
        Seq::empty()
    } else if raws.last() == 0 {
        non_null(raws.drop_last())
    } else {
        non_null(raws.drop_last()).push(raws.last())
    }
}

/// Where no handle is null, all of them remain.
pub proof fn lemma_non_null_all(raws: Seq<u64>)
    requires
        forall|i: int| 0 <= i < raws.len() ==> #[trigger] raws[i] != 0,
    ensures
        non_null(raws) == raws,
    decreases raws.len(),
{
    if raws.len() > 0 {
        lemma_non_null_all(raws.drop_last());
        assert(raws.drop_last().push(raws.last()) =~= raws);
    } else {
        assert(raws =~= Seq::<u64>::empty());
    }
}

/// The requests that read a snapshot: one per index below the count.
pub open spec fn snapshot_calls(addr: u64, count: nat) -> Seq<NativeCall> {
    Seq::new(count, |i: int| NativeCall::DirectoryAt(addr, i as usize))
}

/// The framework-maintained registry of active producers. It lives as long as the process
/// and is never released by this layer.
#[derive(Debug)]
pub struct ServerDirectory {
    handle: Handle,
    cap: Capability,
}

impl ServerDirectory {
    pub closed spec fn spec_addr(&self) -> u64 {
        self.handle.spec_addr()
    }

    /// The capability the directory was had under.
    pub closed spec fn spec_cap(&self) -> Capability {
        self.cap
    }

    /// The handle is not null, and the directory was had where the service is present.
    pub open spec fn wf(&self) -> bool {
        self.spec_addr() != 0 && self.spec_cap().spec_available()
    }

    /// The request for the shared directory; none where the service is absent.
    pub fn shared_request(cap: &Capability) -> (r: Option<NativeCall>)
        ensures
            r == (if cap.spec_available() { Some(NativeCall::DirectoryShared) } else { None::<NativeCall> }),
    {
        cap.permit(NativeCall::DirectoryShared)
    }

    /// The shared directory the framework returned (`raw`); none where the service is
    /// absent or the framework returned null.
    pub fn shared(cap: &Capability, raw: u64) -> (r: Option<ServerDirectory>)
        ensures
            r is Some <==> cap.spec_available() && raw != 0,
            r matches Some(d) ==> d.wf() && d.spec_addr() == raw,
    {
        if !cap.is_available() {
            return None;
        }
        match Handle::from_raw(raw) {
            Some(handle) => Some(ServerDirectory { handle, cap: *cap }),
            None => None,
        }
    }

    pub fn addr(&self) -> (r: u64)
        ensures
            r == self.spec_addr(),
    {
        self.handle.addr()
    }

    /// The request for the number of producers known now.
    pub fn servers_count(&self) -> (r: NativeCall)
        requires
            self.wf(),
        ensures
            r == NativeCall::DirectoryCount(self.spec_addr()),
    {
        NativeCall::DirectoryCount(self.handle.addr())
    }

    /// The request for the borrowed description at `index` of a directory that counted
    /// `count` producers; none out of range.
    pub fn server_at_index(&self, index: usize, count: usize) -> (r: Option<NativeCall>)
        requires
            self.wf(),
        ensures
            r == (if index < count {
                Some(NativeCall::DirectoryAt(self.spec_addr(), index))
            } else {
                None::<NativeCall>
            }),
    {
        if index < count {
            Some(NativeCall::DirectoryAt(self.handle.addr(), index))
        } else {
            None
        }
    }

    /// The requests that take a snapshot of `count` producers, indices `0..count` in order.
    pub fn snapshot_requests(&self, count: usize) -> (r: Vec<NativeCall>)
        requires
            self.wf(),
        ensures
            r@ == snapshot_calls(self.spec_addr(), count as nat),
    {
        let addr = self.handle.addr();
        let mut calls: Vec<NativeCall> = Vec::new();
        let mut i: usize = 0;
        while i < count
            invariant
                i <= count,
                addr == self.spec_addr(),
                calls@ == snapshot_calls(addr, i as nat),
            decreases count - i,
        {
            calls.push(NativeCall::DirectoryAt(addr, i));
            i = i + 1;
            assert(calls@ =~= snapshot_calls(addr, i as nat));
        }
        calls
    }

    /// The snapshot: the borrowed descriptions of the framework's answers to
    /// `snapshot_requests`, in index order, leaving out null answers. They hold no
    /// reference and stay valid only until the directory refreshes.
    pub fn servers(&self, raws: &Vec<u64>) -> (r: Vec<ServerDescription>)
        requires
            self.wf(),
        ensures
            r@.len() == non_null(raws@).len(),
            forall|i: int|
                0 <= i < r@.len() ==> (#[trigger] r@[i]).wf() && r@[i].spec_addr() == non_null(
                    raws@,
                )[i] && !r@[i].spec_is_owned() && !r@[i].spec_own_held()
                    && r@[i].spec_taken() == 0,
            (forall|i: int| 0 <= i < raws@.len() ==> #[trigger] raws@[i] != 0) ==> r@.len()
                == raws@.len(),
    {
        let mut out: Vec<ServerDescription> = Vec::new();
        let mut i: usize = 0;
        while i < raws.len()
            invariant
                i <= raws@.len(),
                out@.len() == non_null(raws@.subrange(0, i as int)).len(),
                forall|k: int|
                    0 <= k < out@.len() ==> (#[trigger] out@[k]).wf() && out@[k].spec_addr()
                        == non_null(raws@.subrange(0, i as int))[k] && !out@[k].spec_is_owned()
                        && !out@[k].spec_own_held() && out@[k].spec_taken() == 0,
                self.wf(),
            decreases raws@.len() - i,
        {
            let raw = raws[i];
            let ghost before = raws@.subrange(0, i as int);
            assert(raws@.subrange(0, i as int + 1).drop_last() =~= before);
            match ServerDescription::borrowed(&self.cap, raw) {
                Some(d) => {
                    out.push(d);
                },
                None => {},
            }
            i = i + 1;
        }
        assert(raws@.subrange(0, raws@.len() as int) =~= raws@);
        proof {
            if forall|k: int| 0 <= k < raws@.len() ==> #[trigger] raws@[k] != 0 {
                lemma_non_null_all(raws@);
            }
        }
        out
    }
}

} // verus!
