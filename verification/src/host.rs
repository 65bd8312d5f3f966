//! The host side of the call boundary, as the guest sees it.

use vstd::prelude::*;

verus! {

/// The capability a host must supply before the guest can run: the one
/// function the guest imports. At the binary boundary it is resolved by name,
/// as `host_log` under the import namespace `env`; here it is passed in
/// explicitly, so a caller that supplies no implementation cannot reach the
/// guest's entry point at all.
pub trait HostLog {
    /// The values this host has been handed so far, oldest first. A host that
    /// is reasoned about overrides this with its real call log; a host that
    /// lives outside the verifier's view (an opaque runtime across the binary
    /// boundary) can leave the default in place, since nothing is proved
    /// about it.
    open spec fn log(&self) -> Seq<i32> {
        Seq::empty()
    }

    /// A one-way, fire-and-forget notification: the guest hands the host one
    /// 32-bit value and learns nothing back. The only observable effect is
    /// that the value is appended to the host's call log.
    fn host_log(&mut self, x: i32)
        ensures
            final(self).log() == old(self).log().push(x),
    ;
}

/// An in-memory host that records every value it is notified of. It serves as
/// a conformant host for exercising the guest without a runtime around it.
pub struct RecordingHost {
    entries: Vec<i32>,
}

impl RecordingHost {
    /// A fresh host that has been notified of nothing.
    pub fn new() -> (h: RecordingHost)
        ensures
            h.log() == Seq::<i32>::empty(),
    {
        RecordingHost { entries: Vec::new() }
    }

    /// The recorded values, oldest first.
    pub fn values(&self) -> (v: &Vec<i32>)
        ensures
            v@ == self.log(),
    {
        &self.entries
    }
}

impl HostLog for RecordingHost {
    closed spec fn log(&self) -> Seq<i32> {
        self.entries@
    }

    fn host_log(&mut self, x: i32) {
        self.entries.push(x);
    }
}

} // verus!
