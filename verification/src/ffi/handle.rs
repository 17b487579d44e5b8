//! The reference through which one engine instance is reached.

use vstd::prelude::*;

verus! {

/// A reference to an engine instance: the address the engine gave when it was
/// opened. The engine owns what lies behind it; this library only carries the
/// address from the open call to the close call. It is never null.
#[derive(Copy, Clone, Eq, PartialEq, Structural, Ord, PartialOrd, Hash, Debug)]
pub struct KsHandle {
    addr: usize,
}

impl View for KsHandle {
    type V = usize;

    closed spec fn view(&self) -> usize {
        self.addr
    }
}

impl KsHandle {
    #[verifier::type_invariant]
    spec fn non_null(&self) -> bool {
        self.addr != 0
    }

    /// The handle at `addr`, or `None` for the null address.
    pub fn new(addr: usize) -> (handle: Option<KsHandle>)
        ensures
            addr == 0 ==> handle is None,
            addr != 0 ==> handle is Some && handle->0@ == addr,
    {
        if addr == 0 {
            None
        } else {
            Some(KsHandle { addr })
        }
    }

    /// The address of the engine instance, which is not null.
    pub fn addr(&self) -> (addr: usize)
        ensures
            addr == self@,
            addr != 0,
    {
        proof {
            use_type_invariant(self);
        }
        self.addr
    }
}

} // verus!
