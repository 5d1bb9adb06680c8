//! Exclusive access to one transport shared by several chip drivers.
//!
//! The two chips of this board are wired to the same physical bus and are
//! polled independently, potentially from different execution contexts.
//! Without mutual exclusion, a byte sequence meant for one chip could be
//! interleaved with the other's register-select/read pair and corrupt both
//! reads. `SharedBus` owns the transport behind a verified reader-writer
//! lock and exposes one transaction — or one settle wait — per acquisition,
//! so every transaction is indivisible from the point of view of every
//! other driver, on all exit paths. No driver ever holds a reference to the
//! transport outside one such call, so the lock is never reacquired from
//! within a call already holding it.

use vstd::prelude::*;
use vstd::rwlock::RwLock;

use crate::fault::AcquisitionFault;
use crate::transport::{reply_shape, BusTransport, Segment};

verus! {

/// One transport, shared by however many drivers sit on the bus.
#[verifier::reject_recursive_types(T)]
pub struct SharedBus<T> {
    lock: RwLock<T, spec_fn(T) -> bool>,
}

impl<T> SharedBus<T> {
    /// The lock admits every transport value; nothing about the transport's
    /// own state is pinned by holding it.
    #[verifier::type_invariant]
    spec fn wf(self) -> bool {
        forall|t: T| self.lock.inv(t)
    }
}

impl<T: BusTransport> SharedBus<T> {
    /// Takes sole ownership of the transport.
    pub fn new(transport: T) -> (bus: SharedBus<T>) {
        SharedBus { lock: RwLock::new(transport, Ghost(|t: T| true)) }
    }

    /// Executes one transaction under exclusive access to the transport:
    /// no other driver's segments can interleave with `segs`.
    pub fn transfer(&self, addr: u16, segs: &Vec<Segment>) -> (r: Result<
        Vec<Vec<u8>>,
        AcquisitionFault,
    >)
        ensures
            r matches Ok(replies) ==> reply_shape(segs@, replies@),
            r matches Err(f) ==> f is TransportFault,
    {
        proof {
            use_type_invariant(self);
        }
        let (mut t, handle) = self.lock.acquire_write();
        let r = t.transfer(addr, segs);
        handle.release_write(t);
        r
    }

    /// Blocks the caller for at least `ms` milliseconds, holding the
    /// transport for the duration of the wait and releasing it afterwards.
    pub fn wait_ms(&self, ms: u64) {
        proof {
            use_type_invariant(self);
        }
        let (mut t, handle) = self.lock.acquire_write();
        t.wait_ms(ms);
        handle.release_write(t);
    }

    /// Gives the transport back, consuming the handle. Useful once every
    /// driver is done with the bus, e.g. to inspect a recording transport.
    pub fn into_transport(self) -> (t: T) {
        proof {
            use_type_invariant(&self);
        }
        self.lock.into_inner()
    }
}

} // verus!
