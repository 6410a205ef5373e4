//! Identifiers for blob leases: a random UUID paired with the owning
//! process's id.

use vstd::prelude::*;

verus! {

/// Relies on `uuid::Uuid::new_v4` (and `Uuid::as_u128`): a randomly
/// generated version-4 UUID.  Nothing is assumed of its value.
#[verifier::external_body]
fn fresh_uuid_v4() -> (r: u128) {
    uuid::Uuid::new_v4().as_u128()
}

/// Identifies an individual lease.
#[derive(Clone, Copy, Eq, PartialEq, Debug)]
pub struct LeaseId {
    pub uuid: u128,
    pub pid: u32,
}

impl LeaseId {
    /// A fresh lease id for the process `pid`, with a newly drawn random
    /// UUID.
    pub fn new(pid: u32) -> (r: LeaseId)
        ensures
            r.pid == pid,
    {
        LeaseId { uuid: fresh_uuid_v4(), pid }
    }

    /// The owning process's id.
    pub fn pid(&self) -> (r: u32)
        ensures
            r == self.pid,
    {
        self.pid
    }
}

} // verus!
