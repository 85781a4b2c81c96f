//! The subscribe step: a fresh connection identifier is generated and the new
//! subscriber is registered. The runtime creates and accepts the socket pair
//! before calling in, and afterwards starts the lifecycle watch that calls
//! `Registry::remove` once the subscriber's socket reports closed.

use vstd::prelude::*;

use crate::registry::Connection;
use crate::registry::Registry;

verus! {

/// Relies on `uuid::Uuid::new_v4` and `uuid::Uuid::as_u128`: a freshly
/// generated random version-4 UUID as its 128-bit value. Nothing is promised
/// of the value; the caller checks it against the registry.
#[verifier::external_body]
fn fresh_id() -> (r: u128) {
    uuid::Uuid::new_v4().as_u128()
}

/// Registers a new subscriber under a freshly generated connection
/// identifier and returns that identifier.
///
/// The identifier is random; in the negligible case that it collides with a
/// registered one, nothing changes and `None` comes back. A collision takes
/// a registered connection to collide with: on an empty registry the step
/// always succeeds.
pub fn subscribe(reg: &mut Registry, handle: u64) -> (r: Option<u128>)
    requires
        old(reg).wf(),
    ensures
        final(reg).wf(),
        old(reg).entries().len() == 0 ==> r is Some,
        r matches Some(id) ==> !old(reg).has_id(id) && final(reg).entries() == old(
            reg,
        ).entries().push((Connection { id, handle })) && final(reg).count() == old(reg).count() + 1,
        r is None ==> final(reg).entries() == old(reg).entries() && final(reg).count() == old(
            reg,
        ).count(),
{
    let id = fresh_id();
    if reg.insert(id, handle) {
        Some(id)
    } else {
        None
    }
}

} // verus!
