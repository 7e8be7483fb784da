//! Graph identities: 128-bit values derived from a stable name.

use vstd::prelude::*;

verus! {

/// The 128-bit value of the name-based (version 5) UUID of `name` in the
/// ISO OID namespace.
pub uninterp spec fn oid_name_identity(name: Seq<char>) -> u128;

/// Relies on `uuid::Uuid::new_v5` with `Uuid::NAMESPACE_OID`, read back with
/// `Uuid::as_u128`: the result is a function of the name's bytes alone.
#[verifier::external_body]
fn uuid_v5_of_name(name: &str) -> (r: u128)
    ensures
        r == oid_name_identity(name@),
{
    uuid::Uuid::new_v5(&uuid::Uuid::NAMESPACE_OID, name.as_bytes()).as_u128()
}

/// The identity of the graph constructor with the stable name `name`.
///
/// Equal names give equal identities; this is the default identity of a
/// graph constructor, derived from its type's name.
pub fn graph_identity(name: &str) -> (r: u128)
    ensures
        r == oid_name_identity(name@),
{
    uuid_v5_of_name(name)
}

} // verus!
