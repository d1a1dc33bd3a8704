//! The message schema: the four message kinds a contract accepts, shared by
//! the client and the contract.

use vstd::prelude::*;

verus! {

/// Sent exactly once per contract address, at creation. Carries no fields,
/// so constructing it always succeeds.
#[derive(Clone, Copy, Debug, PartialEq, Eq, Structural)]
pub struct InstantiateMsg {}

/// A state-changing call against a live contract. The variant set is
/// extensible; each call is an independent transaction.
#[derive(Clone, Copy, Debug, PartialEq, Eq, Structural)]
pub enum ExecuteMsg {
    EmitData {},
}

/// A read-only call. No query capability exists yet: the set of recognised
/// query payloads is empty, and no constructor is provided, so no caller
/// outside this crate can form a value of this type.
#[derive(Clone, Copy, Debug)]
pub struct QueryMsg {
    reserved: (),
}

/// Replaces the code backing a live contract without changing its address.
#[derive(Clone, Copy, Debug, PartialEq, Eq, Structural)]
pub struct MigrateMsg {}

} // verus!
