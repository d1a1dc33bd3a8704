//! The contract's entry points: how the deployed program reacts to each of
//! the four message kinds. The handlers read nothing from the ambient chain
//! context (funds, caller, block, store), so they take the message alone.

use vstd::prelude::*;

use crate::msg::ExecuteMsg;
use crate::msg::InstantiateMsg;
use crate::msg::MigrateMsg;
use crate::msg::QueryMsg;
use crate::response::QueryResponse;
use crate::response::Response;
use crate::wire;

verus! {

/// Free-form reason a handler may refuse to process a message. The chain
/// runtime treats any returned error as "abort this transaction".
pub type ContractError = String;

/// The value the execute handler emits in its data payload.
pub const EMIT_DATA_VALUE: u64 = 1;

/// The handler succeeded and returned a response with no attributes and no
/// data payload.
pub open spec fn empty_ok(r: Result<Response, ContractError>) -> bool {
    r matches Ok(resp) && resp.is_empty()
}

/// The handler succeeded and returned a response with no attributes whose
/// data payload is the 8-byte big-endian encoding of [`EMIT_DATA_VALUE`].
pub open spec fn emit_data_ok(r: Result<Response, ContractError>) -> bool {
    &&& r matches Ok(resp)
    &&& r->Ok_0.attributes@.len() == 0
    &&& r->Ok_0.data_bytes() == Some(wire::u64_be_bytes(EMIT_DATA_VALUE))
}

/// The transition from "not yet instantiated" to "live": always succeeds
/// and returns an empty response, whatever account instantiates and with
/// whatever uploaded bytecode the code id is backed.
pub fn instantiate(_msg: InstantiateMsg) -> (r: Result<Response, ContractError>)
    ensures
        empty_ok(r),
{
    Ok(Response::new())
}

/// A state-changing call against a live contract. For `EmitData` it always
/// succeeds, mutates nothing, and returns the 8-byte big-endian encoding of
/// [`EMIT_DATA_VALUE`] as its data payload.
pub fn execute(msg: ExecuteMsg) -> (r: Result<Response, ContractError>)
    ensures
        emit_data_ok(r),
{
    match msg {
        ExecuteMsg::EmitData {} => {
            let data = wire::encode_u64_be(EMIT_DATA_VALUE);
            Ok(Response::new().set_data(data))
        },
    }
}

/// Read-only entry point. No query variant exists, so no caller outside
/// this crate can reach it; if invoked it returns an empty payload.
pub fn query(_msg: QueryMsg) -> (r: Result<QueryResponse, ContractError>)
    ensures
        r matches Ok(qr) && qr.bytes@ == Seq::<u8>::empty(),
{
    Ok(QueryResponse::empty())
}

/// Re-admits the contract to the "live" state under new code, touching
/// neither its address nor its stored data: always succeeds with an empty
/// response.
pub fn migrate(_msg: MigrateMsg) -> (r: Result<Response, ContractError>)
    ensures
        empty_ok(r),
{
    Ok(Response::new())
}

/// Migration is idempotent: any two migrate calls on a live contract — in
/// particular, repeated calls on the same contract — succeed with responses
/// that are observably identical and empty, so nothing about the contract,
/// its address included, changes from one call to the next.
pub proof fn lemma_migrate_idempotent(
    r1: Result<Response, ContractError>,
    r2: Result<Response, ContractError>,
)
    requires
        empty_ok(r1),
        empty_ok(r2),
    ensures
        r1 matches Ok(a) && r2 matches Ok(b) && a.attributes@ =~= b.attributes@ && a.data
            == b.data,
{
}

/// The execute handler's data payload is always exactly 8 bytes and always
/// decodes, read big-endian, to the value 1.
pub proof fn lemma_execute_data_decodes_to_one(r: Result<Response, ContractError>)
    requires
        emit_data_ok(r),
    ensures
        r matches Ok(resp) && resp.data_bytes() matches Some(d) && d.len() == 8 && wire::u64_of_be(
            d,
        ) == 1,
{
    wire::lemma_u64_be_roundtrip(EMIT_DATA_VALUE);
}

} // verus!
