//! The failure taxonomy of the workflow: one variant per way a stage can
//! fail, so callers branch on kind rather than parse text.

use vstd::prelude::*;

verus! {

/// Why a workflow stage failed. The `String` payloads carry the
/// chain-provided diagnostic text verbatim.
#[derive(Clone, Debug)]
pub enum WorkflowError {
    /// Bytecode upload was not accepted (malformed bytecode, insufficient
    /// fee funds, or a failed network request).
    UploadError(String),
    /// Instantiation was not accepted, for the same fee or network reasons.
    InstantiateError(String),
    /// The execute transaction was not accepted, for example because the
    /// target contract account does not exist.
    ExecuteError(String),
    /// The contract's own handler returned an error; its free-form message
    /// is kept verbatim.
    ContractRejected(String),
    /// The transaction result is not indexed (yet) under the queried hash.
    NotFound,
    /// The transport failed while talking to the chain node.
    NetworkError(String),
    /// A result payload did not parse as the expected binary shape.
    DecodeError,
    /// A wire message's tag or shape matched no known schema variant.
    SchemaMismatch,
}

} // verus!
