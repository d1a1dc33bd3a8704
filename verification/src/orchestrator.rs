//! The client-side driver of the workflow, as a state machine: upload,
//! then instantiate, then execute, then fetch the committed result, then
//! decode its payload. Each chain round trip is performed by an outside
//! driver; this module decides, from the current state and the round
//! trip's outcome, what the next state and the next action are. A step's
//! identifier is carried into the next step, and the first failure ends
//! the pipeline with that error kept verbatim.

use vstd::prelude::*;

use crate::errors::WorkflowError;
use crate::wire;

verus! {

/// Handle to uploaded, stored contract bytecode, issued by the chain.
pub type CodeId = u64;

/// Chain-native account identifier of a live contract.
pub type ContractAddress = String;

/// Identifier of a submitted, chain-ordered transaction.
pub type TransactionHash = String;

/// How far the workflow has come, with every identifier produced so far.
#[derive(Clone, Debug)]
pub enum WorkflowState {
    /// Nothing submitted yet.
    Start,
    /// The bytecode is stored under this code id.
    Uploaded { code_id: CodeId },
    /// A live contract account exists at this address.
    Instantiated { code_id: CodeId, contract: ContractAddress },
    /// The execute transaction was committed under this hash.
    Executed { code_id: CodeId, contract: ContractAddress, tx_hash: TransactionHash },
    /// The committed transaction's result record was retrieved; its opaque
    /// data payload awaits decoding.
    Fetched {
        code_id: CodeId,
        contract: ContractAddress,
        tx_hash: TransactionHash,
        data: Vec<u8>,
    },
    /// The payload decoded to this value: the workflow is over.
    Completed {
        code_id: CodeId,
        contract: ContractAddress,
        tx_hash: TransactionHash,
        value: u64,
    },
    /// A stage failed; the pipeline stops and surfaces this error.
    Failed(WorkflowError),
}

/// The outcome of one chain round trip, as the driver reports it.
#[derive(Clone, Debug)]
pub enum ChainEvent {
    /// The upload transaction committed and the chain issued this code id.
    UploadCompleted(CodeId),
    UploadFailed(WorkflowError),
    /// The instantiate transaction committed and created this account.
    InstantiateCompleted(ContractAddress),
    InstantiateFailed(WorkflowError),
    /// The execute transaction committed under this hash.
    ExecuteCompleted(TransactionHash),
    ExecuteFailed(WorkflowError),
    /// The transaction's committed result held this data payload.
    FetchCompleted(Vec<u8>),
    FetchFailed(WorkflowError),
}

/// What the driver must do next.
#[derive(Clone, Copy, Debug, PartialEq, Eq, Structural)]
pub enum Action {
    /// Submit the bytecode upload.
    Upload,
    /// Instantiate the uploaded code (its id is in the state).
    Instantiate,
    /// Execute against the live contract (its address is in the state).
    Execute,
    /// Look up the committed result of the execute transaction.
    FetchResult,
    /// Decode the fetched payload, locally.
    Decode,
    /// The workflow is over, completed or failed.
    Stop,
}

/// The action each state calls for: the five stages in their fixed order.
pub open spec fn spec_next_action(s: WorkflowState) -> Action {
    match s {
        WorkflowState::Start => Action::Upload,
        WorkflowState::Uploaded { .. } => Action::Instantiate,
        WorkflowState::Instantiated { .. } => Action::Execute,
        WorkflowState::Executed { .. } => Action::FetchResult,
        WorkflowState::Fetched { .. } => Action::Decode,
        WorkflowState::Completed { .. } => Action::Stop,
        WorkflowState::Failed(_) => Action::Stop,
    }
}

/// How a state reacts to an outcome: the completion of the pending stage
/// carries its identifier into the next state; the failure of the pending
/// stage ends the workflow with that error, verbatim; any other event —
/// in particular, anything after a failure — changes nothing.
pub open spec fn spec_apply(s: WorkflowState, e: ChainEvent) -> WorkflowState {
    match (s, e) {
        (WorkflowState::Start, ChainEvent::UploadCompleted(code_id)) => WorkflowState::Uploaded {
            code_id,
        },
        (WorkflowState::Start, ChainEvent::UploadFailed(err)) => WorkflowState::Failed(err),
        (
            WorkflowState::Uploaded { code_id },
            ChainEvent::InstantiateCompleted(contract),
        ) => WorkflowState::Instantiated { code_id, contract },
        (WorkflowState::Uploaded { .. }, ChainEvent::InstantiateFailed(err)) => {
            WorkflowState::Failed(err)
        },
        (
            WorkflowState::Instantiated { code_id, contract },
            ChainEvent::ExecuteCompleted(tx_hash),
        ) => WorkflowState::Executed { code_id, contract, tx_hash },
        (WorkflowState::Instantiated { .. }, ChainEvent::ExecuteFailed(err)) => {
            WorkflowState::Failed(err)
        },
        (
            WorkflowState::Executed { code_id, contract, tx_hash },
            ChainEvent::FetchCompleted(data),
        ) => WorkflowState::Fetched { code_id, contract, tx_hash, data },
        (WorkflowState::Executed { .. }, ChainEvent::FetchFailed(err)) => WorkflowState::Failed(
            err,
        ),
        (other, _) => other,
    }
}

/// The local decode stage: an 8-byte payload yields its big-endian value;
/// any other payload is a decode failure. States other than `Fetched`
/// are left as they are: in particular a failed fetch can never turn into
/// a decode failure.
pub open spec fn spec_decode(s: WorkflowState) -> WorkflowState {
    match s {
        WorkflowState::Fetched { code_id, contract, tx_hash, data } => {
            if data@.len() == 8 {
                WorkflowState::Completed {
                    code_id,
                    contract,
                    tx_hash,
                    value: wire::u64_of_be(data@),
                }
            } else {
                WorkflowState::Failed(WorkflowError::DecodeError)
            }
        },
        other => other,
    }
}

/// The state a sequence of outcomes drives the workflow into, starting
/// from the beginning.
pub open spec fn spec_run(events: Seq<ChainEvent>) -> WorkflowState
    decreases events.len(),
{
    if events.len() == 0 {
        WorkflowState::Start
    } else {
        spec_apply(spec_run(events.drop_last()), events.last())
    }
}

/// Tells the driver what to do in the given state.
pub fn next_action(s: &WorkflowState) -> (a: Action)
    ensures
        a == spec_next_action(*s),
{
    match s {
        WorkflowState::Start => Action::Upload,
        WorkflowState::Uploaded { .. } => Action::Instantiate,
        WorkflowState::Instantiated { .. } => Action::Execute,
        WorkflowState::Executed { .. } => Action::FetchResult,
        WorkflowState::Fetched { .. } => Action::Decode,
        WorkflowState::Completed { .. } => Action::Stop,
        WorkflowState::Failed(_) => Action::Stop,
    }
}

/// Advances the workflow by one reported outcome.
pub fn apply_event(s: WorkflowState, e: ChainEvent) -> (r: WorkflowState)
    ensures
        r == spec_apply(s, e),
{
    match (s, e) {
        (WorkflowState::Start, ChainEvent::UploadCompleted(code_id)) => WorkflowState::Uploaded {
            code_id,
        },
        (WorkflowState::Start, ChainEvent::UploadFailed(err)) => WorkflowState::Failed(err),
        (
            WorkflowState::Uploaded { code_id },
            ChainEvent::InstantiateCompleted(contract),
        ) => WorkflowState::Instantiated { code_id, contract },
        (WorkflowState::Uploaded { .. }, ChainEvent::InstantiateFailed(err)) => {
            WorkflowState::Failed(err)
        },
        (
            WorkflowState::Instantiated { code_id, contract },
            ChainEvent::ExecuteCompleted(tx_hash),
        ) => WorkflowState::Executed { code_id, contract, tx_hash },
        (WorkflowState::Instantiated { .. }, ChainEvent::ExecuteFailed(err)) => {
            WorkflowState::Failed(err)
        },
        (
            WorkflowState::Executed { code_id, contract, tx_hash },
            ChainEvent::FetchCompleted(data),
        ) => WorkflowState::Fetched { code_id, contract, tx_hash, data },
        (WorkflowState::Executed { .. }, ChainEvent::FetchFailed(err)) => {
            WorkflowState::Failed(err)
        },
        (other, _) => other,
    }
}

/// Performs the decode stage on a fetched payload.
pub fn decode_result(s: WorkflowState) -> (r: WorkflowState)
    ensures
        r == spec_decode(s),
{
    match s {
        WorkflowState::Fetched { code_id, contract, tx_hash, data } => {
            match wire::decode_u64_be(data.as_slice()) {
                Ok(value) => WorkflowState::Completed { code_id, contract, tx_hash, value },
                Err(_) => WorkflowState::Failed(WorkflowError::DecodeError),
            }
        },
        other => other,
    }
}

/// Feeds a sequence of reported outcomes through the workflow in order
/// and finishes with the local decode stage.
pub fn run(events: Vec<ChainEvent>) -> (r: WorkflowState)
    ensures
        r == spec_decode(spec_run(events@)),
{
    let ghost all = events@;
    let mut events = events;
    let mut state = WorkflowState::Start;
    let ghost mut done: Seq<ChainEvent> = Seq::empty();
    while events.len() > 0
        invariant
            all == done + events@,
            state == spec_run(done),
        decreases events@.len(),
    {
        let e = events.remove(0);
        state = apply_event(state, e);
        proof {
            let prev = done;
            done = prev.push(e);
            assert(done.drop_last() =~= prev);
            assert(state == spec_run(done));
            assert(all =~= done + events@);
        }
    }
    proof {
        assert(all =~= done);
    }
    decode_result(state)
}

/// The code id a state carries, once the upload stage has issued one.
pub open spec fn state_code_id(s: WorkflowState) -> Option<CodeId> {
    match s {
        WorkflowState::Uploaded { code_id } => Some(code_id),
        WorkflowState::Instantiated { code_id, .. } => Some(code_id),
        WorkflowState::Executed { code_id, .. } => Some(code_id),
        WorkflowState::Fetched { code_id, .. } => Some(code_id),
        WorkflowState::Completed { code_id, .. } => Some(code_id),
        _ => None,
    }
}

/// The contract address a state carries, once instantiation created one.
pub open spec fn state_contract(s: WorkflowState) -> Option<ContractAddress> {
    match s {
        WorkflowState::Instantiated { contract, .. } => Some(contract),
        WorkflowState::Executed { contract, .. } => Some(contract),
        WorkflowState::Fetched { contract, .. } => Some(contract),
        WorkflowState::Completed { contract, .. } => Some(contract),
        _ => None,
    }
}

/// The transaction hash a state carries, once the execute stage produced
/// one.
pub open spec fn state_tx_hash(s: WorkflowState) -> Option<TransactionHash> {
    match s {
        WorkflowState::Executed { tx_hash, .. } => Some(tx_hash),
        WorkflowState::Fetched { tx_hash, .. } => Some(tx_hash),
        WorkflowState::Completed { tx_hash, .. } => Some(tx_hash),
        _ => None,
    }
}

/// An identifier, once issued, is carried unchanged through every later
/// step that does not fail: no outcome can alter the code id, the
/// contract address or the transaction hash it finds in the state.
pub proof fn lemma_identifiers_persist(s: WorkflowState, e: ChainEvent)
    requires
        !(spec_apply(s, e) is Failed),
    ensures
        state_code_id(s) matches Some(c) ==> state_code_id(spec_apply(s, e)) == Some(c),
        state_contract(s) matches Some(a) ==> state_contract(spec_apply(s, e)) == Some(a),
        state_tx_hash(s) matches Some(h) ==> state_tx_hash(spec_apply(s, e)) == Some(h),
{
}

/// The decode stage, too, carries every identifier through when it does
/// not fail.
pub proof fn lemma_decode_preserves_identifiers(s: WorkflowState)
    requires
        !(spec_decode(s) is Failed),
    ensures
        state_code_id(s) matches Some(c) ==> state_code_id(spec_decode(s)) == Some(c),
        state_contract(s) matches Some(a) ==> state_contract(spec_decode(s)) == Some(a),
        state_tx_hash(s) matches Some(h) ==> state_tx_hash(spec_decode(s)) == Some(h),
{
}

/// A failed stage is final: no later outcome moves the workflow out of
/// the failed state or alters the propagated error, and the driver is
/// told to stop.
pub proof fn lemma_failure_is_final(err: WorkflowError, e: ChainEvent)
    ensures
        spec_apply(WorkflowState::Failed(err), e) == WorkflowState::Failed(err),
        spec_next_action(WorkflowState::Failed(err)) == Action::Stop,
{
}

/// Each stage's failure outcome ends the workflow with exactly the error
/// the stage reported: the first failure is propagated verbatim.
pub proof fn lemma_stage_failure_verbatim(
    err: WorkflowError,
    code_id: CodeId,
    contract: ContractAddress,
    tx_hash: TransactionHash,
)
    ensures
        spec_apply(WorkflowState::Start, ChainEvent::UploadFailed(err)) == WorkflowState::Failed(
            err,
        ),
        spec_apply(
            WorkflowState::Uploaded { code_id },
            ChainEvent::InstantiateFailed(err),
        ) == WorkflowState::Failed(err),
        spec_apply(
            WorkflowState::Instantiated { code_id, contract },
            ChainEvent::ExecuteFailed(err),
        ) == WorkflowState::Failed(err),
        spec_apply(
            WorkflowState::Executed { code_id, contract, tx_hash },
            ChainEvent::FetchFailed(err),
        ) == WorkflowState::Failed(err),
{
}

/// Fetching the result of a transaction the chain never saw is a lookup
/// miss: the workflow fails with `NotFound`, and since the decode stage
/// leaves a failed state untouched, that can never become `DecodeError`.
pub proof fn lemma_not_found_never_decode_error(
    code_id: CodeId,
    contract: ContractAddress,
    tx_hash: TransactionHash,
)
    ensures
        spec_decode(
            spec_apply(
                WorkflowState::Executed { code_id, contract, tx_hash },
                ChainEvent::FetchFailed(WorkflowError::NotFound),
            ),
        ) == WorkflowState::Failed(WorkflowError::NotFound),
        WorkflowState::Failed(WorkflowError::NotFound) != WorkflowState::Failed(
            WorkflowError::DecodeError,
        ),
{
}

/// A fetched payload that is exactly what the execute handler emits
/// completes the workflow, and the reported value is the handler's
/// constant.
pub proof fn lemma_emitted_payload_completes(
    code_id: CodeId,
    contract: ContractAddress,
    tx_hash: TransactionHash,
    data: Vec<u8>,
)
    requires
        data@ == wire::u64_be_bytes(crate::contract::EMIT_DATA_VALUE),
    ensures
        spec_decode(WorkflowState::Fetched { code_id, contract, tx_hash, data })
            == (WorkflowState::Completed {
            code_id,
            contract,
            tx_hash,
            value: crate::contract::EMIT_DATA_VALUE,
        }),
{
    wire::lemma_u64_be_roundtrip(crate::contract::EMIT_DATA_VALUE);
}

/// From the beginning, a committed upload followed by a committed
/// instantiate always reaches the live-contract state, carrying the code
/// id and the new address — whatever bytecode the upload stored.
pub proof fn lemma_upload_then_instantiate(code_id: CodeId, contract: ContractAddress)
    ensures
        spec_run(
            seq![
                ChainEvent::UploadCompleted(code_id),
                ChainEvent::InstantiateCompleted(contract),
            ],
        ) == (WorkflowState::Instantiated { code_id, contract }),
{
    let e1 = ChainEvent::UploadCompleted(code_id);
    let e2 = ChainEvent::InstantiateCompleted(contract);
    let s = seq![e1, e2];
    assert(s.drop_last() =~= seq![e1]);
    assert(s.last() == e2);
    assert(seq![e1].drop_last() =~= Seq::<ChainEvent>::empty());
    assert(seq![e1].last() == e1);
    assert(spec_run(Seq::<ChainEvent>::empty()) == WorkflowState::Start);
    assert(spec_run(seq![e1]) == spec_apply(spec_run(Seq::<ChainEvent>::empty()), e1));
    assert(spec_run(s) == spec_apply(spec_run(seq![e1]), e2));
}

} // verus!
