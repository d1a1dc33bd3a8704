use contract_workflow::errors::WorkflowError;
use contract_workflow::orchestrator::Action;
use contract_workflow::orchestrator::ChainEvent;
use contract_workflow::orchestrator::WorkflowState;
use contract_workflow::orchestrator::apply_event;
use contract_workflow::orchestrator::decode_result;
use contract_workflow::orchestrator::next_action;
use contract_workflow::orchestrator::run;

#[test]
fn full_workflow_scenario() {
    let events = vec![
        ChainEvent::UploadCompleted(7),
        ChainEvent::InstantiateCompleted("addr1examplecontract".to_string()),
        ChainEvent::ExecuteCompleted("ABCD1234".to_string()),
        ChainEvent::FetchCompleted(vec![0, 0, 0, 0, 0, 0, 0, 1]),
    ];
    match run(events) {
        WorkflowState::Completed { code_id, contract, tx_hash, value } => {
            assert_eq!(code_id, 7);
            assert_eq!(contract, "addr1examplecontract");
            assert_eq!(tx_hash, "ABCD1234");
            assert_eq!(value, 1);
        }
        other => panic!("the workflow should complete, got {:?}", other),
    }
}

#[test]
fn actions_come_in_pipeline_order() {
    let s = WorkflowState::Start;
    assert_eq!(next_action(&s), Action::Upload);
    let s = apply_event(s, ChainEvent::UploadCompleted(7));
    assert_eq!(next_action(&s), Action::Instantiate);
    let s = apply_event(s, ChainEvent::InstantiateCompleted("addr1xyz".to_string()));
    assert_eq!(next_action(&s), Action::Execute);
    let s = apply_event(s, ChainEvent::ExecuteCompleted("CAFE".to_string()));
    assert_eq!(next_action(&s), Action::FetchResult);
    let s = apply_event(s, ChainEvent::FetchCompleted(vec![0, 0, 0, 0, 0, 0, 0, 1]));
    assert_eq!(next_action(&s), Action::Decode);
    let s = decode_result(s);
    assert_eq!(next_action(&s), Action::Stop);
    assert!(matches!(s, WorkflowState::Completed { .. }));
}

#[test]
fn execute_against_missing_contract_is_execute_error() {
    let live = WorkflowState::Instantiated {
        code_id: 7,
        contract: "addr1nosuchaccount".to_string(),
    };
    let failed = apply_event(
        live,
        ChainEvent::ExecuteFailed(WorkflowError::ExecuteError("no such account".to_string())),
    );
    match failed {
        WorkflowState::Failed(WorkflowError::ExecuteError(text)) => {
            assert_eq!(text, "no such account");
        }
        other => panic!("expected an execute failure, got {:?}", other),
    }
}

#[test]
fn fetch_of_unsubmitted_hash_is_not_found_not_decode_error() {
    let executed = WorkflowState::Executed {
        code_id: 7,
        contract: "addr1examplecontract".to_string(),
        tx_hash: "NEVERSEEN".to_string(),
    };
    let failed = apply_event(executed, ChainEvent::FetchFailed(WorkflowError::NotFound));
    assert!(matches!(failed, WorkflowState::Failed(WorkflowError::NotFound)));
    let after_decode = decode_result(failed);
    assert!(matches!(
        after_decode,
        WorkflowState::Failed(WorkflowError::NotFound)
    ));
}

#[test]
fn first_failure_is_final_and_verbatim() {
    let events = vec![
        ChainEvent::UploadCompleted(7),
        ChainEvent::InstantiateFailed(WorkflowError::InstantiateError(
            "insufficient fee funds".to_string(),
        )),
        ChainEvent::ExecuteCompleted("CAFE".to_string()),
        ChainEvent::FetchCompleted(vec![0, 0, 0, 0, 0, 0, 0, 1]),
    ];
    match run(events) {
        WorkflowState::Failed(WorkflowError::InstantiateError(text)) => {
            assert_eq!(text, "insufficient fee funds");
        }
        other => panic!("the first failure must be surfaced verbatim, got {:?}", other),
    }
}

#[test]
fn contract_rejection_is_distinguished_from_execute_error() {
    let live = WorkflowState::Instantiated {
        code_id: 7,
        contract: "addr1examplecontract".to_string(),
    };
    let failed = apply_event(
        live,
        ChainEvent::ExecuteFailed(WorkflowError::ContractRejected("handler said no".to_string())),
    );
    assert!(matches!(
        failed,
        WorkflowState::Failed(WorkflowError::ContractRejected(_))
    ));
    assert!(!matches!(
        failed,
        WorkflowState::Failed(WorkflowError::ExecuteError(_))
    ));
}

#[test]
fn event_out_of_order_changes_nothing() {
    let s = WorkflowState::Start;
    let s = apply_event(s, ChainEvent::ExecuteCompleted("CAFE".to_string()));
    assert!(matches!(s, WorkflowState::Start));
    assert_eq!(next_action(&s), Action::Upload);
}

#[test]
fn malformed_fetched_payload_is_decode_error() {
    let fetched = WorkflowState::Fetched {
        code_id: 7,
        contract: "addr1examplecontract".to_string(),
        tx_hash: "ABCD1234".to_string(),
        data: vec![1, 2, 3],
    };
    let after = decode_result(fetched);
    assert!(matches!(
        after,
        WorkflowState::Failed(WorkflowError::DecodeError)
    ));
}
