use contract_workflow::codec;
use contract_workflow::errors::WorkflowError;
use contract_workflow::msg::ExecuteMsg;
use contract_workflow::msg::InstantiateMsg;
use contract_workflow::msg::MigrateMsg;

#[test]
fn execute_msg_wire_form_is_snake_case_json() {
    let bytes = codec::encode_execute_msg(&ExecuteMsg::EmitData {});
    assert_eq!(bytes, b"{\"emit_data\":{}}".to_vec());
}

#[test]
fn execute_msg_roundtrip() {
    let bytes = codec::encode_execute_msg(&ExecuteMsg::EmitData {});
    let back = codec::decode_execute_msg(&bytes).expect("canonical bytes must decode");
    assert_eq!(back, ExecuteMsg::EmitData {});
}

#[test]
fn instantiate_msg_roundtrip() {
    let bytes = codec::encode_instantiate_msg(&InstantiateMsg {});
    assert_eq!(bytes, b"{}".to_vec());
    let back = codec::decode_instantiate_msg(&bytes).expect("canonical bytes must decode");
    assert_eq!(back, InstantiateMsg {});
}

#[test]
fn migrate_msg_roundtrip() {
    let bytes = codec::encode_migrate_msg(&MigrateMsg {});
    assert_eq!(bytes, b"{}".to_vec());
    let back = codec::decode_migrate_msg(&bytes).expect("canonical bytes must decode");
    assert_eq!(back, MigrateMsg {});
}

#[test]
fn unknown_tag_is_schema_mismatch() {
    let r = codec::decode_execute_msg(b"{\"emit_other\":{}}");
    assert!(matches!(r, Err(WorkflowError::SchemaMismatch)));
}

#[test]
fn wrong_shape_is_schema_mismatch() {
    let r = codec::decode_instantiate_msg(b"{\"unexpected\":1}");
    assert!(matches!(r, Err(WorkflowError::SchemaMismatch)));
}

#[test]
fn query_payloads_never_decode() {
    let r = contract_workflow::codec::decode_query_msg(b"{}");
    assert!(matches!(r, Err(WorkflowError::SchemaMismatch)));
    let r = contract_workflow::codec::decode_query_msg(b"{\"anything\":{}}");
    assert!(matches!(r, Err(WorkflowError::SchemaMismatch)));
}

#[test]
fn execute_msg_wire_form_parses_as_json_object() {
    let bytes = codec::encode_execute_msg(&ExecuteMsg::EmitData {});
    let value: serde_json::Value =
        serde_json::from_slice(&bytes).expect("the wire form must be valid JSON");
    let tag = value.get("emit_data").expect("the variant travels under its snake_case tag");
    assert!(tag.is_object());
    assert_eq!(tag.as_object().unwrap().len(), 0);
}
