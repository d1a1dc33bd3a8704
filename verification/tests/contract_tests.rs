use contract_workflow::contract;
use contract_workflow::msg::ExecuteMsg;
use contract_workflow::msg::InstantiateMsg;
use contract_workflow::msg::MigrateMsg;

#[test]
fn instantiate_returns_empty_response() {
    let r = contract::instantiate(InstantiateMsg {});
    let resp = r.expect("instantiate must succeed");
    assert_eq!(resp.attributes.len(), 0);
    assert!(resp.data.is_none());
}

#[test]
fn execute_emits_one_as_big_endian_bytes() {
    let r = contract::execute(ExecuteMsg::EmitData {});
    let resp = r.expect("execute must succeed");
    assert_eq!(resp.attributes.len(), 0);
    assert_eq!(resp.data, Some(vec![0, 0, 0, 0, 0, 0, 0, 1]));
}

#[test]
fn execute_data_decodes_to_one() {
    let resp = contract::execute(ExecuteMsg::EmitData {}).unwrap();
    let data = resp.data.unwrap();
    let value = contract_workflow::wire::decode_u64_be(&data).unwrap();
    assert_eq!(value, 1);
}

#[test]
fn migrate_returns_empty_response() {
    let r = contract::migrate(MigrateMsg {});
    let resp = r.expect("migrate must succeed");
    assert_eq!(resp.attributes.len(), 0);
    assert!(resp.data.is_none());
}

#[test]
fn repeated_migrate_never_errors_and_looks_identical() {
    let first = contract::migrate(MigrateMsg {}).expect("first migrate must succeed");
    let second = contract::migrate(MigrateMsg {}).expect("second migrate must succeed");
    let third = contract::migrate(MigrateMsg {}).expect("third migrate must succeed");
    assert_eq!(first.attributes.len(), second.attributes.len());
    assert_eq!(second.attributes.len(), third.attributes.len());
    assert_eq!(first.data, second.data);
    assert_eq!(second.data, third.data);
    assert!(first.data.is_none());
}
