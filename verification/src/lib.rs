//! Client-side orchestration of a WASM smart-contract deployment workflow,
//! together with the contract's own entry-point handlers and the wire
//! encodings the two sides exchange.

pub mod codec;
pub mod contract;
pub mod envelope;
pub mod errors;
pub mod msg;
pub mod orchestrator;
pub mod response;
pub mod wire;

pub use msg::ExecuteMsg;
pub use msg::InstantiateMsg;
pub use msg::MigrateMsg;
pub use msg::QueryMsg;
