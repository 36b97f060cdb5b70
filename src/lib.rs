//! Product storage handlers: the record model, the mapping from storage
//! outcomes to status-coded responses, and the decisions of the two request
//! handlers. The network calls to the key-value backend are made by the
//! caller, which hands the outcomes to the functions here.
pub mod handlers;
pub mod model;
pub mod repo;

pub use model::Product;
