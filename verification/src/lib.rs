pub mod engine;
pub mod laws;
pub mod money;
pub mod processing;
pub mod transactions;
