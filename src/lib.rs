pub mod amount;
pub mod model;
pub mod account;
pub mod account_manager;
pub mod laws;
