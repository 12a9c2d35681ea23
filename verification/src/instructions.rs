pub mod initialize;
pub mod transfer_funds;
