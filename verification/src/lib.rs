pub mod contract;
pub mod encode;
pub mod error;
pub mod laws;
pub mod msg;
pub mod numeral;
pub mod state;
