//! An HTTP balance lookup for blockchain accounts: address validation, unit
//! conversion, response shaping and the steps of one balance fetch.

pub mod address;
pub mod digits;
pub mod error;
pub mod wei;
pub mod balance;
pub mod fetch;
