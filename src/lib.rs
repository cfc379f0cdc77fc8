//! A bonding vault: holders of a native denomination deposit it and receive
//! a receipt token from the issuer registered for that denomination, and
//! burn the receipt later to redeem the deposit.
pub mod lexorder;
pub mod state;
pub mod error;
pub mod msg;
mod payment;
pub mod contract;
pub mod model;
pub mod template;
