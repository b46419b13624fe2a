//! A fee-relay instruction handler: it checks that the payer signed and
//! moves a fixed fee from the payer to a fixed recipient address.

pub mod error;
pub mod instruction;
pub mod address;
pub mod system;
pub mod processor;
pub mod ledger;
pub mod laws;
