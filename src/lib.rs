//! A delegated minting authority for a fungible-token mint.
//!
//! Setup hands a mint's "mint tokens" privilege from its administrator to a
//! control record whose address is derived from the mint alone; drips then
//! mint through that record, with the re-derivation of its address standing
//! in for a signature.
pub mod address;
pub mod faucet;
pub mod laws;
pub mod ledger;
