//! Verified core of the StellarWork escrow and retainer contracts.
//!
//! The contracts' storage is modelled by plain values: every contract is a
//! state value whose entry points compute the next state together with the
//! authorizations, token transfers and events that the host must carry out.
use vstd::prelude::*;

pub mod store;
pub mod address;
pub mod escrow_types;
pub mod fees;
pub mod escrow_spec;
pub mod escrow;
pub mod retainer;
pub mod escrow_laws;
pub mod retainer_laws;

verus! {

} // verus!
