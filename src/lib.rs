//! Decision logic of an ERC-4337 bundle sender: fee arithmetic, bundle
//! preparation, the fee-escalation state machine that drives one submission
//! sequence, and the settings of gas estimation.
use vstd::prelude::*;

pub mod estimation;
pub mod bundle;
pub mod bundle_sender;
pub mod gas;
pub mod types;

verus! {

} // verus!
