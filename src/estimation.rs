//! Settings and result types of user-operation gas estimation.
use vstd::prelude::*;

verus! {

/// The smallest call gas limit that a user operation may carry.
pub const MIN_CALL_GAS_LIMIT: u64 = 9100;

/// Why gas estimation failed.
#[derive(Clone, Debug)]
pub enum GasEstimationError {
    /// Validation reverted, with its reason.
    RevertInValidation(String),
    /// The call reverted with a string message.
    RevertInCallWithMessage(String),
    /// The call reverted with raw bytes.
    RevertInCallWithBytes(Vec<u8>),
    /// Any other failure, described in words.
    Other(String),
}

/// Gas estimate for a user operation.
#[derive(Clone, Copy, Debug, PartialEq, Eq, Structural)]
pub struct GasEstimate {
    /// Pre-verification gas estimate.
    pub pre_verification_gas: u128,
    /// Verification gas limit estimate.
    pub verification_gas_limit: u128,
    /// Call gas limit estimate.
    pub call_gas_limit: u128,
}

/// Settings for gas estimation.
#[derive(Clone, Copy, Debug, PartialEq, Eq, Structural)]
pub struct Settings {
    /// The most gas that the verification step of a user operation may use.
    pub max_verification_gas: u64,
    /// The most gas that the call step of a user operation may use.
    pub max_call_gas: u64,
    /// The most gas that a call to `simulateHandleOps` may use.
    pub max_simulate_handle_ops_gas: u64,
    /// The fee that the fee-payer must hold during validation gas estimation
    /// (three times this with a paymaster). The fee stays constant while the
    /// gas limit varies, by varying the gas price.
    pub validation_estimation_gas_fee: u64,
}

/// The reason that `Settings::validate` gives for a call gas limit that is too low.
pub open spec fn low_call_gas_reason() -> Seq<char> {
    "max_call_gas field cannot be lower than MIN_CALL_GAS_LIMIT"@
}

impl Settings {
    /// Whether the settings are valid: the call gas limit is not below `MIN_CALL_GAS_LIMIT`.
    pub open spec fn is_valid(&self) -> bool {
        self.max_call_gas >= MIN_CALL_GAS_LIMIT
    }

    /// What validation answers: no reason for valid settings, else the reason.
    pub open spec fn validation(&self) -> Option<Seq<char>> {
        if self.is_valid() {
            None
        } else {
            Some(low_call_gas_reason())
        }
    }

    /// Checks the settings: `None` when valid, else the reason in words.
    pub fn validate(&self) -> (r: Option<String>)
        ensures
            r.is_none() <==> self.is_valid(),
            r.is_some() ==> self.validation() == Some(r.unwrap()@),
    {
        if self.max_call_gas < MIN_CALL_GAS_LIMIT {
            let reason = "max_call_gas field cannot be lower than MIN_CALL_GAS_LIMIT".to_owned();
            proof {
                reveal_strlit("max_call_gas field cannot be lower than MIN_CALL_GAS_LIMIT");
            }
            return Some(reason);
        }
        None
    }
}

/// Validation depends on the settings alone, so repeating it gives the same
/// answer, and it gives a reason exactly when the call gas limit is below
/// `MIN_CALL_GAS_LIMIT`.
pub proof fn lemma_validate_idempotent(s: Settings, t: Settings)
    requires
        s == t,
    ensures
        s.validation() == t.validation(),
        s.validation().is_some() <==> s.max_call_gas < MIN_CALL_GAS_LIMIT,
{
}

} // verus!
