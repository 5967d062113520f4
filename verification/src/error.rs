use vstd::prelude::*;

verus! {

/// Every way an operation of the oracle can be refused.
#[derive(Copy, Clone, Debug, PartialEq, Eq, Structural)]
pub enum Error {
    /// The oracle is already configured.
    AlreadyInitialized,
    /// The caller may not perform the operation.
    Unauthorized,
    /// The asset is not registered.
    AssetMissing,
    /// The asset is already registered.
    AssetAlreadyExists,
    /// The configuration version is not accepted.
    InvalidConfigVersion,
    /// The update's timestamp is not accepted.
    InvalidTimestamp,
    /// The update does not hold one value per registered asset.
    InvalidUpdateLength,
    /// No room is left for another asset.
    AssetLimitExceeded,
    /// No room is left for another currency.
    FxLimitExceeded,
    /// The currency is already registered.
    FxAlreadyExists,
    /// The currency feed has no usable rate.
    StaleFxPrice,
    /// Assets and currencies were given in different numbers.
    FxArrayLengthMismatch,
    /// The yield rate is below one.
    InvalidYieldRate,
    /// The currency rate is zero or negative.
    InvalidFxPrice,
    /// No currency feed is configured.
    FxOracleUnavailable,
    /// A value left the range of 128-bit signed integers.
    IntegerOverflow,
    /// The currency feed's clock is too far from the update's timestamp.
    FxOracleTimestampDrift,
    /// The yield rate fell by more than the tolerated drop.
    YieldRateDecreased,
    /// The yield rate rose by more than the configured deviation.
    YieldRateDeviationExceeded,
}

impl Error {
    /// The number under which the error is reported to callers.
    pub open spec fn code_spec(self) -> u32 {
        match self {
            Error::AlreadyInitialized => 0,
            Error::Unauthorized => 1,
            Error::AssetMissing => 2,
            Error::AssetAlreadyExists => 3,
            Error::InvalidConfigVersion => 4,
            Error::InvalidTimestamp => 5,
            Error::InvalidUpdateLength => 6,
            Error::AssetLimitExceeded => 7,
            Error::FxLimitExceeded => 8,
            Error::FxAlreadyExists => 9,
            Error::StaleFxPrice => 10,
            Error::FxArrayLengthMismatch => 11,
            Error::InvalidYieldRate => 12,
            Error::InvalidFxPrice => 13,
            Error::FxOracleUnavailable => 14,
            Error::IntegerOverflow => 15,
            Error::FxOracleTimestampDrift => 16,
            Error::YieldRateDecreased => 17,
            Error::YieldRateDeviationExceeded => 18,
        }
    }

    /// The number under which the error is reported to callers.
    pub fn code(&self) -> (code: u32)
        ensures
            code == self.code_spec(),
    {
        match self {
            Error::AlreadyInitialized => 0,
            Error::Unauthorized => 1,
            Error::AssetMissing => 2,
            Error::AssetAlreadyExists => 3,
            Error::InvalidConfigVersion => 4,
            Error::InvalidTimestamp => 5,
            Error::InvalidUpdateLength => 6,
            Error::AssetLimitExceeded => 7,
            Error::FxLimitExceeded => 8,
            Error::FxAlreadyExists => 9,
            Error::StaleFxPrice => 10,
            Error::FxArrayLengthMismatch => 11,
            Error::InvalidYieldRate => 12,
            Error::InvalidFxPrice => 13,
            Error::FxOracleUnavailable => 14,
            Error::IntegerOverflow => 15,
            Error::FxOracleTimestampDrift => 16,
            Error::YieldRateDecreased => 17,
            Error::YieldRateDeviationExceeded => 18,
        }
    }
}

/// Different errors are reported under different numbers.
pub proof fn lemma_codes_distinct(a: Error, b: Error)
    requires
        a.code_spec() == b.code_spec(),
    ensures
        a == b,
{
}

} // verus!
