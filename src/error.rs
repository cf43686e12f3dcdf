use vstd::prelude::*;

verus! {

/// The failures this bridge reports.
#[derive(Debug, Clone, Copy, PartialEq, Eq, Structural)]
pub enum SwitchboardError {
    /// The latest confirmed round does not hold enough successful responses.
    InvalidAggregatorRound,
    /// A string could not be read as a decimal.
    InvalidStrDecimalConversion,
    /// A (mantissa, scale) pair cannot be represented in the target decimal domain.
    DecimalConversionError,
    /// A value does not fit the target integer width.
    IntegerOverflowError,
    /// The account bytes do not carry the aggregator discriminator.
    AccountDiscriminatorMismatch,
    /// The account bytes do not have the aggregator's shape.
    AccountDeserializationError,
}

impl SwitchboardError {
    /// Numeric error code, in the program-error range of the oracle program.
    pub fn code(&self) -> (r: u32)
        ensures
            6000 <= r <= 6008,
            r == self.spec_code(),
    {
        match self {
            SwitchboardError::InvalidAggregatorRound => 6000,
            SwitchboardError::InvalidStrDecimalConversion => 6001,
            SwitchboardError::DecimalConversionError => 6002,
            SwitchboardError::IntegerOverflowError => 6003,
            SwitchboardError::AccountDiscriminatorMismatch => 6004,
            SwitchboardError::AccountDeserializationError => 6008,
        }
    }

    pub open spec fn spec_code(&self) -> u32 {
        match self {
            SwitchboardError::InvalidAggregatorRound => 6000,
            SwitchboardError::InvalidStrDecimalConversion => 6001,
            SwitchboardError::DecimalConversionError => 6002,
            SwitchboardError::IntegerOverflowError => 6003,
            SwitchboardError::AccountDiscriminatorMismatch => 6004,
            SwitchboardError::AccountDeserializationError => 6008,
        }
    }

    /// Human-readable description of the failure.
    pub fn message(&self) -> &'static str {
        match self {
            SwitchboardError::InvalidAggregatorRound =>
                "Aggregator is not currently populated with a valid round",
            SwitchboardError::InvalidStrDecimalConversion =>
                "Failed to convert string to decimal format",
            SwitchboardError::DecimalConversionError => "Decimal conversion method failed",
            SwitchboardError::IntegerOverflowError => "An integer overflow occurred",
            SwitchboardError::AccountDiscriminatorMismatch =>
                "Account discriminator did not match",
            SwitchboardError::AccountDeserializationError => "Failed to deserialize account",
        }
    }
}

} // verus!
