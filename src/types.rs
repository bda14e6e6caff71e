use vstd::prelude::*;

verus! {

/// Precision: the computation runs `precision^10` iterations.
pub type TPrecision = u64;

/// Why a `ComputePi` precision was refused before dispatch.
#[derive(Debug, Clone, Copy, PartialEq, Eq, Structural)]
pub enum ConfigurationError {
    /// `precision^10` does not fit in a `u64`.
    IterationCountOverflow,
}

} // verus!
