use vstd::prelude::*;

verus! {

/// Why the processing of one pool stopped.
#[derive(Clone, Copy, Debug, PartialEq, Eq, Structural)]
pub enum PoolError {
    /// A buffer is too short, or a discriminant byte holds no known value.
    MalformedLayout,
    /// An account that the pool cannot be described without is absent.
    RequiredAccountMissing,
    /// Account data contradicts the rules of the stake program.
    DataConsistencyFault,
    /// No program address could be derived from the given seeds.
    AddressDerivationFailed,
}

} // verus!
