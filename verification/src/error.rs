//! The failure vocabulary shared by every translation function.

use vstd::prelude::*;

verus! {

/// Why a translation request could not be answered.
///
/// `InvalidInput` reports a value outside the declared legal domain of its
/// external enumeration or flag set: a calling-contract violation.
/// `NotYetSupported` reports a value that is legal per the external
/// specification but that this backend intentionally does not translate yet:
/// a development-time gap, kept distinct so it can later be promoted to a
/// real mapping without being confused with a caller error.
#[derive(Clone, Copy, Debug, PartialEq, Eq, Structural)]
pub enum ConvError {
    InvalidInput,
    NotYetSupported,
}

} // verus!
