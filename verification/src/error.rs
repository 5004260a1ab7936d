//! The errors of rule execution.

use vstd::prelude::*;

verus! {

/// Why a rule could not be executed. The variant says which read failed.
#[derive(Clone, Copy, Debug, PartialEq, Eq)]
pub enum Error {
    /// The memory reader failed at the location of the return address.
    CouldNotReadReturnAddress,
    /// The memory reader failed at the location of the saved frame base.
    CouldNotReadBp,
}

} // verus!
