use vstd::prelude::*;

verus! {

/// Why a finalize program was refused while it was being assembled.
#[derive(Clone, Copy, Debug, PartialEq, Eq, Hash, Structural)]
pub enum FinalizeError {
    /// An input was declared after commands had been added.
    OrderingViolation,
    /// A bound on inputs, commands, writes or positions was reached.
    CapacityExceeded,
    /// An input was repeated, or a position label was defined twice.
    DuplicateDeclaration,
    /// A register other than a locator was used as an input or a destination.
    InvalidRegisterKind,
    /// A call or a cast to a record appeared in finalize.
    ForbiddenOperation,
    /// A branch named a label that is already defined.
    InvalidBranchTarget,
}

impl FinalizeError {
    /// A human-readable description of the error kind.
    pub fn message(&self) -> (r: &'static str) {
        match self {
            FinalizeError::OrderingViolation => "cannot add inputs after commands have been added",
            FinalizeError::CapacityExceeded => "a finalize bound has been reached",
            FinalizeError::DuplicateDeclaration => "duplicate input or position declaration",
            FinalizeError::InvalidRegisterKind => "register must be a locator",
            FinalizeError::ForbiddenOperation => "finalize cannot call or cast to a record",
            FinalizeError::InvalidBranchTarget => "cannot branch to an earlier position",
        }
    }
}

} // verus!
