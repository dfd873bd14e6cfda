//! The vocabulary of diagnostics: how safe a suggested fix is to apply.

use vstd::prelude::*;

verus! {

/// How confident a suggestion is, in the compiler's own terms.
#[derive(Clone, Copy, Debug, PartialEq, Eq, Structural)]
pub enum Applicability {
    /// The suggestion is definitely what the user intended and can be applied automatically.
    MachineApplicable,
    /// The suggestion may be what the user intended, but it is uncertain.
    MaybeIncorrect,
    /// The suggestion contains placeholders such as `(...)` or `{ /* fields */ }`.
    HasPlaceholders,
    /// The applicability is unknown.
    Unspecified,
}

impl Applicability {
    /// Lowers a machine-applicable suggestion to one with placeholders; leaves any other
    /// applicability as it is.
    pub fn with_placeholders(self) -> (r: Applicability)
        ensures
            self == Applicability::MachineApplicable ==> r == Applicability::HasPlaceholders,
            self != Applicability::MachineApplicable ==> r == self,
    {
        match self {
            Applicability::MachineApplicable => Applicability::HasPlaceholders,
            _ => self,
        }
    }
}

} // verus!
