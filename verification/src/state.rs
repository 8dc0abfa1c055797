use vstd::prelude::*;

verus! {

/// The closed set of lifecycle values a project record can be in.
///
/// A record starts `Active`; any transition between two distinct values is
/// permitted, and a transition to the value already held is rejected.
#[derive(Clone, Copy, PartialEq, Eq, Structural, Debug)]
pub enum ProjectState {
    Active,
    Completed,
    Cancelled,
}

/// The errors the lifecycle controller surfaces. Every failure aborts the
/// whole operation with no partial effects.
#[derive(Clone, Copy, PartialEq, Eq, Structural, Debug)]
pub enum ProjectError {
    /// The caller did not sign the request.
    MissingSignature,
    /// The caller is not the record's stored creator.
    UnauthorizedCaller,
    /// The requested transition target equals the current state.
    InvalidStateTransition,
    /// The target record slot, mint or custody account is already initialized.
    AlreadyInitialized,
    /// The addressed project record does not exist.
    NotInitialized,
    /// The paying caller cannot cover the storage allocation cost.
    InsufficientFunds,
}

impl ProjectError {
    /// A human-readable message naming the violated precondition.
    pub fn message(&self) -> (r: &'static str)
        ensures
            self is InvalidStateTransition ==> r@ == "Invalid state transition"@,
            self is MissingSignature ==> r@ == "Missing required signature"@,
            self is UnauthorizedCaller ==> r@ == "Caller is not the project creator"@,
            self is AlreadyInitialized ==> r@ == "Account is already initialized"@,
            self is NotInitialized ==> r@ == "Project record is not initialized"@,
            self is InsufficientFunds ==> r@ == "Payer cannot cover the allocation cost"@,
    {
        match self {
            ProjectError::MissingSignature => "Missing required signature",
            ProjectError::UnauthorizedCaller => "Caller is not the project creator",
            ProjectError::InvalidStateTransition => "Invalid state transition",
            ProjectError::AlreadyInitialized => "Account is already initialized",
            ProjectError::NotInitialized => "Project record is not initialized",
            ProjectError::InsufficientFunds => "Payer cannot cover the allocation cost",
        }
    }
}

} // verus!
