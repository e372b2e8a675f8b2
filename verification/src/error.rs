//! The error taxonomy of the control loop.
//!
//! Every failure is scoped: none of these may take down the process or stall
//! another server's tick. Connectivity failures are recovered locally (the
//! roster is treated as empty and retried next tick); external API failures
//! skip the affected step and leave prior persisted state intact; parse
//! failures abort only the affected server's tick; configuration failures
//! surface at startup and keep that server's scheduler from starting at all.

use vstd::prelude::*;

verus! {

#[derive(Clone, Copy, PartialEq, Eq, Structural, Debug)]
pub enum AppError {
    /// The server's console is unreachable.
    Connectivity,
    /// The chat or storage API answered with a failure.
    ExternalApi,
    /// A console reply did not have the expected shape.
    Parse,
    /// A required profile field is missing; detected at startup.
    FatalConfig,
}

impl AppError {
    pub open spec fn spec_describe(self) -> Seq<char> {
        match self {
            AppError::Connectivity => "console unreachable"@,
            AppError::ExternalApi => "external api failure"@,
            AppError::Parse => "malformed console reply"@,
            AppError::FatalConfig => "missing required profile field"@,
        }
    }

    pub fn describe(&self) -> (text: &'static str)
        ensures
            text@ == self.spec_describe(),
    {
        match self {
            AppError::Connectivity => "console unreachable",
            AppError::ExternalApi => "external api failure",
            AppError::Parse => "malformed console reply",
            AppError::FatalConfig => "missing required profile field",
        }
    }
}

} // verus!
