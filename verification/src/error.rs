//! The error taxonomy of the measurement harness. Each measurement is
//! independent: a failure aborts only that measurement and is surfaced with
//! the stage it came from, never rendered as a zero or blank row.

use vstd::prelude::*;

verus! {

/// What can go wrong in one measurement, stage by stage.
#[derive(Clone, Copy, Debug, PartialEq, Eq, Structural)]
pub enum HarnessError {
    /// The backend cannot be constructed on this host.
    ConfigurationError,
    /// The bytecode artifact is unreadable.
    IoError,
    /// The bytecode is invalid or uses features the backend does not
    /// support: an expected source of divergence between backends.
    CompileError,
    /// Instantiation failed on an unmet import.
    InstantiationError,
    /// The named export is missing or its signature differs.
    ExportLookupError,
    /// A runtime fault during invocation aborted this measurement.
    ExecutionTrapError,
    /// The baseline sanity guard failed: the output buffer is unchanged.
    InvalidMeasurementError,
}

/// The short name of each error, for report context.
pub open spec fn error_name(e: HarnessError) -> Seq<char> {
    match e {
        HarnessError::ConfigurationError => "configuration"@,
        HarnessError::IoError => "io"@,
        HarnessError::CompileError => "compile"@,
        HarnessError::InstantiationError => "instantiation"@,
        HarnessError::ExportLookupError => "export lookup"@,
        HarnessError::ExecutionTrapError => "execution trap"@,
        HarnessError::InvalidMeasurementError => "invalid measurement"@,
    }
}

impl HarnessError {
    /// The short name of this error (the type carries no `Display`).
    pub fn describe(&self) -> (r: &'static str)
        ensures
            r@ == error_name(*self),
    {
        match self {
            HarnessError::ConfigurationError => "configuration",
            HarnessError::IoError => "io",
            HarnessError::CompileError => "compile",
            HarnessError::InstantiationError => "instantiation",
            HarnessError::ExportLookupError => "export lookup",
            HarnessError::ExecutionTrapError => "execution trap",
            HarnessError::InvalidMeasurementError => "invalid measurement",
        }
    }
}

} // verus!
