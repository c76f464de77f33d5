//! The measurement protocol: load, compile, instantiate, resolve the entry
//! point, invoke, and time the invocation. The decisions of the protocol
//! live here; the outside work of each stage (reading the artifact, running
//! a backend, reading the clock) is performed by the caller, which reports
//! back whether the stage succeeded.

use vstd::prelude::*;

use crate::error::HarnessError;

verus! {

/// The stages of one measurement, in protocol order.
#[derive(Clone, Copy, Debug, PartialEq, Eq, Structural)]
pub enum MeasurePhase {
    /// Load the bytecode artifact.
    Load,
    /// Compile it against the store.
    Compile,
    /// Instantiate it with the supplied import set.
    Instantiate,
    /// Resolve the named export and check its signature.
    ResolveExport,
    /// Invoke the entry point between two timestamps.
    Invoke,
    /// The measurement is complete.
    Done,
}

/// The stage after a successful one.
pub open spec fn phase_next(p: MeasurePhase) -> MeasurePhase {
    match p {
        MeasurePhase::Load => MeasurePhase::Compile,
        MeasurePhase::Compile => MeasurePhase::Instantiate,
        MeasurePhase::Instantiate => MeasurePhase::ResolveExport,
        MeasurePhase::ResolveExport => MeasurePhase::Invoke,
        MeasurePhase::Invoke => MeasurePhase::Done,
        MeasurePhase::Done => MeasurePhase::Done,
    }
}

/// The error that a failed stage surfaces.
pub open spec fn phase_error(p: MeasurePhase) -> HarnessError {
    match p {
        MeasurePhase::Load => HarnessError::IoError,
        MeasurePhase::Compile => HarnessError::CompileError,
        MeasurePhase::Instantiate => HarnessError::InstantiationError,
        MeasurePhase::ResolveExport => HarnessError::ExportLookupError,
        MeasurePhase::Invoke => HarnessError::ExecutionTrapError,
        MeasurePhase::Done => HarnessError::InvalidMeasurementError,
    }
}

/// Advances the protocol by one stage: success moves to the next stage,
/// failure aborts this measurement with that stage's error and no other.
pub fn advance(phase: MeasurePhase, succeeded: bool) -> (r: Result<MeasurePhase, HarnessError>)
    requires
        phase != MeasurePhase::Done,
    ensures
        succeeded ==> r == Ok::<MeasurePhase, HarnessError>(phase_next(phase)),
        !succeeded ==> r == Err::<MeasurePhase, HarnessError>(phase_error(phase)),
{
    if succeeded {
        Ok(
            match phase {
                MeasurePhase::Load => MeasurePhase::Compile,
                MeasurePhase::Compile => MeasurePhase::Instantiate,
                MeasurePhase::Instantiate => MeasurePhase::ResolveExport,
                MeasurePhase::ResolveExport => MeasurePhase::Invoke,
                MeasurePhase::Invoke => MeasurePhase::Done,
                MeasurePhase::Done => MeasurePhase::Done,
            },
        )
    } else {
        Err(
            match phase {
                MeasurePhase::Load => HarnessError::IoError,
                MeasurePhase::Compile => HarnessError::CompileError,
                MeasurePhase::Instantiate => HarnessError::InstantiationError,
                MeasurePhase::ResolveExport => HarnessError::ExportLookupError,
                MeasurePhase::Invoke => HarnessError::ExecutionTrapError,
                MeasurePhase::Done => HarnessError::InvalidMeasurementError,
            },
        )
    }
}

/// The kind of one WebAssembly value, for signature checks. The names are
/// the bytecode type vocabulary; no floating-point value is computed here.
#[derive(Clone, Copy, Debug, PartialEq, Eq, Structural)]
pub enum ValueKind {
    I32,
    I64,
    F32,
    F64,
}

/// An entry point's signature: argument and return kinds, in order.
#[derive(Debug)]
pub struct FuncSignature {
    pub params: Vec<ValueKind>,
    pub results: Vec<ValueKind>,
}

/// Whether two signatures match exactly: same argument and return arity,
/// same kind at every position.
pub open spec fn signatures_match(a: &FuncSignature, b: &FuncSignature) -> bool {
    a.params@ == b.params@ && a.results@ == b.results@
}

/// Compares two kind lists position by position.
fn kinds_equal(a: &Vec<ValueKind>, b: &Vec<ValueKind>) -> (r: bool)
    ensures
        r == (a@ == b@),
{
    if a.len() != b.len() {
        assert(a@ != b@);
        return false;
    }
    let n = a.len();
    let mut i: usize = 0;
    while i < n
        invariant
            i <= n,
            n == a@.len() == b@.len(),
            forall|j: int| 0 <= j < i ==> a@[j] == b@[j],
        decreases n - i,
    {
        if a[i] != b[i] {
            assert(a@[i as int] != b@[i as int]);
            return false;
        }
        i = i + 1;
    }
    assert(a@ =~= b@);
    true
}

/// Checks that two signatures match exactly.
pub fn signature_matches(expected: &FuncSignature, actual: &FuncSignature) -> (r: bool)
    ensures
        r == signatures_match(expected, actual),
{
    let p = kinds_equal(&expected.params, &actual.params);
    let q = kinds_equal(&expected.results, &actual.results);
    p && q
}

/// Resolves the named export: it must exist and its signature must match the
/// expected one exactly, else the measurement fails with an export-lookup
/// error.
pub fn check_export(actual: Option<&FuncSignature>, expected: &FuncSignature) -> (r: Result<
    (),
    HarnessError,
>)
    ensures
        r is Ok <==> (actual is Some && signatures_match(expected, actual->Some_0)),
        r is Err ==> r == Err::<(), HarnessError>(HarnessError::ExportLookupError),
{
    match actual {
        None => Err(HarnessError::ExportLookupError),
        Some(sig) => {
            if signature_matches(expected, sig) {
                Ok(())
            } else {
                Err(HarnessError::ExportLookupError)
            }
        },
    }
}

/// The elapsed time of an invocation: the difference of the timestamps taken
/// immediately before it and immediately after a successful return.
pub fn elapsed_nanos(start: u64, end: u64) -> (r: u64)
    requires
        start <= end,
    ensures
        r == end - start,
{
    end - start
}

} // verus!
