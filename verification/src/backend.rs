//! Backend configuration factory: one isolated compilation context per
//! backend kind, with backend-specific optimization settings.
//!
//! Every configuration enables NaN canonicalization (deterministic
//! floating-point results across backends) and the bytecode verifier
//! (malformed modules are rejected before compilation). An optimizing
//! backend gets its most aggressive declared optimization level; the
//! non-optimizing backend has no such knob.

use vstd::prelude::*;

verus! {

/// The compilation strategies under comparison.
#[derive(Clone, Copy, Debug, PartialEq, Eq, Structural)]
pub enum BackendKind {
    /// A fast single-pass compiler without an optimization knob.
    NonOptimizing,
    /// A mid-tier optimizing compiler.
    MidTierOptimizing,
    /// A fully optimizing compiler.
    AggressiveOptimizing,
}

/// An optimization level, in the vocabulary of the backend that declares it:
/// there is no universal scale.
#[derive(Clone, Copy, Debug, PartialEq, Eq, Structural)]
pub enum OptLevel {
    /// The mid-tier backend's speed-oriented level.
    Speed,
    /// The fully optimizing backend's most aggressive level.
    Aggressive,
}

/// The settings a store is built with. Immutable once constructed; a fresh
/// one is made per measurement.
#[derive(Clone, Copy, Debug, PartialEq, Eq, Structural)]
pub struct BackendSettings {
    /// Always on: deterministic floating-point results across backends.
    pub canonicalize_nans: bool,
    /// Always on: reject malformed modules before compilation.
    pub enable_verifier: bool,
    /// The backend's own most aggressive level; the non-optimizing backend
    /// has none.
    pub opt_level: Option<OptLevel>,
}

/// The settings that the factory assigns to each backend kind: a function of
/// the kind alone.
pub open spec fn settings_spec(kind: BackendKind) -> BackendSettings {
    BackendSettings {
        canonicalize_nans: true,
        enable_verifier: true,
        opt_level: match kind {
            BackendKind::NonOptimizing => None,
            BackendKind::MidTierOptimizing => Some(OptLevel::Speed),
            BackendKind::AggressiveOptimizing => Some(OptLevel::Aggressive),
        },
    }
}

/// The display label of each backend kind, for report lines.
pub open spec fn label_spec(kind: BackendKind) -> Seq<char> {
    match kind {
        BackendKind::NonOptimizing => "Single"@,
        BackendKind::MidTierOptimizing => "Crane"@,
        BackendKind::AggressiveOptimizing => "LLVM"@,
    }
}

/// Builds the configuration for one backend kind: NaN canonicalization and
/// the verifier always on, and the backend's own most aggressive
/// optimization level where it has one.
pub fn build_settings(kind: BackendKind) -> (r: BackendSettings)
    ensures
        r == settings_spec(kind),
        r.canonicalize_nans,
        r.enable_verifier,
{
    BackendSettings {
        canonicalize_nans: true,
        enable_verifier: true,
        opt_level: match kind {
            BackendKind::NonOptimizing => None,
            BackendKind::MidTierOptimizing => Some(OptLevel::Speed),
            BackendKind::AggressiveOptimizing => Some(OptLevel::Aggressive),
        },
    }
}

/// The display label of one backend kind.
pub fn display_label(kind: BackendKind) -> (r: &'static str)
    ensures
        r@ == label_spec(kind),
{
    match kind {
        BackendKind::NonOptimizing => "Single",
        BackendKind::MidTierOptimizing => "Crane",
        BackendKind::AggressiveOptimizing => "LLVM",
    }
}

/// The factory is deterministic: two invocations with the same backend kind
/// yield identical configurations.
pub proof fn lemma_factory_deterministic(a: BackendKind, b: BackendKind)
    requires
        a == b,
    ensures
        settings_spec(a) == settings_spec(b),
{
}

} // verus!
