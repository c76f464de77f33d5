// Tests of the harness side: backend configuration factory, native baseline
// with its sanity guard, measurement protocol, signature checks, and the
// report formatter.

use stylus_benchmark::backend::{build_settings, display_label, BackendKind, OptLevel};
use stylus_benchmark::baseline::{check_measurement, native_baseline, run_reference_computation};
use stylus_benchmark::error::HarnessError;
use stylus_benchmark::report::{format_benchmark_line, format_duration, format_report, BenchmarkResult};
use stylus_benchmark::timer::{
    advance, check_export, elapsed_nanos, signature_matches, FuncSignature, MeasurePhase,
    ValueKind,
};

#[test]
fn factory_is_deterministic_per_kind() {
    for kind in [
        BackendKind::NonOptimizing,
        BackendKind::MidTierOptimizing,
        BackendKind::AggressiveOptimizing,
    ] {
        let a = build_settings(kind);
        let b = build_settings(kind);
        assert_eq!(a, b);
        assert!(a.canonicalize_nans);
        assert!(a.enable_verifier);
    }
}

#[test]
fn factory_picks_the_backend_specific_level() {
    assert_eq!(build_settings(BackendKind::NonOptimizing).opt_level, None);
    assert_eq!(
        build_settings(BackendKind::MidTierOptimizing).opt_level,
        Some(OptLevel::Speed)
    );
    assert_eq!(
        build_settings(BackendKind::AggressiveOptimizing).opt_level,
        Some(OptLevel::Aggressive)
    );
}

#[test]
fn backend_labels() {
    assert_eq!(display_label(BackendKind::NonOptimizing), "Single");
    assert_eq!(display_label(BackendKind::MidTierOptimizing), "Crane");
    assert_eq!(display_label(BackendKind::AggressiveOptimizing), "LLVM");
}

#[test]
fn baseline_output_differs_from_all_zero() {
    let out = native_baseline(100).unwrap();
    assert_eq!(out.len(), 32);
    assert_ne!(out, vec![0u8; 32]);
}

#[test]
fn baseline_replay_is_deterministic() {
    let a = native_baseline(100).unwrap();
    let b = native_baseline(100).unwrap();
    assert_eq!(a, b);
}

#[test]
fn baseline_first_round_matches_known_digest() {
    // The Keccak-256 digest of 32 zero bytes.
    let expected: [u8; 32] = [
        0x29, 0x0d, 0xec, 0xd9, 0x54, 0x8b, 0x62, 0xa8, 0xd6, 0x03, 0x45, 0xa9, 0x88, 0x38,
        0x6f, 0xc8, 0x4b, 0xa6, 0xbc, 0x95, 0x48, 0x40, 0x08, 0xf6, 0x36, 0x2f, 0x93, 0x16,
        0x0e, 0xf3, 0xe5, 0x63,
    ];
    let out = run_reference_computation(1);
    assert_eq!(out, expected.to_vec());
}

#[test]
fn zero_iterations_fail_the_sanity_guard() {
    assert_eq!(
        native_baseline(0),
        Err(HarnessError::InvalidMeasurementError)
    );
}

#[test]
fn guard_rejects_all_zero_and_accepts_the_rest() {
    assert_eq!(
        check_measurement(&vec![0u8; 32]),
        Err(HarnessError::InvalidMeasurementError)
    );
    let mut one = vec![0u8; 32];
    one[31] = 1;
    assert_eq!(check_measurement(&one), Ok(()));
}

#[test]
fn protocol_advances_in_order() {
    assert_eq!(
        advance(MeasurePhase::Load, true),
        Ok(MeasurePhase::Compile)
    );
    assert_eq!(
        advance(MeasurePhase::Compile, true),
        Ok(MeasurePhase::Instantiate)
    );
    assert_eq!(
        advance(MeasurePhase::Instantiate, true),
        Ok(MeasurePhase::ResolveExport)
    );
    assert_eq!(
        advance(MeasurePhase::ResolveExport, true),
        Ok(MeasurePhase::Invoke)
    );
    assert_eq!(advance(MeasurePhase::Invoke, true), Ok(MeasurePhase::Done));
}

#[test]
fn protocol_surfaces_the_stage_error() {
    assert_eq!(
        advance(MeasurePhase::Load, false),
        Err(HarnessError::IoError)
    );
    assert_eq!(
        advance(MeasurePhase::Compile, false),
        Err(HarnessError::CompileError)
    );
    assert_eq!(
        advance(MeasurePhase::Instantiate, false),
        Err(HarnessError::InstantiationError)
    );
    assert_eq!(
        advance(MeasurePhase::ResolveExport, false),
        Err(HarnessError::ExportLookupError)
    );
    assert_eq!(
        advance(MeasurePhase::Invoke, false),
        Err(HarnessError::ExecutionTrapError)
    );
}

#[test]
fn error_names() {
    assert_eq!(HarnessError::ConfigurationError.describe(), "configuration");
    assert_eq!(HarnessError::IoError.describe(), "io");
    assert_eq!(HarnessError::CompileError.describe(), "compile");
    assert_eq!(HarnessError::InstantiationError.describe(), "instantiation");
    assert_eq!(HarnessError::ExportLookupError.describe(), "export lookup");
    assert_eq!(HarnessError::ExecutionTrapError.describe(), "execution trap");
    assert_eq!(
        HarnessError::InvalidMeasurementError.describe(),
        "invalid measurement"
    );
}

fn sig(params: Vec<ValueKind>, results: Vec<ValueKind>) -> FuncSignature {
    FuncSignature { params, results }
}

#[test]
fn signatures_compare_exactly() {
    let a = sig(vec![ValueKind::I32, ValueKind::I32], vec![ValueKind::I32]);
    let b = sig(vec![ValueKind::I32, ValueKind::I32], vec![ValueKind::I32]);
    assert!(signature_matches(&a, &b));
    let wrong_arity = sig(vec![ValueKind::I32], vec![ValueKind::I32]);
    assert!(!signature_matches(&a, &wrong_arity));
    let wrong_kind = sig(vec![ValueKind::I32, ValueKind::I64], vec![ValueKind::I32]);
    assert!(!signature_matches(&a, &wrong_kind));
    let wrong_results = sig(vec![ValueKind::I32, ValueKind::I32], vec![]);
    assert!(!signature_matches(&a, &wrong_results));
}

#[test]
fn export_lookup_requires_presence_and_signature() {
    let expected = sig(vec![ValueKind::I32], vec![ValueKind::I32]);
    assert_eq!(
        check_export(None, &expected),
        Err(HarnessError::ExportLookupError)
    );
    let mismatched = sig(vec![ValueKind::I64], vec![ValueKind::I32]);
    assert_eq!(
        check_export(Some(&mismatched), &expected),
        Err(HarnessError::ExportLookupError)
    );
    let matching = sig(vec![ValueKind::I32], vec![ValueKind::I32]);
    assert_eq!(check_export(Some(&matching), &expected), Ok(()));
}

#[test]
fn elapsed_is_the_timestamp_difference() {
    assert_eq!(elapsed_nanos(100, 350), 250);
    assert_eq!(elapsed_nanos(7, 7), 0);
}

#[test]
fn durations_render_with_the_largest_fitting_unit() {
    assert_eq!(format_duration(0), "0ns");
    assert_eq!(format_duration(123), "123ns");
    assert_eq!(format_duration(999), "999ns");
    assert_eq!(format_duration(45_600), "45.6us");
    assert_eq!(format_duration(999_999), "999.9us");
    assert_eq!(format_duration(12_300_000), "12.3ms");
    assert_eq!(format_duration(1_500_000_000), "1.5s");
}

#[test]
fn report_lines_are_labeled() {
    assert_eq!(format_benchmark_line("Native", 12_300_000), "Native:  12.3ms");
}

#[test]
fn report_preserves_insertion_order() {
    let results = vec![
        BenchmarkResult { label: "Native".to_string(), elapsed_nanos: 12_300_000 },
        BenchmarkResult { label: "LLVM".to_string(), elapsed_nanos: 45_600 },
        BenchmarkResult { label: "Crane".to_string(), elapsed_nanos: 999 },
        BenchmarkResult { label: "Single".to_string(), elapsed_nanos: 1_500_000_000 },
    ];
    let lines = format_report(&results);
    assert_eq!(
        lines,
        vec![
            "Native:  12.3ms".to_string(),
            "LLVM:  45.6us".to_string(),
            "Crane:  999ns".to_string(),
            "Single:  1.5s".to_string(),
        ]
    );
}
