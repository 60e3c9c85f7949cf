use shiba::execution::contract::{
    crossed_admission_threshold, AdmissionProgress, InputPosition, KernelCompletion, KernelPhase,
    OutputFacts, PhaseCode, PrimitiveFacts,
};
use shiba::planner::{WorkBudget, WorkUsage};


fn budget() -> WorkBudget {
    WorkBudget::new(2, 10, 3, 20)
}

#[test]
fn only_one_row_may_exceed_a_byte_budget() {
    WorkUsage {
        input_rows: 1,
        input_bytes: 11,
        output_rows: 1,
        output_bytes: 21,
    }
    .validate(budget())
    .unwrap();

    assert!(WorkUsage {
        input_rows: 2,
        input_bytes: 11,
        ..WorkUsage::default()
    }
    .validate(budget())
    .is_err());
    assert!(WorkUsage {
        output_rows: 4,
        output_bytes: 4,
        ..WorkUsage::default()
    }
    .validate(budget())
    .is_err());
}

#[test]
fn phase_codes_have_no_compatibility_decoder() {
    assert_eq!(PhaseCode::active(3).unwrap().value(), 3);
    assert!(PhaseCode::active(0).is_err());
    assert!(PhaseCode::active(-1).is_err());
}

#[test]
fn input_row_ordinals_are_zero_based() {
    assert_eq!(
        InputPosition::new(1, 2, 0).unwrap(),
        InputPosition {
            stream_id: 1,
            chunk_seq: 2,
            row_ordinal: 0,
        }
    );
    assert!(InputPosition::new(1, 2, -1).is_err());
}

#[test]
fn admission_progress_uses_geometric_thresholds_and_either_dimension() {
    let (progress, drain) = AdmissionProgress::default()
        .record(
            WorkUsage {
                input_rows: 2,
                input_bytes: 9,
                ..WorkUsage::default()
            },
            8,
            32,
            100,
            400,
        )
        .unwrap();
    assert_eq!(progress, AdmissionProgress::new(2, 9));
    assert!(!drain);
    let (progress, drain) = AdmissionProgress::new(7, 99)
        .record(
            WorkUsage {
                input_rows: 1,
                input_bytes: 1,
                ..WorkUsage::default()
            },
            8,
            32,
            100,
            400,
        )
        .unwrap();
    assert_eq!(progress, AdmissionProgress::new(8, 100));
    assert!(drain);
    assert!(progress
        .record(
            WorkUsage {
                input_rows: 0,
                input_bytes: 1,
                ..WorkUsage::default()
            },
            8,
            32,
            100,
            400
        )
        .is_err());
}

#[test]
fn admission_thresholds_become_fixed_intervals_at_the_cap() {
    for (before, after, expected) in [
        (0, 5, false),
        (5, 6, true),
        (6, 11, false),
        (11, 12, true),
        (12, 19, false),
        (19, 20, true),
        (20, 39, false),
        (39, 40, true),
    ] {
        assert_eq!(
            crossed_admission_threshold(before, after, 6, 20, "test").unwrap(),
            expected,
            "{before} -> {after}"
        );
    }
}

#[test]
fn admission_large_pages_trigger_once_and_progress_saturates_safely() {
    assert!(crossed_admission_threshold(7, 31, 8, 32, "test").unwrap());
    assert!(!crossed_admission_threshold(31, 31, 8, 32, "test").unwrap());
    assert!(AdmissionProgress::new(7, 7)
        .record(
            WorkUsage {
                input_rows: 1,
                input_bytes: 1,
                ..WorkUsage::default()
            },
            8,
            32,
            9,
            8,
        )
        .is_err());
    let maximum = i64::MAX as u64;
    let (progress, drain) = AdmissionProgress::new(maximum - 1, maximum - 1)
        .record(
            WorkUsage {
                input_rows: 10,
                input_bytes: 10,
                ..WorkUsage::default()
            },
            8,
            32,
            8,
            32,
        )
        .unwrap();
    assert_eq!(progress, AdmissionProgress::new(maximum, maximum));
    assert!(drain);
    let (_, drain_again) = progress
        .record(
            WorkUsage {
                input_rows: 1,
                input_bytes: 1,
                ..WorkUsage::default()
            },
            8,
            32,
            8,
            32,
        )
        .unwrap();
    assert!(drain_again);
}

#[test]
fn primitive_facts_require_exact_output_metadata() {
    let mut facts = PrimitiveFacts {
        usage: WorkUsage {
            output_rows: 1,
            output_bytes: 8,
            ..WorkUsage::default()
        },
        output: OutputFacts::Data { chunk_seq: 4 },
        ..PrimitiveFacts::default()
    };
    facts.validate(budget()).unwrap();
    facts.output = OutputFacts::Nothing;
    assert!(facts.validate(budget()).is_err());

    PrimitiveFacts {
        output: OutputFacts::Frontier { chunk_seq: 5 },
        ..PrimitiveFacts::default()
    }
    .validate(budget())
    .unwrap();
}

#[test]
fn primitive_protocol_requires_completion_to_match_continuation() {
    PrimitiveFacts {
        continuation_rows: 1,
        ..PrimitiveFacts::default()
    }
    .validate_protocol(budget(), KernelPhase::Admit, KernelCompletion::Continue)
    .unwrap();

    assert!(PrimitiveFacts::default()
        .validate_protocol(budget(), KernelPhase::Process, KernelCompletion::Continue)
        .is_err());
    assert!(PrimitiveFacts {
        continuation_rows: 1,
        ..PrimitiveFacts::default()
    }
    .validate_protocol(budget(), KernelPhase::Drain, KernelCompletion::Finished)
    .is_err());
}

#[test]
fn primitive_protocol_reserves_frontier_output_for_the_frontier_phase() {
    let facts = PrimitiveFacts {
        output: OutputFacts::Frontier { chunk_seq: 5 },
        ..PrimitiveFacts::default()
    };
    facts
        .validate_protocol(budget(), KernelPhase::Frontier, KernelCompletion::Finished)
        .unwrap();
    assert!(facts
        .validate_protocol(budget(), KernelPhase::Drain, KernelCompletion::Finished)
        .is_err());
    assert!(facts
        .validate_protocol(budget(), KernelPhase::Frontier, KernelCompletion::Continue)
        .is_err());
}

#[test]
fn zero_output_continue_is_valid_metadata_progress() {
    PrimitiveFacts {
        continuation_rows: 1,
        state_rows: 1,
        ..PrimitiveFacts::default()
    }
    .validate_protocol(budget(), KernelPhase::Drain, KernelCompletion::Continue)
    .unwrap();
}
