use wasm_stack_consumer::aggregate::{aggregate_stack_trace, LineOutcome};
use wasm_stack_consumer::error::FrameError;
use wasm_stack_consumer::eval::estimate_stack_alloc_size;
use wasm_stack_consumer::expr::SymbolicValue;
use wasm_stack_consumer::instr::Instr;
use wasm_stack_consumer::names::{collect_func_names, NameTable};
use wasm_stack_consumer::prologue::collect_until_sp_write;
use wasm_stack_consumer::resolver::{FunctionIndexSpace, ResolveError};

fn idiom(k: i32) -> Vec<Instr> {
    vec![
        Instr::GlobalGet { index: 0 },
        Instr::I32Const { value: k },
        Instr::I32Sub,
        Instr::GlobalSet { index: 0 },
    ]
}

#[test]
fn plain_idiom_returns_constant() {
    assert_eq!(estimate_stack_alloc_size(&idiom(16), 0), Ok(16));
}

#[test]
fn idiom_with_tee_returns_constant() {
    let body = vec![
        Instr::GlobalGet { index: 0 },
        Instr::I32Const { value: 48 },
        Instr::I32Sub,
        Instr::LocalTee { index: 1 },
        Instr::GlobalSet { index: 0 },
    ];
    assert_eq!(estimate_stack_alloc_size(&body, 0), Ok(48));
}

#[test]
fn trailing_instructions_are_ignored() {
    let mut body = idiom(128);
    body.push(Instr::Other);
    body.push(Instr::I32Const { value: 7 });
    body.push(Instr::GlobalSet { index: 3 });
    assert_eq!(estimate_stack_alloc_size(&body, 0), Ok(128));
}

#[test]
fn sp_through_local_returns_constant() {
    let body = vec![
        Instr::GlobalGet { index: 0 },
        Instr::LocalSet { index: 3 },
        Instr::LocalGet { index: 3 },
        Instr::I32Const { value: 8 },
        Instr::I32Sub,
        Instr::GlobalSet { index: 0 },
    ];
    assert_eq!(estimate_stack_alloc_size(&body, 0), Ok(8));
}

#[test]
fn no_write_is_classified() {
    let body = vec![Instr::I32Const { value: 1 }, Instr::Other];
    assert_eq!(
        estimate_stack_alloc_size(&body, 0),
        Err(FrameError::NoStackPointerWrite)
    );
}

#[test]
fn empty_body_has_no_write() {
    let body: Vec<Instr> = vec![];
    assert_eq!(
        estimate_stack_alloc_size(&body, 0),
        Err(FrameError::NoStackPointerWrite)
    );
}

#[test]
fn two_writes_are_classified() {
    let mut body = idiom(16);
    body.extend(idiom(32));
    assert_eq!(
        estimate_stack_alloc_size(&body, 0),
        Err(FrameError::MultipleStackPointerWrites)
    );
}

#[test]
fn two_writes_win_over_unsupported_content() {
    let body = vec![
        Instr::Other,
        Instr::GlobalSet { index: 0 },
        Instr::Other,
        Instr::GlobalSet { index: 0 },
    ];
    assert_eq!(
        estimate_stack_alloc_size(&body, 0),
        Err(FrameError::MultipleStackPointerWrites)
    );
}

#[test]
fn write_to_other_global_does_not_count() {
    let body = vec![
        Instr::I32Const { value: 3 },
        Instr::GlobalSet { index: 7 },
        Instr::GlobalGet { index: 0 },
        Instr::I32Const { value: 64 },
        Instr::I32Sub,
        Instr::GlobalSet { index: 0 },
    ];
    assert_eq!(estimate_stack_alloc_size(&body, 0), Ok(64));
}

#[test]
fn unsupported_instruction_is_carried() {
    let body = vec![Instr::Other, Instr::GlobalSet { index: 0 }];
    assert_eq!(
        estimate_stack_alloc_size(&body, 0),
        Err(FrameError::UnsupportedPrologueInstruction {
            instr: Instr::Other
        })
    );
}

#[test]
fn subtracting_two_immediates_is_unsupported() {
    let body = vec![
        Instr::I32Const { value: 1 },
        Instr::I32Const { value: 2 },
        Instr::I32Sub,
        Instr::GlobalSet { index: 0 },
    ];
    assert_eq!(
        estimate_stack_alloc_size(&body, 0),
        Err(FrameError::UnsupportedPrologueInstruction {
            instr: Instr::I32Sub
        })
    );
}

#[test]
fn constant_written_to_sp_is_unrecognized() {
    let body = vec![Instr::I32Const { value: 5 }, Instr::GlobalSet { index: 0 }];
    assert_eq!(
        estimate_stack_alloc_size(&body, 0),
        Err(FrameError::StackPointerUnchangedOrUnrecognized)
    );
}

#[test]
fn decrement_of_another_global_is_unrecognized() {
    let body = vec![
        Instr::GlobalGet { index: 1 },
        Instr::I32Const { value: 8 },
        Instr::I32Sub,
        Instr::GlobalSet { index: 0 },
    ];
    assert_eq!(
        estimate_stack_alloc_size(&body, 0),
        Err(FrameError::StackPointerUnchangedOrUnrecognized)
    );
}

#[test]
fn nonzero_sp_index_is_respected() {
    let body = vec![
        Instr::GlobalGet { index: 2 },
        Instr::I32Const { value: 24 },
        Instr::I32Sub,
        Instr::GlobalSet { index: 2 },
    ];
    assert_eq!(estimate_stack_alloc_size(&body, 2), Ok(24));
    assert_eq!(
        estimate_stack_alloc_size(&body, 0),
        Err(FrameError::NoStackPointerWrite)
    );
}

#[test]
fn prologue_prefix_ends_at_first_write() {
    let mut body = idiom(16);
    body.push(Instr::Other);
    let p = collect_until_sp_write(&body, 0).unwrap();
    assert_eq!(p.instrs, idiom(16));
    assert!(!p.has_additional_sp_write);

    body.push(Instr::GlobalSet { index: 0 });
    let p = collect_until_sp_write(&body, 0).unwrap();
    assert_eq!(p.instrs, idiom(16));
    assert!(p.has_additional_sp_write);
}

#[test]
fn symbolic_sub_shapes() {
    let g = SymbolicValue::UnknownGlobal { index: 4 };
    let i = SymbolicValue::Immediate { value: 9 };
    assert_eq!(
        g.sub(i),
        Some(SymbolicValue::Computed {
            base_global: 4,
            minus: 9
        })
    );
    assert_eq!(i.sub(g), None);
    assert_eq!(i.sub(i), None);
    let l = SymbolicValue::UnknownLocal { index: 1 };
    assert_eq!(l.sub(i), None);
}

#[test]
fn index_space_roundtrip() {
    let space = FunctionIndexSpace::new(2);
    assert_eq!(space.to_code_local(2), Ok(0));
    assert_eq!(space.to_code_local(5), Ok(3));
    assert_eq!(space.to_code_local(1), Err(ResolveError::NotLocallyDefined));
    assert_eq!(space.to_global(3), Some(5));
}

#[test]
fn name_table_last_entry_wins() {
    let pairs = vec![
        ("foo".to_string(), 2u32),
        ("bar".to_string(), 3u32),
        ("foo".to_string(), 7u32),
    ];
    let table = collect_func_names(&pairs);
    assert_eq!(table.get(&"foo".to_string()), Some(7));
    assert_eq!(table.get(&"bar".to_string()), Some(3));
    assert_eq!(table.get(&"baz".to_string()), None);
}

#[test]
fn empty_name_table_resolves_nothing() {
    let table = NameTable::new();
    assert_eq!(table.get(&"anything".to_string()), None);
}

fn sample_summary() -> (NameTable, Vec<Result<usize, FrameError>>, FunctionIndexSpace) {
    let pairs = vec![
        ("ok16".to_string(), 2u32),
        ("ok32".to_string(), 3u32),
        ("bad".to_string(), 4u32),
        ("import".to_string(), 0u32),
        ("dangling".to_string(), 9u32),
    ];
    let table = collect_func_names(&pairs);
    let sizes: Vec<Result<usize, FrameError>> = vec![
        Ok(16),
        Ok(32),
        Err(FrameError::MultipleStackPointerWrites),
    ];
    (table, sizes, FunctionIndexSpace::new(2))
}

#[test]
fn aggregation_total_sums_only_resolved_lines() {
    let (table, sizes, space) = sample_summary();
    let lines: Vec<String> = vec![
        "ok16".to_string(),
        "bad".to_string(),
        "ok32".to_string(),
        "missing".to_string(),
        "ok16".to_string(),
    ];
    let report = aggregate_stack_trace(&lines, &table, &sizes, &space);
    assert_eq!(report.total, 16 + 32 + 16);
    assert_eq!(report.reports.len(), 5);
    assert_eq!(
        report.reports[0].outcome,
        LineOutcome::Resolved {
            global_index: 2,
            size: 16
        }
    );
    assert_eq!(
        report.reports[1].outcome,
        LineOutcome::EstimateFailed {
            error: FrameError::MultipleStackPointerWrites
        }
    );
    assert_eq!(report.reports[3].outcome, LineOutcome::NameNotFound);
}

#[test]
fn aggregation_reports_each_failing_text_once() {
    let (table, sizes, space) = sample_summary();
    let lines: Vec<String> = vec![
        "missing".to_string(),
        "missing".to_string(),
        "bad".to_string(),
        "missing".to_string(),
        "bad".to_string(),
    ];
    let report = aggregate_stack_trace(&lines, &table, &sizes, &space);
    assert_eq!(report.total, 0);
    assert_eq!(
        report.failed_lines,
        vec!["missing".to_string(), "bad".to_string()]
    );
    assert!(report.reports[0].first_failure);
    assert!(!report.reports[1].first_failure);
    assert!(report.reports[2].first_failure);
    assert!(!report.reports[3].first_failure);
    assert!(!report.reports[4].first_failure);
}

#[test]
fn aggregation_classifies_imports_and_dangling_references() {
    let (table, sizes, space) = sample_summary();
    let lines: Vec<String> = vec!["import".to_string(), "dangling".to_string()];
    let report = aggregate_stack_trace(&lines, &table, &sizes, &space);
    assert_eq!(report.total, 0);
    assert_eq!(report.reports[0].outcome, LineOutcome::NotLocallyDefined);
    assert_eq!(report.reports[1].outcome, LineOutcome::DanglingNameReference);
}

#[test]
fn error_descriptions_are_stable() {
    assert_eq!(
        FrameError::NoStackPointerWrite.describe(),
        "no set operation for stack pointer found"
    );
    assert_eq!(
        FrameError::MultipleStackPointerWrites.describe(),
        "more than one set operation for stack pointer found"
    );
    assert_eq!(
        FrameError::UnsupportedPrologueInstruction {
            instr: Instr::Other
        }
        .describe(),
        "unrecognized operator"
    );
    assert_eq!(
        FrameError::StackPointerUnchangedOrUnrecognized.describe(),
        "stack pointer is not changed"
    );
}
