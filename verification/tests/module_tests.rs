use wasm_stack_consumer::aggregate::{aggregate_stack_trace, LineOutcome};
use wasm_stack_consumer::decode::{analyze_module, decode_sections};
use wasm_stack_consumer::error::FrameError;
use wasm_stack_consumer::sections::{count_func_imports, summarize_sections};

/// Unsigned LEB128 encoding.
fn uleb(mut v: u32) -> Vec<u8> {
    let mut out = Vec::new();
    loop {
        let byte = (v & 0x7f) as u8;
        v >>= 7;
        if v == 0 {
            out.push(byte);
            break;
        }
        out.push(byte | 0x80);
    }
    out
}

fn section(id: u8, payload: &[u8]) -> Vec<u8> {
    let mut out = vec![id];
    out.extend(uleb(payload.len() as u32));
    out.extend_from_slice(payload);
    out
}

fn func_import(module: &str, field: &str) -> Vec<u8> {
    let mut out = Vec::new();
    out.extend(uleb(module.len() as u32));
    out.extend_from_slice(module.as_bytes());
    out.extend(uleb(field.len() as u32));
    out.extend_from_slice(field.as_bytes());
    out.push(0x00); // function kind
    out.extend(uleb(0)); // type index
    out
}

fn code_body(instrs: &[u8]) -> Vec<u8> {
    let mut body = vec![0x00]; // no local declarations
    body.extend_from_slice(instrs);
    body.push(0x0b); // end
    let mut out = uleb(body.len() as u32);
    out.extend(body);
    out
}

fn name_section(entries: &[(&str, u32)]) -> Vec<u8> {
    let mut map = uleb(entries.len() as u32);
    for (name, index) in entries {
        map.extend(uleb(*index));
        map.extend(uleb(name.len() as u32));
        map.extend_from_slice(name.as_bytes());
    }
    let mut payload = uleb("name".len() as u32);
    payload.extend_from_slice("name".as_bytes());
    payload.push(0x01); // function-name subsection
    payload.extend(uleb(map.len() as u32));
    payload.extend(map);
    section(0, &payload)
}

/// A module with two function imports, one defined function whose prologue
/// is `global.get 0; i32.const 16; i32.sub; global.set 0`, and name
/// metadata mapping "foo" to global index 2.
fn scenario_module(body_instrs: &[u8]) -> Vec<u8> {
    let mut bytes = vec![0x00, 0x61, 0x73, 0x6d, 0x01, 0x00, 0x00, 0x00];
    let mut imports = uleb(2);
    imports.extend(func_import("env", "a"));
    imports.extend(func_import("env", "b"));
    bytes.extend(section(2, &imports));
    let mut funcs = uleb(1);
    funcs.extend(uleb(0)); // type index of the one defined function
    bytes.extend(section(3, &funcs));
    let mut code = uleb(1);
    code.extend(code_body(body_instrs));
    bytes.extend(section(10, &code));
    bytes.extend(name_section(&[("foo", 2)]));
    bytes
}

const PROLOGUE_16: &[u8] = &[
    0x23, 0x00, // global.get 0
    0x41, 0x10, // i32.const 16
    0x6b, // i32.sub
    0x24, 0x00, // global.set 0
];

#[test]
fn module_with_imports_and_named_function() {
    let bytes = scenario_module(PROLOGUE_16);
    let sections = decode_sections(&bytes).unwrap();
    assert_eq!(count_func_imports(&sections), Some(2));
    let summary = summarize_sections(&sections, 0);
    assert_eq!(summary.index_space.base, 2);
    assert_eq!(summary.frame_sizes, vec![Ok(16)]);
    assert_eq!(summary.names.get(&"foo".to_string()), Some(2));

    let lines: Vec<String> = vec!["foo".to_string(), "foo".to_string()];
    let report = aggregate_stack_trace(
        &lines,
        &summary.names,
        &summary.frame_sizes,
        &summary.index_space,
    );
    assert_eq!(report.total, 32);
    assert_eq!(report.reports.len(), 2);
    for r in &report.reports {
        assert_eq!(
            r.outcome,
            LineOutcome::Resolved {
                global_index: 2,
                size: 16
            }
        );
    }
    assert!(report.failed_lines.is_empty());
}

#[test]
fn trace_name_absent_is_reported_once() {
    let bytes = scenario_module(PROLOGUE_16);
    let summary = analyze_module(&bytes, 0).unwrap();
    let lines: Vec<String> = vec![
        "ghost".to_string(),
        "foo".to_string(),
        "ghost".to_string(),
    ];
    let report = aggregate_stack_trace(
        &lines,
        &summary.names,
        &summary.frame_sizes,
        &summary.index_space,
    );
    assert_eq!(report.total, 16);
    assert_eq!(report.reports[0].outcome, LineOutcome::NameNotFound);
    assert!(report.reports[0].first_failure);
    assert_eq!(report.reports[2].outcome, LineOutcome::NameNotFound);
    assert!(!report.reports[2].first_failure);
    assert_eq!(report.failed_lines, vec!["ghost".to_string()]);
}

#[test]
fn two_stack_pointer_writes_contribute_nothing() {
    let mut body = PROLOGUE_16.to_vec();
    body.extend_from_slice(PROLOGUE_16);
    let bytes = scenario_module(&body);
    let summary = analyze_module(&bytes, 0).unwrap();
    assert_eq!(
        summary.frame_sizes,
        vec![Err(FrameError::MultipleStackPointerWrites)]
    );
    let lines: Vec<String> = vec!["foo".to_string()];
    let report = aggregate_stack_trace(
        &lines,
        &summary.names,
        &summary.frame_sizes,
        &summary.index_space,
    );
    assert_eq!(report.total, 0);
    assert_eq!(
        report.reports[0].outcome,
        LineOutcome::EstimateFailed {
            error: FrameError::MultipleStackPointerWrites
        }
    );
    assert!(report.reports[0].first_failure);
}

#[test]
fn leaf_function_has_no_stack_pointer_write() {
    // body: i32.const 1; drop
    let bytes = scenario_module(&[0x41, 0x01, 0x1a]);
    let summary = analyze_module(&bytes, 0).unwrap();
    assert_eq!(
        summary.frame_sizes,
        vec![Err(FrameError::NoStackPointerWrite)]
    );
}

#[test]
fn alternate_stack_pointer_slot_index() {
    // body: global.get 3; i32.const 64; i32.sub; global.set 3
    let bytes = scenario_module(&[0x23, 0x03, 0x41, 0xc0, 0x00, 0x6b, 0x24, 0x03]);
    let summary = analyze_module(&bytes, 3).unwrap();
    assert_eq!(summary.frame_sizes, vec![Ok(64)]);
}

#[test]
fn garbage_bytes_fail_to_decode() {
    let bytes = vec![0x01, 0x02, 0x03, 0x04];
    assert!(decode_sections(&bytes).is_err());
    assert!(analyze_module(&bytes, 0).is_err());
}

#[test]
fn module_from_text_format() {
    let bytes = wat::parse_str(
        "(module
            (import \"env\" \"callback\" (func))
            (global (mut i32) (i32.const 1024))
            (func
                global.get 0
                i32.const 32
                i32.sub
                global.set 0)
            (func
                nop))",
    )
    .unwrap();
    let sections = decode_sections(&bytes).unwrap();
    assert_eq!(count_func_imports(&sections), Some(1));
    let summary = summarize_sections(&sections, 0);
    assert_eq!(summary.index_space.base, 1);
    assert_eq!(summary.frame_sizes.len(), 2);
    assert_eq!(summary.frame_sizes[0], Ok(32));
    assert_eq!(
        summary.frame_sizes[1],
        Err(FrameError::NoStackPointerWrite)
    );
}
