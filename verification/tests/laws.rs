use elephc::codegen::abi::emit_load_int_immediate;
use elephc::codegen::emit::Emitter;
use elephc::codegen::platform::{Arch, Platform, Target};
use elephc::codegen::runtime::io::stream_filter::emit_apply_stream_filter;
use elephc::codegen_ir::lower_inst::callables::label_fragment;
use elephc::codegen_support::runtime::io::ob_buffer::emit_ob_start;
use elephc::codegen::runtime::exceptions::throwable_methods::emit_throwable_methods;
use elephc::explode_prelude::{inject_if_used, TopLevelStmt};
use elephc::types::PhpType;

const TARGETS: [(Platform, Arch); 4] = [
    (Platform::MacOS, Arch::AArch64),
    (Platform::Linux, Arch::AArch64),
    (Platform::Linux, Arch::X86_64),
    (Platform::MacOS, Arch::X86_64),
];

#[test]
fn emitting_after_other_lines_appends_the_same_block() {
    for (platform, arch) in TARGETS {
        let target = Target::new(platform, arch);
        let mut alone = Emitter::new(target);
        emit_ob_start(&mut alone);
        emit_apply_stream_filter(&mut alone);
        let mut after = Emitter::new(target);
        after.comment("prologue");
        after.instruction("nop");
        let before = after.output();
        emit_ob_start(&mut after);
        emit_apply_stream_filter(&mut after);
        assert_eq!(after.output(), format!("{}{}", before, alone.output()));
    }
}

/// Rebuilds the value a `mov` or `movz`/`movk` sequence leaves in its register.
fn loaded_value(listing: &str) -> u64 {
    let mut value: u64 = 0;
    for line in listing.lines() {
        let line = line.trim();
        if let Some(rest) = line.strip_prefix("mov x5, #") {
            return rest.parse::<i64>().unwrap() as u64;
        } else if let Some(rest) = line.strip_prefix("movz x5, #") {
            value = rest.parse::<u64>().unwrap();
        } else if let Some(rest) = line.strip_prefix("movk x5, #") {
            let (chunk, shift) = rest.split_once(", lsl #").unwrap();
            let chunk: u64 = chunk.parse().unwrap();
            let shift: u32 = shift.parse().unwrap();
            assert!(chunk <= 0xffff && chunk != 0);
            value = (value & !(0xffffu64 << shift)) | (chunk << shift);
        } else {
            panic!("unexpected line {line}");
        }
    }
    value
}

#[test]
fn immediate_loads_reassemble_the_value() {
    for value in [0i64, 1, -1, 65535, -65535, 65536, -65536, 0x1234_5678_9abc_def0, i64::MAX - 1, i64::MIN, 0x0001_0000_0000_0000] {
        let mut e = Emitter::new(Target::new(Platform::Linux, Arch::AArch64));
        emit_load_int_immediate(&mut e, "x5", value);
        assert_eq!(loaded_value(&e.output()), value as u64, "value {value}");
    }
}

#[test]
fn label_fragments_are_label_safe() {
    for name in ["plain", "ns\\fn", "ünïcødé", "a-b.c d", ""] {
        let fragment = label_fragment(name);
        assert_eq!(fragment.chars().count(), name.chars().count());
        assert!(fragment.chars().all(|c| c.is_ascii_alphanumeric() || c == '_'));
    }
}

#[test]
fn injecting_twice_is_injecting_once() {
    let program = vec![TopLevelStmt {
        declared_function: None,
        rendered: "explode".to_string(),
        node: 10,
    }];
    let once = inject_if_used(program, 1);
    let once_nodes: Vec<i32> = once.iter().map(|s| s.node).collect();
    assert_eq!(once_nodes, vec![1, 10]);
    let twice = inject_if_used(once, 1);
    let twice_nodes: Vec<i32> = twice.iter().map(|s| s.node).collect();
    assert_eq!(twice_nodes, once_nodes);
}

#[test]
fn throwable_bodies_cover_every_method() {
    for (platform, arch) in TARGETS {
        let mut e = Emitter::new(Target::new(platform, arch));
        emit_throwable_methods(&mut e);
        let listing = e.output();
        for method in [
            "get_message",
            "get_code",
            "get_previous",
            "get_file",
            "get_line",
            "get_trace",
            "get_trace_as_string",
            "to_string",
        ] {
            assert!(
                listing.contains(&format!(".globl __rt_throwable_{method}\n")),
                "missing {method} for {:?}/{:?}",
                platform,
                arch
            );
        }
    }
}

#[test]
fn type_equality_is_an_equivalence() {
    let types = vec![
        PhpType::Int,
        PhpType::Union(vec![PhpType::Str, PhpType::Pointer(None)]),
        PhpType::Union(vec![PhpType::Str, PhpType::Pointer(None)]),
        PhpType::Array(Box::new(PhpType::Object("A".to_string()))),
        PhpType::Array(Box::new(PhpType::Object("B".to_string()))),
        PhpType::Pointer(Some("FILE".to_string())),
    ];
    for a in &types {
        assert!(a.same_as(a));
        for b in &types {
            assert_eq!(a.same_as(b), b.same_as(a));
            for c in &types {
                if a.same_as(b) && b.same_as(c) {
                    assert!(a.same_as(c));
                }
            }
        }
    }
    assert!(types[1].same_as(&types[2]));
    assert!(!types[3].same_as(&types[4]));
}
