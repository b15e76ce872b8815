use elephc::codegen::abi::{
    emit_call_label, emit_jump, emit_load_int_immediate, emit_load_symbol_to_int_result,
    emit_load_symbol_to_reg, emit_store_reg_to_symbol, emit_symbol_address, int_result_reg,
    string_result_regs,
};
use elephc::codegen::emit::Emitter;
use elephc::codegen::platform::{Arch, Platform, Target};
use elephc::codegen::runtime::system::get_debug_type::emit_get_debug_type_data;
use elephc::codegen::runtime::system::json_data::emit_json_data;
use elephc::codegen::text::{append_decimal, append_hex, join3, with_decimal};

fn emitter(platform: Platform, arch: Arch) -> Emitter {
    Emitter::new(Target::new(platform, arch))
}

#[test]
fn decimal_and_hex_text() {
    let mut s = String::new();
    append_decimal(&mut s, 0);
    s.push(' ');
    append_decimal(&mut s, -42);
    s.push(' ');
    append_decimal(&mut s, i64::MIN);
    s.push(' ');
    append_hex(&mut s, 0xdead_beef);
    s.push(' ');
    append_hex(&mut s, u64::MAX);
    assert_eq!(s, "0 -42 -9223372036854775808 deadbeef ffffffffffffffff");
    assert_eq!(with_decimal("cmp x10, #", 64, ""), "cmp x10, #64");
    assert_eq!(join3("a", "bc", "d"), "abcd");
}

#[test]
fn result_registers_per_arch() {
    let arm = emitter(Platform::MacOS, Arch::AArch64);
    let x86 = emitter(Platform::Linux, Arch::X86_64);
    assert_eq!(int_result_reg(&arm), "x0");
    assert_eq!(int_result_reg(&x86), "rax");
    assert_eq!(string_result_regs(&arm), ("x1", "x2"));
    assert_eq!(string_result_regs(&x86), ("rax", "rdx"));
}

#[test]
fn symbol_addressing_per_platform() {
    let mut mac = emitter(Platform::MacOS, Arch::AArch64);
    emit_symbol_address(&mut mac, "x9", "_ob_level");
    assert_eq!(mac.output(), "    adrp x9, _ob_level@PAGE\n    add x9, x9, _ob_level@PAGEOFF\n");
    let mut linux = emitter(Platform::Linux, Arch::AArch64);
    emit_symbol_address(&mut linux, "x9", "_ob_level");
    assert_eq!(linux.output(), "    adrp x9, _ob_level\n    add x9, x9, :lo12:_ob_level\n");
    let mut x86 = emitter(Platform::Linux, Arch::X86_64);
    emit_symbol_address(&mut x86, "rax", "_ob_level");
    assert_eq!(x86.output(), "    lea rax, [rip + _ob_level]\n");
}

#[test]
fn loads_and_stores_of_data_words() {
    let mut linux = emitter(Platform::Linux, Arch::AArch64);
    emit_load_symbol_to_reg(&mut linux, "x3", "_gc_live", 8);
    emit_store_reg_to_symbol(&mut linux, "x3", "_gc_peak", 0);
    assert_eq!(
        linux.output(),
        "    adrp x3, _gc_live\n    add x3, x3, :lo12:_gc_live\n    ldr x3, [x3, #8]\n    adrp x16, _gc_peak\n    add x16, x16, :lo12:_gc_peak\n    str x3, [x16, #0]\n"
    );
    let mut x86 = emitter(Platform::Linux, Arch::X86_64);
    emit_load_symbol_to_reg(&mut x86, "rcx", "_gc_live", 0);
    emit_store_reg_to_symbol(&mut x86, "rcx", "_gc_peak", 16);
    emit_load_symbol_to_int_result(&mut x86, "_gc_peak");
    assert_eq!(
        x86.output(),
        "    mov rcx, QWORD PTR [rip + _gc_live]\n    mov QWORD PTR [rip + _gc_peak + 16], rcx\n    mov rax, QWORD PTR [rip + _gc_peak]\n"
    );
}

#[test]
fn calls_and_jumps_per_arch() {
    let mut arm = emitter(Platform::MacOS, Arch::AArch64);
    emit_call_label(&mut arm, "__rt_itoa");
    emit_jump(&mut arm, "__rt_done");
    assert_eq!(arm.output(), "    bl __rt_itoa\n    b __rt_done\n");
    let mut x86 = emitter(Platform::Linux, Arch::X86_64);
    emit_call_label(&mut x86, "__rt_itoa");
    emit_jump(&mut x86, "__rt_done");
    assert_eq!(x86.output(), "    call __rt_itoa\n    jmp __rt_done\n");
}

#[test]
fn wide_immediates_skip_zero_chunks() {
    let mut arm = emitter(Platform::Linux, Arch::AArch64);
    emit_load_int_immediate(&mut arm, "x1", 65535);
    emit_load_int_immediate(&mut arm, "x1", -65535);
    emit_load_int_immediate(&mut arm, "x1", 65536);
    emit_load_int_immediate(&mut arm, "x1", 0x1_0000_0001);
    emit_load_int_immediate(&mut arm, "x1", -65536);
    assert_eq!(
        arm.output(),
        "    mov x1, #65535\n    mov x1, #-65535\n    movz x1, #0\n    movk x1, #1, lsl #16\n    movz x1, #1\n    movk x1, #1, lsl #32\n    movz x1, #0\n    movk x1, #65535, lsl #16\n    movk x1, #65535, lsl #32\n    movk x1, #65535, lsl #48\n"
    );
    let mut x86 = emitter(Platform::Linux, Arch::X86_64);
    emit_load_int_immediate(&mut x86, "rsi", -7);
    assert_eq!(x86.output(), "    mov rsi, -7\n");
}

#[test]
fn comments_and_labels_render_per_dialect() {
    let mut arm = emitter(Platform::MacOS, Arch::AArch64);
    arm.blank();
    arm.comment("note");
    arm.label_global("__rt_x");
    arm.label("__rt_x_loop");
    arm.instruction("ret");
    assert_eq!(arm.output(), "\n    // note\n.globl __rt_x\n__rt_x:\n__rt_x_loop:\n    ret\n");
    let mut x86 = emitter(Platform::Linux, Arch::X86_64);
    x86.comment("note");
    x86.bl_c("getpid");
    assert_eq!(x86.output(), "    # note\n    call getpid\n");
    let mut mac = emitter(Platform::MacOS, Arch::AArch64);
    mac.bl_c("getpid");
    assert_eq!(mac.output(), "    bl _getpid\n");
}

#[test]
fn fixed_data_tables() {
    assert_eq!(
        emit_json_data(),
        ".globl _json_true\n_json_true:\n    .ascii \"true\"\n.globl _json_false\n_json_false:\n    .ascii \"false\"\n.globl _json_null\n_json_null:\n    .ascii \"null\"\n"
    );
    let gdt = emit_get_debug_type_data();
    assert!(gdt.starts_with(".globl _gdt_int\n_gdt_int:\n    .ascii \"int\"\n"));
    assert!(gdt.ends_with(".globl _gdt_resource\n_gdt_resource:\n    .ascii \"resource (stream)\"\n"));
    assert_eq!(gdt.matches(".globl ").count(), 8);
}
