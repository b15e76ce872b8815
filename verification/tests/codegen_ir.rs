use elephc::codegen::emit::Emitter;
use elephc::codegen::platform::{Arch, Platform, Target};
use elephc::codegen_ir::generate_user_asm_from_ir;
use elephc::codegen_ir::lower_inst::builtins::spl::{
    emit_autoload_function_placeholders, emit_extensions_read, emit_int_array, emit_null_result,
};
use elephc::codegen_ir::lower_inst::comparisons::{
    emit_bool_literal, emit_reg_nonzero_bool, equality_cond, intish_or_null,
};
use elephc::codegen_ir::lower_inst::callables::{label_fragment, runtime_string_result_type_supported};
use elephc::codegen_ir::lower_inst::builtins::arrays::require_supported_indexed_array;
use elephc::codegen_ir::lower_inst::comparisons::{lower_loose_eq, lower_strict_eq, string_eq_helper, EqualityLowering};
use elephc::codegen_ir::lower_inst::externs::{
    c_abi_param_type, emit_sign_extend_i32_result, extern_codegen_types_match, temp_slot_size,
    validate_extern_shape, validate_supported_extern_type, ExternDecl, ExternParamDecl,
};
use elephc::codegen_ir::CodegenIrError;
use elephc::types::append_type_text;
use elephc::types::PhpType;

fn emitter(platform: Platform, arch: Arch) -> Emitter {
    Emitter::new(Target::new(platform, arch))
}

#[test]
fn ir_backend_reports_not_implemented() {
    let module = ();
    let result = generate_user_asm_from_ir(&module, true, false);
    let err = result.expect_err("the scaffolded backend must refuse");
    assert_eq!(
        err.message(),
        "EIR backend is not implemented yet; use the default AST backend"
    );
    assert_eq!(
        err.to_string(),
        "EIR backend is not implemented yet; use the default AST backend"
    );
    let again = generate_user_asm_from_ir(&42u8, false, true).unwrap_err();
    assert_eq!(again, err);
}

#[test]
fn equality_condition_suffixes() {
    assert_eq!(equality_cond(true, Arch::AArch64), "eq");
    assert_eq!(equality_cond(false, Arch::AArch64), "ne");
    assert_eq!(equality_cond(true, Arch::X86_64), "e");
    assert_eq!(equality_cond(false, Arch::X86_64), "ne");
}

#[test]
fn intish_types_take_the_integer_path() {
    assert!(intish_or_null(&PhpType::Int));
    assert!(intish_or_null(&PhpType::Bool));
    assert!(intish_or_null(&PhpType::Void));
    assert!(intish_or_null(&PhpType::Never));
    assert!(!intish_or_null(&PhpType::Float));
    assert!(!intish_or_null(&PhpType::Str));
    assert!(!intish_or_null(&PhpType::Mixed));
    assert!(!intish_or_null(&PhpType::Array(Box::new(PhpType::Int))));
    assert!(!intish_or_null(&PhpType::Object("Foo".to_string())));
    assert!(!intish_or_null(&PhpType::Pointer(None)));
}

#[test]
fn nonzero_truthiness_per_arch() {
    let mut arm = emitter(Platform::Linux, Arch::AArch64);
    emit_reg_nonzero_bool(&mut arm, "x9");
    assert_eq!(arm.output(), "    cmp x9, #0\n    cset x9, ne\n");
    let mut x86 = emitter(Platform::Linux, Arch::X86_64);
    emit_reg_nonzero_bool(&mut x86, "r10");
    assert_eq!(x86.output(), "    test r10, r10\n    setne al\n    movzx r10, al\n");
}

#[test]
fn bool_literals_load_one_or_zero() {
    let mut arm = emitter(Platform::MacOS, Arch::AArch64);
    emit_bool_literal(&mut arm, true);
    emit_bool_literal(&mut arm, false);
    assert_eq!(arm.output(), "    mov x0, #1\n    mov x0, #0\n");
    let mut x86 = emitter(Platform::Linux, Arch::X86_64);
    emit_bool_literal(&mut x86, true);
    assert_eq!(x86.output(), "    mov rax, 1\n");
}

#[test]
fn null_result_loads_the_sentinel() {
    let mut arm = emitter(Platform::Linux, Arch::AArch64);
    emit_null_result(&mut arm);
    assert_eq!(
        arm.output(),
        "    movz x0, #65534\n    movk x0, #65535, lsl #16\n    movk x0, #65535, lsl #32\n    movk x0, #32767, lsl #48\n"
    );
    let mut x86 = emitter(Platform::Linux, Arch::X86_64);
    emit_null_result(&mut x86);
    assert_eq!(x86.output(), "    mov rax, 9223372036854775806\n");
}

#[test]
fn int_array_allocation_per_arch() {
    let mut arm = emitter(Platform::MacOS, Arch::AArch64);
    emit_int_array(&mut arm, 3);
    assert_eq!(arm.output(), "    mov x0, #3\n    mov x1, #8\n    bl __rt_array_new\n");
    let mut x86 = emitter(Platform::Linux, Arch::X86_64);
    emit_int_array(&mut x86, 1);
    assert_eq!(x86.output(), "    mov rdi, 1\n    mov rsi, 8\n    call __rt_array_new\n");
}

#[test]
fn no_autoload_rules_emit_nothing() {
    let mut arm = emitter(Platform::MacOS, Arch::AArch64);
    emit_autoload_function_placeholders(&mut arm, 0);
    assert_eq!(arm.output(), "");
    let mut x86 = emitter(Platform::Linux, Arch::X86_64);
    emit_autoload_function_placeholders(&mut x86, 0);
    assert_eq!(x86.output(), "");
}

#[test]
fn autoload_placeholders_append_rule_indexes_in_order() {
    let mut arm = emitter(Platform::MacOS, Arch::AArch64);
    emit_autoload_function_placeholders(&mut arm, 2);
    assert_eq!(
        arm.output(),
        "    str x0, [sp, #-16]!\n    ldr x0, [sp]\n    mov x1, #0\n    bl __rt_array_push_int\n    str x0, [sp]\n    ldr x0, [sp]\n    mov x1, #1\n    bl __rt_array_push_int\n    str x0, [sp]\n    ldr x0, [sp], #16\n"
    );
    let mut x86 = emitter(Platform::Linux, Arch::X86_64);
    emit_autoload_function_placeholders(&mut x86, 1);
    assert_eq!(
        x86.output(),
        "    push rax\n    sub rsp, 8\n    mov rdi, QWORD PTR [rsp + 8]\n    mov rsi, 0\n    call __rt_array_push_int\n    mov QWORD PTR [rsp + 8], rax\n    add rsp, 8\n    pop rax\n"
    );
}

#[test]
fn extensions_read_loads_pointer_then_length() {
    let mut mac = emitter(Platform::MacOS, Arch::AArch64);
    emit_extensions_read(&mut mac);
    assert_eq!(
        mac.output(),
        "    adrp x1, _spl_autoload_exts_ptr@PAGE\n    add x1, x1, _spl_autoload_exts_ptr@PAGEOFF\n    ldr x1, [x1, #0]\n    adrp x2, _spl_autoload_exts_len@PAGE\n    add x2, x2, _spl_autoload_exts_len@PAGEOFF\n    ldr x2, [x2, #0]\n"
    );
    let mut x86 = emitter(Platform::Linux, Arch::X86_64);
    emit_extensions_read(&mut x86);
    assert_eq!(
        x86.output(),
        "    mov rax, QWORD PTR [rip + _spl_autoload_exts_ptr]\n    mov rdx, QWORD PTR [rip + _spl_autoload_exts_len]\n"
    );
}

#[test]
fn label_fragments_keep_ascii_alphanumerics() {
    assert_eq!(label_fragment("my_func"), "my_func");
    assert_eq!(label_fragment("App\\Util\\parse2"), "App_Util_parse2");
    assert_eq!(label_fragment("café-9"), "caf__9");
    assert_eq!(label_fragment(""), "");
}

#[test]
fn runtime_result_types() {
    assert!(runtime_string_result_type_supported(&PhpType::Int, &PhpType::Int));
    assert!(!runtime_string_result_type_supported(&PhpType::Int, &PhpType::Str));
    assert!(runtime_string_result_type_supported(&PhpType::Mixed, &PhpType::Str));
    assert!(runtime_string_result_type_supported(
        &PhpType::Union(vec![PhpType::Int, PhpType::Str]),
        &PhpType::Float
    ));
    assert!(runtime_string_result_type_supported(
        &PhpType::Array(Box::new(PhpType::Str)),
        &PhpType::Array(Box::new(PhpType::Str))
    ));
    assert!(!runtime_string_result_type_supported(
        &PhpType::Array(Box::new(PhpType::Str)),
        &PhpType::Array(Box::new(PhpType::Int))
    ));
    assert!(runtime_string_result_type_supported(
        &PhpType::Object("Foo".to_string()),
        &PhpType::Object("Foo".to_string())
    ));
    assert!(!runtime_string_result_type_supported(
        &PhpType::Object("Foo".to_string()),
        &PhpType::Object("Bar".to_string())
    ));
}

#[test]
fn extern_types_match_pointers_loosely() {
    assert!(extern_codegen_types_match(&PhpType::Pointer(None), &PhpType::Pointer(Some("FILE".to_string()))));
    assert!(extern_codegen_types_match(&PhpType::Int, &PhpType::Int));
    assert!(!extern_codegen_types_match(&PhpType::Int, &PhpType::Float));
    assert!(!extern_codegen_types_match(&PhpType::Pointer(None), &PhpType::Int));
}

#[test]
fn php_type_equality_is_structural() {
    let a = PhpType::Union(vec![PhpType::Int, PhpType::Array(Box::new(PhpType::Object("A".to_string())))]);
    let b = PhpType::Union(vec![PhpType::Int, PhpType::Array(Box::new(PhpType::Object("A".to_string())))]);
    let c = PhpType::Union(vec![PhpType::Int]);
    assert!(a.same_as(&b));
    assert!(!a.same_as(&c));
    assert!(PhpType::Pointer(Some("x".to_string())).same_as(&PhpType::Pointer(Some("x".to_string()))));
    assert!(!PhpType::Pointer(Some("x".to_string())).same_as(&PhpType::Pointer(None)));
    assert!(!PhpType::Void.same_as(&PhpType::Never));
}

#[test]
fn c_int_returns_are_sign_extended() {
    let mut arm = emitter(Platform::MacOS, Arch::AArch64);
    emit_sign_extend_i32_result(&mut arm);
    assert_eq!(arm.output(), "    sxtw x0, w0\n");
    let mut x86 = emitter(Platform::Linux, Arch::X86_64);
    emit_sign_extend_i32_result(&mut x86);
    assert_eq!(x86.output(), "    movsxd rax, eax\n");
}

fn text_of(ty: &PhpType) -> String {
    let mut s = String::new();
    append_type_text(&mut s, ty);
    s
}

#[test]
fn type_texts_follow_the_debug_form() {
    assert_eq!(text_of(&PhpType::Int), "Int");
    assert_eq!(text_of(&PhpType::Array(Box::new(PhpType::Str))), "Array(Str)");
    assert_eq!(text_of(&PhpType::Object("Foo".to_string())), "Object(\"Foo\")");
    assert_eq!(
        text_of(&PhpType::Union(vec![PhpType::Int, PhpType::Str, PhpType::Mixed])),
        "Union([Int, Str, Mixed])"
    );
    assert_eq!(text_of(&PhpType::Union(vec![])), "Union([])");
    assert_eq!(text_of(&PhpType::Pointer(None)), "Pointer(None)");
    assert_eq!(text_of(&PhpType::Pointer(Some("FILE".to_string()))), "Pointer(Some(\"FILE\"))");
    let t = PhpType::Union(vec![PhpType::Array(Box::new(PhpType::Object("A".to_string())))]);
    assert!(t.duplicate().same_as(&t));
}

#[test]
fn unsupported_errors_carry_their_message() {
    let e = CodegenIrError::unsupported("x for PHP type Mixed".to_string());
    assert_eq!(e.message(), "x for PHP type Mixed");
}

fn decl(params: Vec<PhpType>, ret: PhpType) -> ExternDecl {
    ExternDecl {
        name: "strlen".to_string(),
        params: params
            .into_iter()
            .enumerate()
            .map(|(i, t)| ExternParamDecl { name: format!("p{i}"), php_type: t })
            .collect(),
        return_php_type: ret,
    }
}

#[test]
fn extern_types_are_validated() {
    assert!(validate_supported_extern_type("f", &PhpType::Int, "parameter").is_ok());
    assert!(validate_supported_extern_type("f", &PhpType::Pointer(None), "return").is_ok());
    let e = validate_supported_extern_type("f", &PhpType::Mixed, "parameter").unwrap_err();
    assert_eq!(e.message(), "extern f parameter type Mixed");
    assert!(validate_extern_shape(&decl(vec![PhpType::Str, PhpType::Int], PhpType::Int)).is_ok());
    let e = validate_extern_shape(&decl(
        vec![PhpType::Int, PhpType::Array(Box::new(PhpType::Int)), PhpType::Mixed],
        PhpType::Mixed,
    ))
    .unwrap_err();
    assert_eq!(e.message(), "extern strlen parameter type Array(Int)");
    let e = validate_extern_shape(&decl(vec![PhpType::Float], PhpType::Object("Foo".to_string()))).unwrap_err();
    assert_eq!(e.message(), "extern strlen return type Object(\"Foo\")");
}

#[test]
fn extern_abi_types_and_slots() {
    let p = ExternParamDecl { name: "s".to_string(), php_type: PhpType::Str };
    assert!(c_abi_param_type(&p).same_as(&PhpType::Pointer(None)));
    let p = ExternParamDecl { name: "n".to_string(), php_type: PhpType::Float };
    assert!(c_abi_param_type(&p).same_as(&PhpType::Float));
    assert_eq!(temp_slot_size(&PhpType::Void), 0);
    assert_eq!(temp_slot_size(&PhpType::Never), 0);
    assert_eq!(temp_slot_size(&PhpType::Int), 16);
    assert_eq!(temp_slot_size(&PhpType::Pointer(None)), 16);
}

#[test]
fn aggregate_builtins_need_integer_slots() {
    assert!(require_supported_indexed_array(&PhpType::Array(Box::new(PhpType::Int)), "array_sum").is_ok());
    assert!(require_supported_indexed_array(&PhpType::Array(Box::new(PhpType::Bool)), "array_sum").is_ok());
    let e = require_supported_indexed_array(&PhpType::Array(Box::new(PhpType::Float)), "array_product").unwrap_err();
    assert_eq!(e.message(), "array_product for PHP type Array(Float)");
    let e = require_supported_indexed_array(&PhpType::Str, "array_sum").unwrap_err();
    assert_eq!(e.message(), "array_sum for PHP type Str");
}

#[test]
fn strict_equality_lowering() {
    assert_eq!(lower_strict_eq("eq", &PhpType::Int, &PhpType::Str, true).unwrap(), EqualityLowering::Constant(false));
    assert_eq!(lower_strict_eq("ne", &PhpType::Int, &PhpType::Str, false).unwrap(), EqualityLowering::Constant(true));
    assert_eq!(
        lower_strict_eq("eq", &PhpType::Bool, &PhpType::Bool, true).unwrap(),
        EqualityLowering::IntishCompare { truthiness: false }
    );
    assert_eq!(lower_strict_eq("eq", &PhpType::Float, &PhpType::Float, true).unwrap(), EqualityLowering::FloatCompare);
    assert_eq!(
        lower_strict_eq("eq", &PhpType::Str, &PhpType::Str, false).unwrap(),
        EqualityLowering::StringEqCall { loose: false }
    );
    let e = lower_strict_eq("strict_eq", &PhpType::Mixed, &PhpType::Mixed, true).unwrap_err();
    assert_eq!(e.message(), "strict_eq for PHP type Mixed");
}

#[test]
fn loose_equality_lowering() {
    assert_eq!(lower_loose_eq("eq", &PhpType::Str, &PhpType::Str).unwrap(), EqualityLowering::StringEqCall { loose: true });
    assert_eq!(
        lower_loose_eq("eq", &PhpType::Int, &PhpType::Void).unwrap(),
        EqualityLowering::IntishCompare { truthiness: false }
    );
    assert_eq!(
        lower_loose_eq("eq", &PhpType::Int, &PhpType::Bool).unwrap(),
        EqualityLowering::IntishCompare { truthiness: true }
    );
    let e = lower_loose_eq("loose_eq", &PhpType::Int, &PhpType::Str).unwrap_err();
    assert_eq!(e.message(), "loose_eq for PHP types Int and Str");
    assert_eq!(string_eq_helper(true), "__rt_str_loose_eq");
    assert_eq!(string_eq_helper(false), "__rt_str_eq");
}
