use elephc::codegen::emit::Emitter;
use elephc::codegen::platform::{Arch, Platform, Target};
use elephc::codegen::runtime::arrays::array_spaceship::emit_array_spaceship;
use elephc::codegen::runtime::arrays::int_checked_binops::emit_int_checked_binops;
use elephc::codegen::runtime::arrays::ksort::emit_ksort;
use elephc::codegen::runtime::buffers::buffer_len::emit_buffer_len;
use elephc::codegen::runtime::exceptions::throwable_methods::emit_throwable_methods;
use elephc::codegen::runtime::fibers::api::emit_fiber_construct;
use elephc::codegen::runtime::fibers::api::emit_fiber_get_current;
use elephc::codegen::runtime::fibers::api::emit_fiber_get_return;
use elephc::codegen::runtime::fibers::api::emit_fiber_resume;
use elephc::codegen::runtime::fibers::api::emit_fiber_start;
use elephc::codegen::runtime::fibers::api::emit_fiber_state_getter;
use elephc::codegen::runtime::fibers::api::emit_fiber_suspend;
use elephc::codegen::runtime::fibers::api::emit_fiber_throw;
use elephc::codegen::runtime::fibers::api::emit_fiber_throw_state_error;
use elephc::codegen::runtime::generators::coro::emit_gen_suspend;
use elephc::codegen::runtime::io::stream_context_get_ssl_peer_name::emit_get_ssl_peer_name;
use elephc::codegen::runtime::io::stream_filter::emit_apply_stream_filter;
use elephc::codegen::runtime::objects::new_by_name::emit_class_exists_by_name;
use elephc::codegen::runtime::objects::new_by_name::emit_class_file_by_name;
use elephc::codegen::runtime::objects::new_by_name::emit_class_has_constructor_by_name;
use elephc::codegen::runtime::objects::new_by_name::emit_class_is_abstract_by_name;
use elephc::codegen::runtime::objects::new_by_name::emit_class_parent_name_by_name;
use elephc::codegen::runtime::objects::new_by_name::emit_new_by_name;
use elephc::codegen::runtime::strings::random_bytes::emit_random_bytes;
use elephc::codegen::runtime::strings::str_spaceship::emit_str_spaceship;
use elephc::codegen::runtime::strings::strtr::emit_strtr;
use elephc::codegen::runtime::system::class_name_of::emit_class_name_of;
use elephc::codegen::runtime::system::get_debug_type::emit_get_debug_type;
use elephc::codegen::runtime::system::regex_locale::emit_prepare_regex_locale;
use elephc::codegen_support::runtime::arrays::array_fill_keys_mixed::emit_array_fill_keys_mixed;
use elephc::codegen_support::runtime::arrays::array_fill_keys_mixed::emit_hash_set_cast_key;
use elephc::codegen_support::runtime::arrays::array_key_exists_mixed::emit_array_key_exists_mixed;
use elephc::codegen_support::runtime::arrays::array_merge_str::emit_array_merge_str;
use elephc::codegen_support::runtime::arrays::array_slice_str::emit_array_slice_str;
use elephc::codegen_support::runtime::arrays::array_strict_eq::emit_array_strict_eq;
use elephc::codegen_support::runtime::arrays::array_to_assoc::emit_array_to_assoc;
use elephc::codegen_support::runtime::io::ob_buffer::emit_ob_append;
use elephc::codegen_support::runtime::io::ob_buffer::emit_ob_clean;
use elephc::codegen_support::runtime::io::ob_buffer::emit_ob_contents;
use elephc::codegen_support::runtime::io::ob_buffer::emit_ob_end_clean;
use elephc::codegen_support::runtime::io::ob_buffer::emit_ob_end_flush;
use elephc::codegen_support::runtime::io::ob_buffer::emit_ob_flush;
use elephc::codegen_support::runtime::io::ob_buffer::emit_ob_flush_all;
use elephc::codegen_support::runtime::io::ob_buffer::emit_ob_queries;
use elephc::codegen_support::runtime::io::ob_buffer::emit_ob_start;
use elephc::codegen_support::runtime::objects::class_exists::emit_class_exists;
use elephc::codegen_support::runtime::strings::mb_strpos::emit_mb_strpos;
use elephc::codegen_support::runtime::system::getmypid::emit_getmypid;
use elephc::codegen_support::runtime::system::memory_usage::emit_memory_get_peak_usage;
use elephc::codegen_support::runtime::system::memory_usage::emit_memory_get_usage;

const TARGETS: [(Platform, Arch); 4] = [
    (Platform::MacOS, Arch::AArch64),
    (Platform::Linux, Arch::AArch64),
    (Platform::Linux, Arch::X86_64),
    (Platform::MacOS, Arch::X86_64),
];

fn emitters() -> Vec<(fn(&mut Emitter), Option<&'static str>)> {
    vec![
        (emit_array_spaceship as fn(&mut Emitter), Some("__rt_array_spaceship")),
        (emit_int_checked_binops as fn(&mut Emitter), None),
        (emit_ksort as fn(&mut Emitter), Some("__rt_ksort")),
        (emit_buffer_len as fn(&mut Emitter), Some("__rt_buffer_len")),
        (emit_throwable_methods as fn(&mut Emitter), Some("__rt_throwable_recv")),
        (emit_fiber_construct as fn(&mut Emitter), Some("__rt_fiber_construct")),
        (emit_fiber_get_current as fn(&mut Emitter), Some("__rt_fiber_get_current")),
        (emit_fiber_get_return as fn(&mut Emitter), Some("__rt_fiber_get_return")),
        (emit_fiber_resume as fn(&mut Emitter), Some("__rt_fiber_resume")),
        (emit_fiber_start as fn(&mut Emitter), Some("__rt_fiber_start")),
        (emit_fiber_state_getter as fn(&mut Emitter), Some("__rt_fiber_state_eq")),
        (emit_fiber_suspend as fn(&mut Emitter), Some("__rt_fiber_suspend")),
        (emit_fiber_throw as fn(&mut Emitter), Some("__rt_fiber_throw")),
        (emit_fiber_throw_state_error as fn(&mut Emitter), Some("__rt_fiber_throw_state_error")),
        (emit_gen_suspend as fn(&mut Emitter), Some("__rt_gen_suspend")),
        (emit_get_ssl_peer_name as fn(&mut Emitter), Some("__rt_get_ssl_peer_name")),
        (emit_apply_stream_filter as fn(&mut Emitter), Some("__rt_apply_stream_filter")),
        (emit_class_exists_by_name as fn(&mut Emitter), Some("__rt_class_exists")),
        (emit_class_file_by_name as fn(&mut Emitter), Some("__rt_class_file_by_name")),
        (emit_class_has_constructor_by_name as fn(&mut Emitter), Some("__rt_class_has_constructor")),
        (emit_class_is_abstract_by_name as fn(&mut Emitter), Some("__rt_class_is_abstract")),
        (emit_class_parent_name_by_name as fn(&mut Emitter), Some("__rt_class_parent_name")),
        (emit_new_by_name as fn(&mut Emitter), Some("__rt_new_by_name")),
        (emit_random_bytes as fn(&mut Emitter), Some("__rt_random_bytes")),
        (emit_str_spaceship as fn(&mut Emitter), Some("__rt_str_spaceship")),
        (emit_strtr as fn(&mut Emitter), Some("__rt_strtr")),
        (emit_class_name_of as fn(&mut Emitter), Some("__rt_class_name_of")),
        (emit_get_debug_type as fn(&mut Emitter), Some("__rt_get_debug_type")),
        (emit_prepare_regex_locale as fn(&mut Emitter), None),
        (emit_array_fill_keys_mixed as fn(&mut Emitter), Some("__rt_array_fill_keys_mixed")),
        (emit_hash_set_cast_key as fn(&mut Emitter), Some("__rt_hash_set_cast_key")),
        (emit_array_key_exists_mixed as fn(&mut Emitter), Some("__rt_array_key_exists_mixed")),
        (emit_array_merge_str as fn(&mut Emitter), Some("__rt_array_merge_str")),
        (emit_array_slice_str as fn(&mut Emitter), Some("__rt_array_slice_str")),
        (emit_array_strict_eq as fn(&mut Emitter), Some("__rt_array_strict_eq")),
        (emit_array_to_assoc as fn(&mut Emitter), Some("__rt_array_to_assoc")),
        (emit_ob_append as fn(&mut Emitter), Some("__rt_ob_append")),
        (emit_ob_clean as fn(&mut Emitter), Some("__rt_ob_clean")),
        (emit_ob_contents as fn(&mut Emitter), Some("__rt_ob_contents")),
        (emit_ob_end_clean as fn(&mut Emitter), Some("__rt_ob_end_clean")),
        (emit_ob_end_flush as fn(&mut Emitter), Some("__rt_ob_end_flush")),
        (emit_ob_flush as fn(&mut Emitter), Some("__rt_ob_flush")),
        (emit_ob_flush_all as fn(&mut Emitter), Some("__rt_ob_flush_all")),
        (emit_ob_queries as fn(&mut Emitter), Some("__rt_ob_length")),
        (emit_ob_start as fn(&mut Emitter), Some("__rt_ob_start")),
        (emit_class_exists as fn(&mut Emitter), Some("__rt_class_exists")),
        (emit_mb_strpos as fn(&mut Emitter), Some("__rt_mb_strpos")),
        (emit_getmypid as fn(&mut Emitter), Some("__rt_getmypid")),
        (emit_memory_get_peak_usage as fn(&mut Emitter), Some("__rt_memory_get_peak_usage")),
        (emit_memory_get_usage as fn(&mut Emitter), Some("__rt_memory_get_usage")),
    ]
}

#[test]
fn every_runtime_emitter_appends_a_nonempty_block() {
    for (platform, arch) in TARGETS {
        let target = Target::new(platform, arch);
        for (emit, _) in emitters() {
            let mut alone = Emitter::new(target);
            emit(&mut alone);
            let block = alone.output();
            assert!(!block.is_empty());
            let mut after = Emitter::new(target);
            after.label("__prefix");
            emit(&mut after);
            assert_eq!(after.output(), format!("__prefix:\n{}", block));
        }
    }
}

#[test]
fn every_runtime_emitter_exports_its_entry_label() {
    for (platform, arch) in TARGETS {
        let target = Target::new(platform, arch);
        for (emit, label) in emitters() {
            if let Some(label) = label {
                let mut e = Emitter::new(target);
                emit(&mut e);
                assert!(
                    e.output().contains(&format!(".globl {label}\n{label}:\n")),
                    "missing {label} for {:?}/{:?}",
                    platform,
                    arch
                );
            }
        }
    }
}
