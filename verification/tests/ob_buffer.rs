use elephc::codegen::emit::Emitter;
use elephc::codegen::platform::{Arch, Platform, Target};
use elephc::codegen_support::runtime::io::ob_buffer::{
    emit_ob_append, emit_ob_clean, emit_ob_contents, emit_ob_end_clean, emit_ob_end_flush,
    emit_ob_flush, emit_ob_flush_all, emit_ob_queries, emit_ob_start,
};

/// Renders every ob_* buffer helper for one target.
fn render(platform: Platform, arch: Arch) -> String {
    let mut emitter = Emitter::new(Target::new(platform, arch));
    emit_ob_start(&mut emitter);
    emit_ob_append(&mut emitter);
    emit_ob_contents(&mut emitter);
    emit_ob_queries(&mut emitter);
    emit_ob_clean(&mut emitter);
    emit_ob_end_clean(&mut emitter);
    emit_ob_flush(&mut emitter);
    emit_ob_end_flush(&mut emitter);
    emit_ob_flush_all(&mut emitter);
    emitter.output()
}

/// Verifies every target exports all ob_* buffer helper labels.
#[test]
fn emits_global_labels_for_all_targets() {
    for (platform, arch) in [
        (Platform::MacOS, Arch::AArch64),
        (Platform::Linux, Arch::AArch64),
        (Platform::Linux, Arch::X86_64),
    ] {
        let listing = render(platform, arch);
        for label in [
            "__rt_ob_start",
            "__rt_ob_append",
            "__rt_ob_contents",
            "__rt_ob_length",
            "__rt_ob_level",
            "__rt_ob_clean",
            "__rt_ob_end_clean",
            "__rt_ob_flush",
            "__rt_ob_end_flush",
            "__rt_ob_flush_all",
        ] {
            assert!(
                listing.contains(&format!(".globl {label}\n")),
                "missing {label} for {:?}/{:?}",
                platform,
                arch
            );
        }
    }
}

/// Verifies the growth path allocates a replacement block and frees the old one.
#[test]
fn append_grows_through_heap_alloc_and_free() {
    let mac = render(Platform::MacOS, Arch::AArch64);
    assert!(mac.contains("bl __rt_heap_alloc"));
    assert!(mac.contains("bl __rt_heap_free"));
    let linux_x86 = render(Platform::Linux, Arch::X86_64);
    assert!(linux_x86.contains("call __rt_heap_alloc"));
    assert!(linux_x86.contains("call __rt_heap_free"));
}

/// Verifies flush routes buffered bytes back through the stdout funnel so
/// nested buffers and `--web` capture keep working.
#[test]
fn flush_paths_route_through_stdout_write() {
    let mac = render(Platform::MacOS, Arch::AArch64);
    assert!(mac.contains("bl __rt_stdout_write"));
    let linux_x86 = render(Platform::Linux, Arch::X86_64);
    assert!(linux_x86.contains("call __rt_stdout_write"));
}

/// Verifies ob_get_contents persists the buffer through `__rt_str_persist`.
#[test]
fn contents_persists_the_buffer() {
    let mac = render(Platform::MacOS, Arch::AArch64);
    assert!(mac.contains("bl __rt_str_persist"));
    let linux_x86 = render(Platform::Linux, Arch::X86_64);
    assert!(linux_x86.contains("call __rt_str_persist"));
}
