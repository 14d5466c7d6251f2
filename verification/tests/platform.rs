use dwarf_support::platform::{bindgen_flags, clang_flags, link_libraries, Wasm32Wasip1Threads};

#[test]
fn platform_always_uses_freetype() {
    assert!(Wasm32Wasip1Threads.uses_freetype());
}

#[test]
fn no_libraries_are_linked() {
    assert!(link_libraries().is_empty());
    assert!(Wasm32Wasip1Threads.link_libraries().is_empty());
}

#[test]
fn clang_flags_are_the_fixed_list() {
    let expected: Vec<&str> = vec![
        "-I/opt/wasi-sdk/lib/clang/18/include",
        "-I/home/ubuntu/emscripten/system/include",
        "-mllvm",
        "-wasm-enable-sjlj",
        "--sysroot=/opt/wasi-sdk/share/wasi-sysroot",
        "-DSK_BUILD_FOR_UNIX",
        "-mtail-call",
        "-D_WASI_EMULATED_MMAN",
        "-fvisibility=default",
        "-pthread",
        "-Xclang",
        "-target-feature",
        "-Xclang",
        "+atomics",
        "-Xclang",
        "-target-feature",
        "-Xclang",
        "+bulk-memory",
        "-Xclang",
        "-target-feature",
        "-Xclang",
        "+mutable-globals",
        "-D__EMSCRIPTEN__",
    ];
    let flags: Vec<String> = clang_flags();
    assert_eq!(flags, expected);
}

#[test]
fn bindgen_flags_are_the_fixed_list() {
    let expected: Vec<&str> = vec![
        "--sysroot=/opt/wasi-sdk/share/wasi-sysroot",
        "-mllvm",
        "-wasm-enable-sjlj",
        "-DSK_BUILD_FOR_UNIX",
        "-mtail-call",
        "-D_WASI_EMULATED_MMAN",
        "-xc++",
        "-fvisibility=default",
        "-pthread",
        "-Xclang",
        "-target-feature",
        "-Xclang",
        "+atomics",
        "-Xclang",
        "-target-feature",
        "-Xclang",
        "+bulk-memory",
        "-Xclang",
        "-target-feature",
        "-Xclang",
        "+mutable-globals",
        "-D__EMSCRIPTEN__",
    ];
    let flags: Vec<String> = bindgen_flags();
    assert_eq!(flags, expected);
}
