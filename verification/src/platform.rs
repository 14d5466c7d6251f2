//! Build-configuration values for the `wasm32-wasip1-threads` target of the
//! graphics-library bindings: which libraries to link and which flags the C
//! compiler and the binding generator receive. All of them are fixed lists.

use vstd::prelude::*;
use vstd::string::StringExecFns;

verus! {

/// The `wasm32-wasip1-threads` platform.
pub struct Wasm32Wasip1Threads;

impl Wasm32Wasip1Threads {
    /// This platform always builds with FreeType.
    pub fn uses_freetype(&self) -> (r: bool)
        ensures
            r == true,
    {
        true
    }

    /// The libraries to link for this platform.
    pub fn link_libraries(&self) -> (libs: Vec<String>)
        ensures
            libs@ == Seq::<String>::empty(),
    {
        link_libraries()
    }
}

/// The libraries to link for this platform: none; everything needed is part
/// of the sysroot.
pub fn link_libraries() -> (libs: Vec<String>)
    ensures
        libs@ == Seq::<String>::empty(),
{
    Vec::new()
}

/// The flags handed to the C compiler when building the graphics library for
/// this platform.
pub fn clang_flags() -> (flags: Vec<String>)
    ensures
        flags@.len() == 23,
        flags@[0]@ == "-I/opt/wasi-sdk/lib/clang/18/include"@,
        flags@[1]@ == "-I/home/ubuntu/emscripten/system/include"@,
        flags@[2]@ == "-mllvm"@,
        flags@[3]@ == "-wasm-enable-sjlj"@,
        flags@[4]@ == "--sysroot=/opt/wasi-sdk/share/wasi-sysroot"@,
        flags@[5]@ == "-DSK_BUILD_FOR_UNIX"@,
        flags@[6]@ == "-mtail-call"@,
        flags@[7]@ == "-D_WASI_EMULATED_MMAN"@,
        flags@[8]@ == "-fvisibility=default"@,
        flags@[9]@ == "-pthread"@,
        flags@[10]@ == "-Xclang"@,
        flags@[11]@ == "-target-feature"@,
        flags@[12]@ == "-Xclang"@,
        flags@[13]@ == "+atomics"@,
        flags@[14]@ == "-Xclang"@,
        flags@[15]@ == "-target-feature"@,
        flags@[16]@ == "-Xclang"@,
        flags@[17]@ == "+bulk-memory"@,
        flags@[18]@ == "-Xclang"@,
        flags@[19]@ == "-target-feature"@,
        flags@[20]@ == "-Xclang"@,
        flags@[21]@ == "+mutable-globals"@,
        flags@[22]@ == "-D__EMSCRIPTEN__"@,
{
    let mut flags: Vec<String> = Vec::new();
    flags.push(String::from_str("-I/opt/wasi-sdk/lib/clang/18/include"));
    flags.push(String::from_str("-I/home/ubuntu/emscripten/system/include"));
    flags.push(String::from_str("-mllvm"));
    flags.push(String::from_str("-wasm-enable-sjlj"));
    flags.push(String::from_str("--sysroot=/opt/wasi-sdk/share/wasi-sysroot"));
    flags.push(String::from_str("-DSK_BUILD_FOR_UNIX"));
    flags.push(String::from_str("-mtail-call"));
    flags.push(String::from_str("-D_WASI_EMULATED_MMAN"));
    flags.push(String::from_str("-fvisibility=default"));
    flags.push(String::from_str("-pthread"));
    flags.push(String::from_str("-Xclang"));
    flags.push(String::from_str("-target-feature"));
    flags.push(String::from_str("-Xclang"));
    flags.push(String::from_str("+atomics"));
    flags.push(String::from_str("-Xclang"));
    flags.push(String::from_str("-target-feature"));
    flags.push(String::from_str("-Xclang"));
    flags.push(String::from_str("+bulk-memory"));
    flags.push(String::from_str("-Xclang"));
    flags.push(String::from_str("-target-feature"));
    flags.push(String::from_str("-Xclang"));
    flags.push(String::from_str("+mutable-globals"));
    flags.push(String::from_str("-D__EMSCRIPTEN__"));
    flags
}

/// The flags handed to the binding generator for this platform.
pub fn bindgen_flags() -> (flags: Vec<String>)
    ensures
        flags@.len() == 22,
        flags@[0]@ == "--sysroot=/opt/wasi-sdk/share/wasi-sysroot"@,
        flags@[1]@ == "-mllvm"@,
        flags@[2]@ == "-wasm-enable-sjlj"@,
        flags@[3]@ == "-DSK_BUILD_FOR_UNIX"@,
        flags@[4]@ == "-mtail-call"@,
        flags@[5]@ == "-D_WASI_EMULATED_MMAN"@,
        flags@[6]@ == "-xc++"@,
        flags@[7]@ == "-fvisibility=default"@,
        flags@[8]@ == "-pthread"@,
        flags@[9]@ == "-Xclang"@,
        flags@[10]@ == "-target-feature"@,
        flags@[11]@ == "-Xclang"@,
        flags@[12]@ == "+atomics"@,
        flags@[13]@ == "-Xclang"@,
        flags@[14]@ == "-target-feature"@,
        flags@[15]@ == "-Xclang"@,
        flags@[16]@ == "+bulk-memory"@,
        flags@[17]@ == "-Xclang"@,
        flags@[18]@ == "-target-feature"@,
        flags@[19]@ == "-Xclang"@,
        flags@[20]@ == "+mutable-globals"@,
        flags@[21]@ == "-D__EMSCRIPTEN__"@,
{
    let mut flags: Vec<String> = Vec::new();
    flags.push(String::from_str("--sysroot=/opt/wasi-sdk/share/wasi-sysroot"));
    flags.push(String::from_str("-mllvm"));
    flags.push(String::from_str("-wasm-enable-sjlj"));
    flags.push(String::from_str("-DSK_BUILD_FOR_UNIX"));
    flags.push(String::from_str("-mtail-call"));
    flags.push(String::from_str("-D_WASI_EMULATED_MMAN"));
    flags.push(String::from_str("-xc++"));
    flags.push(String::from_str("-fvisibility=default"));
    flags.push(String::from_str("-pthread"));
    flags.push(String::from_str("-Xclang"));
    flags.push(String::from_str("-target-feature"));
    flags.push(String::from_str("-Xclang"));
    flags.push(String::from_str("+atomics"));
    flags.push(String::from_str("-Xclang"));
    flags.push(String::from_str("-target-feature"));
    flags.push(String::from_str("-Xclang"));
    flags.push(String::from_str("+bulk-memory"));
    flags.push(String::from_str("-Xclang"));
    flags.push(String::from_str("-target-feature"));
    flags.push(String::from_str("-Xclang"));
    flags.push(String::from_str("+mutable-globals"));
    flags.push(String::from_str("-D__EMSCRIPTEN__"));
    flags
}

} // verus!
