//! Assembly of the `external_debug_info` custom section that a stripped
//! WebAssembly module carries to point debuggers at its unstripped sibling.
//!
//! A custom section is a one-byte section id (`0` for custom sections),
//! followed by the LEB128-encoded payload size, followed by the payload: the
//! length-prefixed section name and then the section contents. Here the
//! contents are the LEB128-encoded length of a reference path and the path's
//! raw UTF-8 bytes. Appending such a section after the last section of a
//! module keeps the module structurally valid: consumers skip custom sections
//! whose name they do not recognize.

use crate::leb128::{leb_bytes, lemma_leb_bytes_len_le_5, to_leb};
use vstd::prelude::*;

verus! {

/// The section id of a WebAssembly custom ("user") section.
pub const CUSTOM_SECTION_ID: u8 = 0;

/// The fixed section name, as it appears in the module: the nineteen ASCII
/// bytes of `external_debug_info` preceded by their one-byte length `0x13`.
pub open spec fn section_name_bytes() -> Seq<u8> {
    seq![
        0x13u8,
        0x65u8,
        0x78u8,
        0x74u8,
        0x65u8,
        0x72u8,
        0x6eu8,
        0x61u8,
        0x6cu8,
        0x5fu8,
        0x64u8,
        0x65u8,
        0x62u8,
        0x75u8,
        0x67u8,
        0x5fu8,
        0x69u8,
        0x6eu8,
        0x66u8,
        0x6fu8,
    ]
}

/// The section contents for a reference path: the path's byte length in
/// LEB128, then the raw path bytes.
pub open spec fn section_contents(path: Seq<u8>) -> Seq<u8> {
    leb_bytes(path.len()) + path
}

/// The declared payload size: the length-prefixed name plus the contents.
pub open spec fn section_size(path: Seq<u8>) -> nat {
    section_name_bytes().len() + section_contents(path).len()
}

/// Every byte the patcher appends for a reference path, in order: the custom
/// section id, the LEB128-encoded payload size, the length-prefixed name, and
/// the contents.
pub open spec fn section_bytes(path: Seq<u8>) -> Seq<u8> {
    seq![CUSTOM_SECTION_ID] + leb_bytes(section_size(path)) + section_name_bytes()
        + section_contents(path)
}

/// Builds the length-prefixed section name.
pub fn section_name() -> (name: Vec<u8>)
    ensures
        name@ == section_name_bytes(),
{
    let mut name: Vec<u8> = Vec::new();
    name.push(0x13);
    name.push(0x65);
    name.push(0x78);
    name.push(0x74);
    name.push(0x65);
    name.push(0x72);
    name.push(0x6e);
    name.push(0x61);
    name.push(0x6c);
    name.push(0x5f);
    name.push(0x64);
    name.push(0x65);
    name.push(0x62);
    name.push(0x75);
    name.push(0x67);
    name.push(0x5f);
    name.push(0x69);
    name.push(0x6e);
    name.push(0x66);
    name.push(0x6f);
    proof {
        assert(name@ =~= section_name_bytes());
    }
    name
}

/// Builds the complete custom section for `reference_path`, the UTF-8 bytes
/// of the URL or path under which the unstripped module can be found.
///
/// The bound on the path length keeps the declared payload size within the
/// encoder's 32-bit range: the name takes twenty bytes and the encoded path
/// length at most five.
pub fn build_custom_section(reference_path: &Vec<u8>) -> (section: Vec<u8>)
    requires
        reference_path@.len() + 25 <= u32::MAX,
    ensures
        section@ == section_bytes(reference_path@),
{
    let path_len: u32 = reference_path.len() as u32;
    let mut contents: Vec<u8> = to_leb(path_len);
    let mut i: usize = 0;
    while i < reference_path.len()
        invariant
            i <= reference_path@.len(),
            path_len == reference_path@.len(),
            contents@ == leb_bytes(path_len as nat) + reference_path@.subrange(0, i as int),
        decreases reference_path@.len() - i,
    {
        contents.push(reference_path[i]);
        proof {
            assert(contents@ =~= leb_bytes(path_len as nat) + reference_path@.subrange(
                0,
                i + 1,
            ));
        }
        i = i + 1;
    }
    proof {
        assert(reference_path@.subrange(0, reference_path@.len() as int) =~= reference_path@);
        lemma_leb_bytes_len_le_5(path_len as nat);
    }
    let size: u32 = 20 + contents.len() as u32;
    let mut section: Vec<u8> = Vec::new();
    section.push(CUSTOM_SECTION_ID);
    let mut size_leb: Vec<u8> = to_leb(size);
    section.append(&mut size_leb);
    let mut name: Vec<u8> = section_name();
    section.append(&mut name);
    section.append(&mut contents);
    proof {
        assert(size as nat == section_size(reference_path@));
        assert(section@ =~= section_bytes(reference_path@));
    }
    section
}

/// Appends the `external_debug_info` custom section for `reference_path` to
/// an in-memory module image. The operation is a pure append: every byte
/// already in the module keeps its place and value.
pub fn append_section(module: &mut Vec<u8>, reference_path: &Vec<u8>)
    requires
        reference_path@.len() + 25 <= u32::MAX,
    ensures
        final(module)@ == old(module)@ + section_bytes(reference_path@),
        forall|i: int|
            0 <= i < old(module)@.len() ==> final(module)@[i] == old(module)@[i],
{
    let mut section: Vec<u8> = build_custom_section(reference_path);
    module.append(&mut section);
}

/// Law: the appended section is self-framing. After the section id byte and
/// the LEB128-encoded payload size, exactly `section_size(path)` bytes
/// follow, so a consumer that skips unknown custom sections steps over it
/// and lands exactly at the end of the module.
pub proof fn lemma_section_framing(path: Seq<u8>)
    ensures
        section_bytes(path) == seq![CUSTOM_SECTION_ID] + leb_bytes(section_size(path)) + (
        section_name_bytes() + section_contents(path)),
        (section_name_bytes() + section_contents(path)).len() == section_size(path),
{
    assert(section_bytes(path) =~= seq![CUSTOM_SECTION_ID] + leb_bytes(section_size(path)) + (
    section_name_bytes() + section_contents(path)));
}

/// Law: patching grows a module of `k` bytes by exactly
/// `1 + |LEB128(size)| + |name| + |LEB128(l)| + l` bytes, where `l` is the
/// reference path's byte length and `size = |name| + |LEB128(l)| + l` is the
/// declared payload size.
pub proof fn lemma_section_growth(module: Seq<u8>, path: Seq<u8>)
    ensures
        section_size(path) == section_name_bytes().len() + leb_bytes(path.len()).len()
            + path.len(),
        (module + section_bytes(path)).len() == module.len() + 1 + leb_bytes(
            section_size(path),
        ).len() + section_name_bytes().len() + leb_bytes(path.len()).len() + path.len(),
{
}

} // verus!
