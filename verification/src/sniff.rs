//! Content sniffs that classify a model file from its leading bytes.

use crate::json::{is_document, json_document};
use crate::model::ModelType;
use crate::text::decode;
use vstd::prelude::*;
use vstd::slice::{slice_subrange, slice_to_vec};
use vstd::utf8::{decode_utf8, valid_utf8};

verus! {

/// Fifty mebibytes: the least size of a file or snapshot that counts as a
/// model, and the most that the metadata of a weight container may take.
pub const SIZE_FLOOR: u64 = 52_428_800;

/// Whether `head` starts with the four magic bytes `G`, `G`, `U`, `F`.
pub open spec fn has_gguf_magic(head: Seq<u8>) -> bool {
    &&& head.len() >= 4
    &&& head[0] == 0x47
    &&& head[1] == 0x47
    &&& head[2] == 0x55
    &&& head[3] == 0x46
}

/// Classifies the leading bytes of a file as a GGUF container: it is one
/// exactly if it starts with the magic bytes, whatever the file is called.
pub fn check_gguf_format(head: &[u8]) -> (is_gguf: bool)
    ensures
        is_gguf == has_gguf_magic(head@),
{
    head.len() >= 4 && head[0] == 0x47 && head[1] == 0x47 && head[2] == 0x55 && head[3] == 0x46
}

/// The number that the first eight bytes spell, least significant byte
/// first.
pub open spec fn header_length(head: Seq<u8>) -> int {
    head[0] as int + 0x100 * (head[1] as int) + 0x1_0000 * (head[2] as int) + 0x100_0000 * (
    head[3] as int) + 0x1_0000_0000 * (head[4] as int) + 0x100_0000_0000 * (head[5] as int)
        + 0x1_0000_0000_0000 * (head[6] as int) + 0x100_0000_0000_0000 * (head[7] as int)
}

/// The metadata of a weight container: the bytes that follow the length.
pub open spec fn metadata(head: Seq<u8>) -> Seq<u8> {
    head.subrange(8, 8 + header_length(head))
}

/// Whether `head` begins a Transformers weight container: eight bytes that
/// spell a length of at most fifty mebibytes, then that many bytes, which
/// are a JSON document in UTF-8.
pub open spec fn is_weight_container(head: Seq<u8>) -> bool {
    &&& head.len() >= 8
    &&& header_length(head) <= SIZE_FLOOR
    &&& head.len() >= 8 + header_length(head)
    &&& valid_utf8(metadata(head))
    &&& json_document(decode_utf8(metadata(head))) is Some
}

/// The length of the metadata that the first eight bytes announce, where
/// there are eight bytes and the length is at most fifty mebibytes. It says
/// how many more bytes are to be read before the container can be told.
pub fn safetensors_header_len(head: &[u8]) -> (len: Option<u64>)
    ensures
        match len {
            Some(l) => head@.len() >= 8 && l == header_length(head@) && l <= SIZE_FLOOR,
            None => head@.len() < 8 || header_length(head@) > SIZE_FLOOR,
        },
{
    if head.len() < 8 {
        return None;
    }
    let len: u64 = head[0] as u64 + 0x100 * (head[1] as u64) + 0x1_0000 * (head[2] as u64)
        + 0x100_0000 * (head[3] as u64) + 0x1_0000_0000 * (head[4] as u64) + 0x100_0000_0000 * (
    head[5] as u64) + 0x1_0000_0000_0000 * (head[6] as u64) + 0x100_0000_0000_0000 * (
    head[7] as u64);
    if len > SIZE_FLOOR {
        None
    } else {
        Some(len)
    }
}

/// Classifies the leading bytes of a file as a Transformers weight
/// container.
pub fn check_safetensors_format(head: &[u8]) -> (is_container: bool)
    ensures
        is_container == is_weight_container(head@),
{
    let len = match safetensors_header_len(head) {
        Some(len) => len,
        None => {
            return false;
        },
    };
    if head.len() - 8 < len as usize {
        return false;
    }
    let bytes = slice_to_vec(slice_subrange(head, 8, 8 + len as usize));
    assert(bytes@ == metadata(head@));
    match decode(bytes) {
        Some(text) => is_document(text.as_str()),
        None => false,
    }
}

/// The format that the leading bytes tell: GGUF where they start with the
/// magic bytes, else Transformers where they begin a weight container, else
/// none.
pub open spec fn format_of(head: Seq<u8>) -> Option<ModelType> {
    if has_gguf_magic(head) {
        Some(ModelType::Gguf)
    } else if is_weight_container(head) {
        Some(ModelType::Transformers)
    } else {
        None
    }
}

/// Classifies the leading bytes of a file.
pub fn sniff_format(head: &[u8]) -> (format: Option<ModelType>)
    ensures
        format == format_of(head@),
{
    if check_gguf_format(head) {
        Some(ModelType::Gguf)
    } else if check_safetensors_format(head) {
        Some(ModelType::Transformers)
    } else {
        None
    }
}

} // verus!
