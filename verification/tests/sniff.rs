use tllama::model::ModelType;
use tllama::sniff::{
    check_gguf_format, check_safetensors_format, safetensors_header_len, sniff_format, SIZE_FLOOR,
};

fn container(metadata: &[u8]) -> Vec<u8> {
    let mut bytes = (metadata.len() as u64).to_le_bytes().to_vec();
    bytes.extend_from_slice(metadata);
    bytes
}

#[test]
fn gguf_magic_is_recognised() {
    assert!(check_gguf_format(&[0x47, 0x47, 0x55, 0x46]));
    assert!(check_gguf_format(&[0x47, 0x47, 0x55, 0x46, 0x03, 0x00]));
}

#[test]
fn any_other_leading_bytes_are_not_gguf() {
    assert!(!check_gguf_format(&[]));
    assert!(!check_gguf_format(&[0x47, 0x47, 0x55]));
    assert!(!check_gguf_format(&[0x47, 0x47, 0x55, 0x47]));
    assert!(!check_gguf_format(&[0x67, 0x67, 0x75, 0x66]));
    assert!(!check_gguf_format(&[0x46, 0x55, 0x47, 0x47]));
    assert!(!check_gguf_format(&[0x00, 0x47, 0x47, 0x55, 0x46]));
}

#[test]
fn size_floor_is_fifty_mebibytes() {
    assert_eq!(SIZE_FLOOR, 50 * 1024 * 1024);
}

#[test]
fn header_length_is_little_endian() {
    assert_eq!(safetensors_header_len(&[2, 0, 0, 0, 0, 0, 0, 0]), Some(2));
    assert_eq!(safetensors_header_len(&[0x34, 0x12, 0, 0, 0, 0, 0, 0, 9, 9]), Some(0x1234));
    assert_eq!(safetensors_header_len(&[0, 0, 0x20, 0x03, 0, 0, 0, 0]), Some(52_428_800));
}

#[test]
fn header_length_above_the_floor_is_rejected() {
    assert_eq!(safetensors_header_len(&[1, 0, 0x20, 0x03, 0, 0, 0, 0]), None);
    assert_eq!(safetensors_header_len(&[0, 0, 0, 0, 0, 0, 0, 1]), None);
    assert_eq!(safetensors_header_len(&[0xff; 8]), None);
}

#[test]
fn header_shorter_than_eight_bytes_has_no_length() {
    assert_eq!(safetensors_header_len(&[]), None);
    assert_eq!(safetensors_header_len(&[2, 0, 0, 0, 0, 0, 0]), None);
}

#[test]
fn weight_container_needs_json_metadata() {
    assert!(check_safetensors_format(&container(b"{}")));
    assert!(check_safetensors_format(&container(br#"{"__metadata__":{"format":"pt"}}"#)));
    let mut with_tensors = container(b"{\"a\":1}");
    with_tensors.extend_from_slice(&[0u8; 32]);
    assert!(check_safetensors_format(&with_tensors));
}

#[test]
fn weight_container_rejects_what_is_not_json() {
    assert!(!check_safetensors_format(&container(b"{not json")));
    assert!(!check_safetensors_format(&container(b"")));
}

#[test]
fn weight_container_rejects_bytes_that_are_not_utf8() {
    assert!(!check_safetensors_format(&container(&[0xff, 0xfe, 0xfd])));
    assert!(!check_safetensors_format(&container(&[b'"', 0xc3, b'"'])));
}

#[test]
fn weight_container_accepts_utf8_beyond_ascii() {
    assert!(check_safetensors_format(&container("\"caf\u{e9} \u{1F600}\"".as_bytes())));
}

#[test]
fn weight_container_rejects_a_truncated_file() {
    let mut bytes = container(b"{\"a\":1}");
    bytes.pop();
    assert!(!check_safetensors_format(&bytes));
    assert!(!check_safetensors_format(&[7, 0, 0, 0, 0, 0, 0, 0]));
    assert!(!check_safetensors_format(&[7, 0, 0]));
}

#[test]
fn sniff_prefers_gguf_and_falls_back_to_container() {
    assert_eq!(sniff_format(b"GGUF\x03\x00\x00\x00"), Some(ModelType::Gguf));
    assert_eq!(sniff_format(&container(b"{}")), Some(ModelType::Transformers));
    assert_eq!(sniff_format(b"\x7fELF\x02\x01\x01\x00 plain binary"), None);
    assert_eq!(sniff_format(&[]), None);
}
