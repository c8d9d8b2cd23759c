use wr_bindings::wire::{decode_i32, encode_i32, put_words_as_bytes, words_from_bytes};

#[test]
fn signed_words_round_trip() {
    for x in [0i32, 1, -1, i32::MAX, i32::MIN, 123456, -98765] {
        assert_eq!(decode_i32(encode_i32(x)), x);
    }
    assert_eq!(encode_i32(-1), u32::MAX);
    assert_eq!(encode_i32(i32::MIN), 0x8000_0000);
}

#[test]
fn words_are_little_endian() {
    let mut out = Vec::new();
    put_words_as_bytes(&vec![0x0403_0201u32, 0xffu32], &mut out);
    assert_eq!(out, vec![1, 2, 3, 4, 0xff, 0, 0, 0]);
    assert_eq!(words_from_bytes(&out, 0, 8), vec![0x0403_0201u32, 0xff]);
    assert_eq!(words_from_bytes(&out, 4, 8), vec![0xffu32]);
}
