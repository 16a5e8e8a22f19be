use rex::codec::{pack_payload, unpack_payload};
use rex::BundleError;

#[test]
fn pack_unpack_round_trip() {
    let data: Vec<u8> = (0..2000u32).map(|i| (i % 7) as u8).collect();
    let packed = pack_payload(&data, 3).unwrap();
    // compression really happened: the stream is a zstd frame, not the input
    assert_ne!(packed, data);
    assert_eq!(&packed[0..4], &[0x28, 0xb5, 0x2f, 0xfd]);
    let unpacked = unpack_payload(&packed).unwrap();
    assert_eq!(unpacked, data);
}

#[test]
fn pack_unpack_empty() {
    let data: Vec<u8> = Vec::new();
    let packed = pack_payload(&data, 1).unwrap();
    let unpacked = unpack_payload(&packed).unwrap();
    assert_eq!(unpacked, data);
}

#[test]
fn pack_higher_level_round_trip() {
    let data = b"the same bytes again and again and again and again".to_vec();
    let packed = pack_payload(&data, 12).unwrap();
    let unpacked = unpack_payload(&packed).unwrap();
    assert_eq!(unpacked, data);
}

#[test]
fn unpack_garbage_fails() {
    let garbage = vec![1u8, 2, 3, 4, 5];
    let r = unpack_payload(&garbage);
    assert_eq!(r, Err(BundleError::CodecFailed));
}
