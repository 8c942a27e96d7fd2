use cft_proxy::obfuscation::{transform, transform_bytes, transform_from};
use cft_proxy::{ObfucationAsyncReader, ObfucationAsyncWriter};

#[test]
fn transform_is_its_own_inverse_on_every_byte() {
    for b in 0u16..=255 {
        let b = b as u8;
        assert_eq!(transform(transform(b)), b);
    }
}

#[test]
fn transform_is_bitwise_complement() {
    assert_eq!(transform(0x00), 0xff);
    assert_eq!(transform(0x05), 0xfa);
    assert_eq!(transform(0xa5), 0x5a);
}

#[test]
fn transform_bytes_maps_each_byte() {
    assert_eq!(transform_bytes(&[0x05, 0x01, 0x00]), vec![0xfa, 0xfe, 0xff]);
    assert_eq!(transform_bytes(&[]), Vec::<u8>::new());
}

#[test]
fn transform_bytes_ignores_chunk_boundaries() {
    let data: Vec<u8> = (0u8..40).collect();
    let whole = transform_bytes(&data);
    let mut parts = transform_bytes(&data[..13]);
    parts.extend(transform_bytes(&data[13..]));
    assert_eq!(whole, parts);
    assert_eq!(transform_bytes(&whole), data);
}

#[test]
fn transform_from_keeps_the_prefix() {
    let mut buf = [1u8, 2, 3, 0x0f];
    transform_from(&mut buf, 2);
    assert_eq!(buf, [1, 2, 0xfc, 0xf0]);
    let mut untouched = [7u8, 8];
    transform_from(&mut untouched, 5);
    assert_eq!(untouched, [7, 8]);
}

#[test]
fn reader_and_writer_round_trip_through_a_link() {
    let writer = ObfucationAsyncWriter::new(17u32);
    let reader = ObfucationAsyncReader::new(23u32);
    let payload = b"GET / HTTP/1.1\r\n".to_vec();
    let mut on_wire = writer.encode(&payload);
    assert_ne!(on_wire, payload);
    reader.decode_filled(&mut on_wire, 0);
    assert_eq!(on_wire, payload);
    assert_eq!(writer.into_inner(), 17);
    assert_eq!(reader.into_inner(), 23);
}
