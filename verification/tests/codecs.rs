use std::io::Write;

use ouch::codec::decode_layer;
use ouch::error::Error;
use ouch::format::CompressionFormat;

const PAYLOAD: &[u8] = b"the quick brown fox jumps over the lazy dog, twice over: \
the quick brown fox jumps over the lazy dog";

#[test]
fn gzip_round_trip() {
    let mut enc = flate2::write::GzEncoder::new(Vec::new(), flate2::Compression::default());
    enc.write_all(PAYLOAD).unwrap();
    let compressed = enc.finish().unwrap();
    let decoded = decode_layer(CompressionFormat::Gzip, &compressed).unwrap();
    assert_eq!(decoded, PAYLOAD);
}

#[test]
fn bzip2_round_trip() {
    let mut enc = bzip2::write::BzEncoder::new(Vec::new(), bzip2::Compression::default());
    enc.write_all(PAYLOAD).unwrap();
    let compressed = enc.finish().unwrap();
    let decoded = decode_layer(CompressionFormat::Bzip, &compressed).unwrap();
    assert_eq!(decoded, PAYLOAD);
}

#[test]
fn lzma_round_trip() {
    let mut enc = xz2::write::XzEncoder::new(Vec::new(), 6);
    enc.write_all(PAYLOAD).unwrap();
    let compressed = enc.finish().unwrap();
    let decoded = decode_layer(CompressionFormat::Lzma, &compressed).unwrap();
    assert_eq!(decoded, PAYLOAD);
}

#[test]
fn zstd_round_trip() {
    let compressed = zstd::stream::encode_all(PAYLOAD, 0).unwrap();
    let decoded = decode_layer(CompressionFormat::Zstd, &compressed).unwrap();
    assert_eq!(decoded, PAYLOAD);
}

#[test]
fn lz4_round_trip() {
    let mut enc = lz4_flex::frame::FrameEncoder::new(Vec::new());
    enc.write_all(PAYLOAD).unwrap();
    let compressed = enc.finish().unwrap();
    let decoded = decode_layer(CompressionFormat::Lz4, &compressed).unwrap();
    assert_eq!(decoded, PAYLOAD);
}

#[test]
fn snappy_round_trip() {
    let mut enc = snap::write::FrameEncoder::new(Vec::new());
    enc.write_all(PAYLOAD).unwrap();
    let compressed = enc.into_inner().unwrap();
    let decoded = decode_layer(CompressionFormat::Snappy, &compressed).unwrap();
    assert_eq!(decoded, PAYLOAD);
}

#[test]
fn corrupt_gzip_stream_is_an_error() {
    let garbage = vec![0x1fu8, 0x8b, 0xff, 0xff, 0x00, 0x01, 0x02];
    match decode_layer(CompressionFormat::Gzip, &garbage) {
        Err(
            Error::IoError { .. }
            | Error::NotFound { .. }
            | Error::PermissionDenied { .. }
            | Error::AlreadyExists { .. },
        ) => {}
        Err(_) => panic!("a corrupt stream must surface as the I/O family"),
        Ok(_) => panic!("a corrupt stream must not decode"),
    }
}

#[test]
fn bzip3_layer_is_unsupported_in_this_build() {
    match decode_layer(CompressionFormat::Bzip3, &vec![1u8, 2, 3]) {
        Err(Error::UnsupportedFormat { .. }) => {}
        _ => panic!("the bzip3 layer must report UnsupportedFormat"),
    }
}
