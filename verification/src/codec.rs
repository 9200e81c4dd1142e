//! The codec registry and the stream decoder composer.
//!
//! Each stream-kind tag maps to a thin adapter over one external codec
//! library. Decoding an in-memory byte stream is a function of the input
//! bytes alone, so each adapter's result is named by an uninterpreted spec
//! function, and the composer is verified against the fold of those names.

use vstd::prelude::*;
use vstd::string::StringExecFns;

use crate::error::{spec_is_io_family, Error, ErrorV, IoCondition};
use crate::format::{chain_wf, CompressionFormat, FormatChain};

verus! {

/// What the gzip-like decoder yields for a given input, if it succeeds.
pub uninterp spec fn gzip_decoded(s: Seq<u8>) -> Option<Seq<u8>>;

/// What the bzip2-like decoder yields for a given input, if it succeeds.
pub uninterp spec fn bzip2_decoded(s: Seq<u8>) -> Option<Seq<u8>>;

/// What the LZ4-like decoder yields for a given input, if it succeeds.
pub uninterp spec fn lz4_decoded(s: Seq<u8>) -> Option<Seq<u8>>;

/// What the LZMA-like decoder yields for a given input, if it succeeds.
pub uninterp spec fn lzma_decoded(s: Seq<u8>) -> Option<Seq<u8>>;

/// What the Snappy-like decoder yields for a given input, if it succeeds.
pub uninterp spec fn snappy_decoded(s: Seq<u8>) -> Option<Seq<u8>>;

/// What the zstd-like decoder yields for a given input, if it succeeds.
pub uninterp spec fn zstd_decoded(s: Seq<u8>) -> Option<Seq<u8>>;

#[verifier::external_type_specification]
#[verifier::external_body]
pub struct ExIoError(std::io::Error);

/// Relies on std::io::Error::kind: its documentation says it returns the
/// `ErrorKind` of this error, which the taxonomy refines on.
#[verifier::external_body]
pub(crate) fn io_condition_of(e: &std::io::Error) -> IoCondition {
    match e.kind() {
        std::io::ErrorKind::NotFound => IoCondition::NotFound,
        std::io::ErrorKind::PermissionDenied => IoCondition::PermissionDenied,
        std::io::ErrorKind::AlreadyExists => IoCondition::AlreadyExists,
        _ => IoCondition::Other,
    }
}

/// Relies on flate2::read::GzDecoder and std::io::Read::read_to_end: reads of
/// the wrapped source yield the decompressed bytes, a function of the input
/// bytes alone, and corrupt input surfaces as an I/O error.
#[verifier::external_body]
fn gzip_decode(bytes: &Vec<u8>) -> (r: Result<Vec<u8>, (IoCondition, String)>)
    ensures
        r matches Ok(v) ==> gzip_decoded(bytes@) == Some(v@),
        r is Ok <==> gzip_decoded(bytes@) is Some,
{
    let mut decoder = flate2::read::GzDecoder::new(bytes.as_slice());
    let mut out: Vec<u8> = Vec::new();
    match std::io::Read::read_to_end(&mut decoder, &mut out) {
        Ok(_) => Ok(out),
        Err(e) => Err((io_condition_of(&e), e.to_string())),
    }
}

/// Relies on bzip2::read::BzDecoder, as for the gzip-like adapter.
#[verifier::external_body]
fn bzip2_decode(bytes: &Vec<u8>) -> (r: Result<Vec<u8>, (IoCondition, String)>)
    ensures
        r matches Ok(v) ==> bzip2_decoded(bytes@) == Some(v@),
        r is Ok <==> bzip2_decoded(bytes@) is Some,
{
    let mut decoder = bzip2::read::BzDecoder::new(bytes.as_slice());
    let mut out: Vec<u8> = Vec::new();
    match std::io::Read::read_to_end(&mut decoder, &mut out) {
        Ok(_) => Ok(out),
        Err(e) => Err((io_condition_of(&e), e.to_string())),
    }
}

/// Relies on lz4_flex::frame::FrameDecoder, as for the gzip-like adapter.
#[verifier::external_body]
fn lz4_decode(bytes: &Vec<u8>) -> (r: Result<Vec<u8>, (IoCondition, String)>)
    ensures
        r matches Ok(v) ==> lz4_decoded(bytes@) == Some(v@),
        r is Ok <==> lz4_decoded(bytes@) is Some,
{
    let mut decoder = lz4_flex::frame::FrameDecoder::new(bytes.as_slice());
    let mut out: Vec<u8> = Vec::new();
    match std::io::Read::read_to_end(&mut decoder, &mut out) {
        Ok(_) => Ok(out),
        Err(e) => Err((io_condition_of(&e), e.to_string())),
    }
}

/// Relies on xz2::read::XzDecoder, as for the gzip-like adapter.
#[verifier::external_body]
fn lzma_decode(bytes: &Vec<u8>) -> (r: Result<Vec<u8>, (IoCondition, String)>)
    ensures
        r matches Ok(v) ==> lzma_decoded(bytes@) == Some(v@),
        r is Ok <==> lzma_decoded(bytes@) is Some,
{
    let mut decoder = xz2::read::XzDecoder::new(bytes.as_slice());
    let mut out: Vec<u8> = Vec::new();
    match std::io::Read::read_to_end(&mut decoder, &mut out) {
        Ok(_) => Ok(out),
        Err(e) => Err((io_condition_of(&e), e.to_string())),
    }
}

/// Relies on snap::read::FrameDecoder, as for the gzip-like adapter.
#[verifier::external_body]
fn snappy_decode(bytes: &Vec<u8>) -> (r: Result<Vec<u8>, (IoCondition, String)>)
    ensures
        r matches Ok(v) ==> snappy_decoded(bytes@) == Some(v@),
        r is Ok <==> snappy_decoded(bytes@) is Some,
{
    let mut decoder = snap::read::FrameDecoder::new(bytes.as_slice());
    let mut out: Vec<u8> = Vec::new();
    match std::io::Read::read_to_end(&mut decoder, &mut out) {
        Ok(_) => Ok(out),
        Err(e) => Err((io_condition_of(&e), e.to_string())),
    }
}

/// Relies on zstd::stream::Decoder, as for the gzip-like adapter; here the
/// constructor itself can already reject the input.
#[verifier::external_body]
fn zstd_decode(bytes: &Vec<u8>) -> (r: Result<Vec<u8>, (IoCondition, String)>)
    ensures
        r matches Ok(v) ==> zstd_decoded(bytes@) == Some(v@),
        r is Ok <==> zstd_decoded(bytes@) is Some,
{
    let mut decoder = match zstd::stream::Decoder::new(bytes.as_slice()) {
        Ok(d) => d,
        Err(e) => return Err((io_condition_of(&e), e.to_string())),
    };
    let mut out: Vec<u8> = Vec::new();
    match std::io::Read::read_to_end(&mut decoder, &mut out) {
        Ok(_) => Ok(out),
        Err(e) => Err((io_condition_of(&e), e.to_string())),
    }
}

/// The registry as one spec-level table: what decoding a single stream layer
/// yields. The bzip3-like kind has no decoder in this build, and container
/// kinds have no stream decoder at all, so neither ever yields bytes.
pub open spec fn spec_decode_layer(f: CompressionFormat, s: Seq<u8>) -> Option<Seq<u8>> {
    match f {
        CompressionFormat::Gzip => gzip_decoded(s),
        CompressionFormat::Bzip => bzip2_decoded(s),
        CompressionFormat::Lz4 => lz4_decoded(s),
        CompressionFormat::Lzma => lzma_decoded(s),
        CompressionFormat::Snappy => snappy_decoded(s),
        CompressionFormat::Zstd => zstd_decoded(s),
        _ => None,
    }
}

/// Decode one stream layer of the chain.
pub fn decode_layer(format: CompressionFormat, bytes: &Vec<u8>) -> (r: Result<Vec<u8>, Error>)
    requires
        !format.spec_is_archive(),
    ensures
        r matches Ok(v) ==> spec_decode_layer(format, bytes@) == Some(v@),
        r is Ok <==> spec_decode_layer(format, bytes@) is Some,
        r matches Err(e) ==> if format == CompressionFormat::Bzip3 {
            e@ matches ErrorV::UnsupportedFormat { .. }
        } else {
            spec_is_io_family(e@)
        },
{
    let decoded = match format {
        CompressionFormat::Gzip => gzip_decode(bytes),
        CompressionFormat::Bzip => bzip2_decode(bytes),
        CompressionFormat::Lz4 => lz4_decode(bytes),
        CompressionFormat::Lzma => lzma_decode(bytes),
        CompressionFormat::Snappy => snappy_decode(bytes),
        CompressionFormat::Zstd => zstd_decode(bytes),
        CompressionFormat::Bzip3 => {
            return Err(Error::UnsupportedFormat {
                reason: String::from_str("this build has no decoder for the bzip3 format"),
            });
        },
        _ => {
            // Container kinds have no stream decoder; the precondition keeps
            // them out of this registry lookup, so this arm is unreachable.
            proof {
                assert(false);
            }
            return Err(Error::UnsupportedFormat { reason: String::new() });
        },
    };
    match decoded {
        Ok(v) => Ok(v),
        Err((condition, message)) => Err(Error::from_io_parts(condition, message)),
    }
}

/// What remains of the input after undoing the stream layers at positions
/// `k`, `k + 1`, ..., up to the end of the chain: the layer nearest the raw
/// bytes (the last position) is undone first, the layer at position `k` last.
pub open spec fn spec_decode_from(chain: Seq<CompressionFormat>, k: int, s: Seq<u8>) -> Option<
    Seq<u8>,
>
    decreases chain.len() - k,
{
    if k < 0 || k >= chain.len() {
        Some(s)
    } else {
        match spec_decode_from(chain, k + 1, s) {
            Option::None => None,
            Option::Some(t) => spec_decode_layer(chain[k], t),
        }
    }
}

/// Once some suffix of the layers fails to decode, the whole composition
/// fails.
pub proof fn lemma_decode_from_none(chain: Seq<CompressionFormat>, k: int, j: int, s: Seq<u8>)
    requires
        0 <= k <= j,
        spec_decode_from(chain, j, s) is None,
    ensures
        spec_decode_from(chain, k, s) is None,
    decreases j - k,
{
    if k < j {
        lemma_decode_from_none(chain, k + 1, j, s);
    }
}

/// Compose and run the decoders for the stream layers of the chain, from the
/// last position toward position 1, over the raw bytes of the base source.
/// Position 0 is left alone: it is the container layer (or, for a chain with
/// no container, the outermost plain compression layer, which has no entries
/// to list).
pub fn decode_stream_layers(chain: &FormatChain, raw: &Vec<u8>) -> (r: Result<Vec<u8>, Error>)
    requires
        chain@.len() >= 2,
    ensures
        r matches Ok(v) ==> spec_decode_from(chain@, 1, raw@) == Some(v@),
        r is Ok <==> spec_decode_from(chain@, 1, raw@) is Some,
        r matches Err(e) ==> (e@ matches ErrorV::UnsupportedFormat { .. } || spec_is_io_family(
            e@,
        )),
{
    proof {
        use_type_invariant(chain);
        FormatChain::lemma_wf(*chain);
    }
    let n = chain.len();
    let mut i: usize = n - 1;
    let mut cur: Vec<u8>;
    proof {
        assert(spec_decode_from(chain@, n as int, raw@) == Some(raw@));
    }
    match decode_layer(chain.format_at(i), raw) {
        Ok(v) => {
            cur = v;
        },
        Err(e) => {
            proof {
                assert(spec_decode_from(chain@, i as int, raw@) is None);
                lemma_decode_from_none(chain@, 1, i as int, raw@);
            }
            return Err(e);
        },
    }
    while i > 1
        invariant
            1 <= i <= n - 1,
            n == chain@.len(),
            n >= 2,
            chain_wf(chain@),
            Some(cur@) == spec_decode_from(chain@, i as int, raw@),
        decreases i,
    {
        i = i - 1;
        let f = chain.format_at(i);
        match decode_layer(f, &cur) {
            Ok(v) => {
                cur = v;
            },
            Err(e) => {
                proof {
                    lemma_decode_from_none(chain@, 1, i as int, raw@);
                }
                return Err(e);
            },
        }
    }
    Ok(cur)
}

} // verus!
