//! Compressed framing of serialized data: the LZMA envelope, whose header
//! records the uncompressed length, and gzip.

use crate::wire::DecodeError;
use std::io::{Read, Write};
use vstd::bytes::{
    lemma_auto_spec_u64_to_from_le_bytes, spec_u64_from_le_bytes, spec_u64_to_le_bytes,
    u64_to_le_bytes,
};
use vstd::prelude::*;

verus! {

/// Offset of the uncompressed-length field in an LZMA stream.
pub const SIZE_FIELD_OFFSET: usize = 5;

/// End of the LZMA stream header, right after the length field.
pub const HEADER_LEN: usize = 13;

/// The LZMA stream (preset 5) that liblzma writes for `data`.
pub uninterp spec fn lzma_stream_of(data: Seq<u8>) -> Seq<u8>;

/// What liblzma's LZMA decoder reads from `stream`, or `None` when it is no
/// valid stream.
pub uninterp spec fn lzma_contents_of(stream: Seq<u8>) -> Option<Seq<u8>>;

/// The gzip stream (default level) that flate2 writes for `data`.
pub uninterp spec fn gzip_stream_of(data: Seq<u8>) -> Seq<u8>;

/// What flate2's gzip decoder reads from `stream`, or `None` when it is no
/// valid stream.
pub uninterp spec fn gzip_contents_of(stream: Seq<u8>) -> Option<Seq<u8>>;

/// Relies on liblzma's `Stream::new_lzma_encoder` with `LzmaOptions::new_preset(5)`,
/// read to the end through `bufread::XzEncoder`. The stream depends on the
/// input alone and starts with the 13-byte LZMA-alone header. The encoder
/// fails only when memory runs out. liblzma's `lzma_alone_decoder` reads back
/// the input from the stream with its length field set to the input length:
/// with a known length it decodes that many bytes and accepts the end marker
/// the encoder wrote (`alone_decoder.c`, `LZMA_LZMA1EXT_ALLOW_EOPM`).
#[verifier::external_body]
fn lzma_compress(data: &[u8]) -> (r: Vec<u8>)
    ensures
        r@ == lzma_stream_of(data@),
        r@.len() >= HEADER_LEN,
        lzma_contents_of(patch_length(r@, data@.len() as u64)) == Some(data@),
{
    let options = liblzma::stream::LzmaOptions::new_preset(5).expect("preset 5 is valid");
    let stream = liblzma::stream::Stream::new_lzma_encoder(&options).expect("encoder memory");
    let mut encoder = liblzma::bufread::XzEncoder::new_stream(data, stream);
    let mut out = Vec::new();
    encoder.read_to_end(&mut out).expect("encoder memory");
    out
}

/// Relies on liblzma's `Stream::new_lzma_decoder(u64::MAX)`, read to the end
/// through `bufread::XzDecoder`: it reads a stream's contents or refuses it,
/// from the stream alone.
#[verifier::external_body]
fn lzma_decompress(stream: &[u8]) -> (r: Option<Vec<u8>>)
    ensures
        match lzma_contents_of(stream@) {
            Some(d) => r matches Some(v) && v@ == d,
            None => r is None,
        },
{
    let decoder = liblzma::stream::Stream::new_lzma_decoder(u64::MAX).ok()?;
    let mut reader = liblzma::bufread::XzDecoder::new_stream(stream, decoder);
    let mut out = Vec::new();
    reader.read_to_end(&mut out).ok()?;
    Some(out)
}

/// Relies on flate2's `write::GzEncoder` at `Compression::default()`, fed the
/// input and finished into a `Vec`, which cannot fail: the stream depends on
/// the input alone, and flate2's decoder reads the input back from it.
#[verifier::external_body]
fn gzip_compress(data: &[u8]) -> (r: Vec<u8>)
    ensures
        r@ == gzip_stream_of(data@),
        gzip_contents_of(r@) == Some(data@),
{
    let mut encoder = flate2::write::GzEncoder::new(Vec::new(), flate2::Compression::default());
    encoder.write_all(data).expect("writing to a Vec");
    encoder.finish().expect("writing to a Vec")
}

/// Relies on flate2's `read::GzDecoder`, read to the end: it reads a
/// stream's contents or refuses it, from the stream alone. It first reads a
/// 10-byte header that must start with `1f 8b` (`gz/mod.rs`, `parse`).
#[verifier::external_body]
fn gzip_decompress(stream: &[u8]) -> (r: Option<Vec<u8>>)
    ensures
        match gzip_contents_of(stream@) {
            Some(d) => r matches Some(v) && v@ == d,
            None => r is None,
        },
        (stream@.len() < 10 || stream@[0] != 0x1f || stream@[1] != 0x8b) ==> r is None,
{
    let mut decoder = flate2::read::GzDecoder::new(stream);
    let mut out = Vec::new();
    decoder.read_to_end(&mut out).ok()?;
    Some(out)
}

/// `stream` with its length field set to `len`, little-endian.
pub open spec fn patch_length(stream: Seq<u8>, len: u64) -> Seq<u8> {
    stream.subrange(0, SIZE_FIELD_OFFSET as int) + spec_u64_to_le_bytes(len) + stream.subrange(
        HEADER_LEN as int,
        stream.len() as int,
    )
}

/// Writes `len` into the length field of an LZMA stream.
pub fn set_length_field(stream: &mut Vec<u8>, len: u64)
    requires
        old(stream)@.len() >= HEADER_LEN,
    ensures
        final(stream)@ == patch_length(old(stream)@, len),
        final(stream)@.len() == old(stream)@.len(),
        spec_u64_from_le_bytes(final(stream)@.subrange(SIZE_FIELD_OFFSET as int, HEADER_LEN as int))
            == len,
{
    let le = u64_to_le_bytes(len);
    let ghost before = stream@;
    let mut i: usize = 0;
    while i < 8
        invariant
            0 <= i <= 8,
            le@ == spec_u64_to_le_bytes(len),
            le@.len() == 8,
            stream@.len() == before.len(),
            before.len() >= HEADER_LEN,
            forall|j: int| 0 <= j < stream@.len() ==> #[trigger] stream@[j] == if SIZE_FIELD_OFFSET
                <= j < SIZE_FIELD_OFFSET + i {
                le@[j - SIZE_FIELD_OFFSET]
            } else {
                before[j]
            },
        decreases 8 - i,
    {
        stream.set(SIZE_FIELD_OFFSET + i, le[i]);
        i += 1;
    }
    assert(stream@ =~= patch_length(before, len));
    assert(stream@.subrange(SIZE_FIELD_OFFSET as int, HEADER_LEN as int) =~= le@);
    proof {
        lemma_auto_spec_u64_to_from_le_bytes();
    }
}

/// Compresses `data` into an LZMA envelope whose header records
/// `data.len()`; unwrapping it gives `data` back.
pub fn compress_data(data: &[u8]) -> (r: Vec<u8>)
    ensures
        r@ == patch_length(lzma_stream_of(data@), data@.len() as u64),
        r@.len() >= HEADER_LEN,
        spec_u64_from_le_bytes(r@.subrange(SIZE_FIELD_OFFSET as int, HEADER_LEN as int))
            == data@.len(),
        lzma_contents_of(r@) == Some(data@),
{
    let mut stream = lzma_compress(data);
    set_length_field(&mut stream, data.len() as u64);
    stream
}

/// Reads an LZMA envelope. Anything the decoder refuses is a
/// `CompressionFormat` error, so that a caller can try the bytes as
/// uncompressed data instead.
pub fn decompress_data(stream: &[u8]) -> (r: Result<Vec<u8>, DecodeError>)
    ensures
        match lzma_contents_of(stream@) {
            Some(d) => r matches Ok(v) && v@ == d,
            None => r == Err::<Vec<u8>, DecodeError>(DecodeError::CompressionFormat),
        },
{
    match lzma_decompress(stream) {
        Some(d) => Ok(d),
        None => Err(DecodeError::CompressionFormat),
    }
}

/// Compresses `data` into a gzip stream, from which reading gives `data`
/// back.
pub fn gzip_data(data: &[u8]) -> (r: Vec<u8>)
    ensures
        r@ == gzip_stream_of(data@),
        gzip_contents_of(r@) == Some(data@),
{
    gzip_compress(data)
}

/// Reads a gzip stream. Anything the decoder refuses, such as bytes that do
/// not start with the gzip magic `1f 8b`, is a `CompressionFormat` error, so
/// that a caller can try the bytes as uncompressed data instead.
pub fn gunzip_data(stream: &[u8]) -> (r: Result<Vec<u8>, DecodeError>)
    ensures
        match gzip_contents_of(stream@) {
            Some(d) => r matches Ok(v) && v@ == d,
            None => r == Err::<Vec<u8>, DecodeError>(DecodeError::CompressionFormat),
        },
        (stream@.len() < 10 || stream@[0] != 0x1f || stream@[1] != 0x8b) ==> r == Err::<
            Vec<u8>,
            DecodeError,
        >(DecodeError::CompressionFormat),
{
    match gzip_decompress(stream) {
        Some(d) => Ok(d),
        None => Err(DecodeError::CompressionFormat),
    }
}

} // verus!
