//! The calls into the codec crates that the providers stand on.
//!
//! Every function here is trusted: Verus believes its contract and does not
//! read its body. Each result is a function of the call's arguments alone
//! (the codecs are deterministic and work on memory only), so each is tied to
//! a name for that function. Where the crate's documentation promises that
//! its own decoder gives back what its encoder produced, the encoding call
//! says so over the decoder's name.

use vstd::prelude::*;

verus! {

/// The step of an encoding pipeline at which an outside encoder failed.
#[derive(Clone, Copy, Debug, PartialEq, Eq, Structural)]
pub enum EncodeStage {
    /// Creating the encoder.
    Setup,
    /// Feeding the input to the encoder.
    Write,
    /// Finishing the stream.
    Finish,
}

/// A result that succeeded with exactly `v`.
pub open spec fn yields(r: Result<Seq<u8>, Seq<char>>, v: Seq<u8>) -> bool {
    r is Ok && r->Ok_0 == v
}

/// A byte result as plain values.
pub open spec fn bytes_view(r: Result<Vec<u8>, String>) -> Result<Seq<u8>, Seq<char>> {
    match r {
        Ok(v) => Ok(v@),
        Err(e) => Err(e@),
    }
}

/// An encoder's result, with the failing step, as plain values.
pub open spec fn staged_view(r: Result<Vec<u8>, (EncodeStage, String)>) -> Result<
    Seq<u8>,
    (EncodeStage, Seq<char>),
> {
    match r {
        Ok(v) => Ok(v@),
        Err((stage, e)) => Err((stage, e@)),
    }
}

/// A counted decoding's result as plain values.
pub open spec fn counted_bytes_view(r: Result<(Vec<u8>, u64), String>) -> Result<
    (Seq<u8>, u64),
    Seq<char>,
> {
    match r {
        Ok((v, n)) => Ok((v@, n)),
        Err(e) => Err(e@),
    }
}

/// What flate2's raw DEFLATE encoder (`write::DeflateEncoder`) produces from
/// an input at a compression level, or the failing step and the text of its
/// error.
pub uninterp spec fn deflate_encoding(input: Seq<u8>, level: u32) -> Result<
    Seq<u8>,
    (EncodeStage, Seq<char>),
>;

/// What flate2's raw DEFLATE decoder (`read::DeflateDecoder`) reads out of
/// an input, or the text of its error.
pub uninterp spec fn deflate_decoding(input: Seq<u8>) -> Result<Seq<u8>, Seq<char>>;

/// flate2's raw DEFLATE decoder run over an input, with the count of input
/// bytes that it consumed (`total_in`), or the text of its error.
pub uninterp spec fn deflate_decoding_counted(input: Seq<u8>) -> Result<(Seq<u8>, u64), Seq<char>>;

/// What banzai's bzip2 encoder writes for an input at a block-size level
/// (`1..=9`), or the text of its error.
pub uninterp spec fn bzip2_encoding(input: Seq<u8>, level: usize) -> Result<Seq<u8>, Seq<char>>;

/// What bzip2_rs's `DecoderReader` reads out of an input, or the text of
/// its error.
pub uninterp spec fn bzip2_decoding(input: Seq<u8>) -> Result<Seq<u8>, Seq<char>>;

/// What lzma_rust2's `XzWriter` produces from an input with the options of a
/// preset, or the failing step and the text of its error.
pub uninterp spec fn xz_encoding(input: Seq<u8>, preset: u32) -> Result<
    Seq<u8>,
    (EncodeStage, Seq<char>),
>;

/// What lzma_rust2's `XzReader` (concatenated streams allowed) reads out of
/// an input, or the text of its error.
pub uninterp spec fn xz_decoding(input: Seq<u8>) -> Result<Seq<u8>, Seq<char>>;

/// The LZ4 block that lz4_flex's `block::compress` makes of an input.
pub uninterp spec fn lz4_block_encoding(input: Seq<u8>) -> Seq<u8>;

/// What lz4_flex's `block::decompress` makes of a block, given the size to
/// reserve for its output, or the text of its error.
pub uninterp spec fn lz4_block_decoding(block: Seq<u8>, size: usize) -> Result<Seq<u8>, Seq<char>>;

/// The zstd frame that `zstd::encode_all` writes for an input at a level,
/// or the text of its error.
pub uninterp spec fn zstd_stream_encoding(input: Seq<u8>, level: i32) -> Result<Seq<u8>, Seq<char>>;

/// What `zstd::decode_all` reads out of an input, or the text of its error.
pub uninterp spec fn zstd_stream_decoding(input: Seq<u8>) -> Result<Seq<u8>, Seq<char>>;

/// Raw DEFLATE compression with flate2 (`write::DeflateEncoder` over a
/// `Vec`, `write_all`, then `finish`). The result is the named encoding; its
/// output read back by flate2's `read::DeflateDecoder` gives the input again,
/// as the crate documents for its encoder/decoder pair. flate2's miniz_oxide
/// backend debug-asserts a level of at most 10, so the level is required to
/// be one of DEFLATE's 0 to 9.
#[verifier::external_body]
pub(crate) fn deflate_encode(input: &[u8], level: u32) -> (r: Result<Vec<u8>, (EncodeStage, String)>)
    requires
        level <= 9,
    ensures
        staged_view(r) == deflate_encoding(input@, level),
        r matches Ok(c) ==> yields(deflate_decoding(c@), input@),
{
    let mut encoder = flate2::write::DeflateEncoder::new(Vec::new(), flate2::Compression::new(level));
    if let Err(e) = std::io::Write::write_all(&mut encoder, input) {
        return Err((EncodeStage::Write, e.to_string()));
    }
    match encoder.finish() {
        Ok(v) => Ok(v),
        Err(e) => Err((EncodeStage::Finish, e.to_string())),
    }
}

/// Raw DEFLATE decompression with flate2 (`read::DeflateDecoder` read to
/// the end). The result is the named decoding.
#[verifier::external_body]
pub(crate) fn deflate_decode(input: &[u8]) -> (r: Result<Vec<u8>, String>)
    ensures
        bytes_view(r) == deflate_decoding(input@),
{
    let mut decoder = flate2::read::DeflateDecoder::new(input);
    let mut output = Vec::new();
    match std::io::Read::read_to_end(&mut decoder, &mut output) {
        Ok(_) => Ok(output),
        Err(e) => Err(e.to_string()),
    }
}

/// The same decoding as `deflate_decode`, reporting also flate2's
/// `total_in`: the number of input bytes the DEFLATE stream took. The bytes
/// and the error are those of the plain decoding, and the count is at most
/// the input's length, since the decoder reads from the input alone.
#[verifier::external_body]
pub(crate) fn deflate_decode_counted(input: &[u8]) -> (r: Result<(Vec<u8>, u64), String>)
    ensures
        counted_bytes_view(r) == deflate_decoding_counted(input@),
        r matches Ok((v, n)) ==> yields(deflate_decoding(input@), v@) && n <= input@.len(),
        r matches Err(e) ==> deflate_decoding(input@) is Err && deflate_decoding(input@)->Err_0
            == e@,
{
    let mut decoder = flate2::read::DeflateDecoder::new(input);
    let mut output = Vec::new();
    match std::io::Read::read_to_end(&mut decoder, &mut output) {
        Ok(_) => Ok((output, decoder.total_in())),
        Err(e) => Err(e.to_string()),
    }
}

/// bzip2 compression with `banzai::encode` into a `Vec` (through a
/// `BufWriter`). banzai asserts `1 <= level <= 9`, so that is required. The
/// result is the named encoding. That bzip2_rs's decoder reads banzai's
/// stream back to the input is stated by neither crate (banzai calls its
/// encoder alpha software), so it is not stated here.
#[verifier::external_body]
pub(crate) fn bzip2_encode(input: &[u8], level: usize) -> (r: Result<Vec<u8>, String>)
    requires
        1 <= level <= 9,
    ensures
        bytes_view(r) == bzip2_encoding(input@, level),
{
    let mut output = Vec::new();
    let result = banzai::encode(input, std::io::BufWriter::new(&mut output), level);
    match result {
        Ok(_) => Ok(output),
        Err(e) => Err(e.to_string()),
    }
}

/// bzip2 decompression with bzip2_rs's `DecoderReader` read to the end.
/// The result is the named decoding. The reader's loop holds an
/// `unreachable!` and an `assert_eq!` on states of its decoder; that
/// malformed input cannot reach them is not shown by the crate's source, and
/// this contract states nothing about it.
#[verifier::external_body]
pub(crate) fn bzip2_decode(input: &[u8]) -> (r: Result<Vec<u8>, String>)
    ensures
        bytes_view(r) == bzip2_decoding(input@),
{
    let mut decoder = bzip2_rs::DecoderReader::new(input);
    let mut output = Vec::new();
    match std::io::Read::read_to_end(&mut decoder, &mut output) {
        Ok(_) => Ok(output),
        Err(e) => Err(e.to_string()),
    }
}

/// The magic bytes that open an `.xz` stream: FD, "7zXZ", 00.
pub open spec fn xz_magic() -> Seq<u8> {
    seq![0xFDu8, 0x37u8, 0x7Au8, 0x58u8, 0x5Au8, 0x00u8]
}

/// `.xz` compression with lzma_rust2 (`XzWriter::new` with
/// `XzOptions::with_preset`, `write_all`, then `finish`). Its output read by
/// lzma_rust2's `XzReader` gives the input again, and it is an `.xz`
/// container: the writer puts the stream header, which starts with the
/// `.xz` magic bytes, first into the empty `Vec`, before any other byte.
#[verifier::external_body]
pub(crate) fn xz_encode(input: &[u8], preset: u32) -> (r: Result<Vec<u8>, (EncodeStage, String)>)
    ensures
        staged_view(r) == xz_encoding(input@, preset),
        r matches Ok(c) ==> yields(xz_decoding(c@), input@),
        r matches Ok(c) ==> c@.len() >= 6 && c@.take(6) == xz_magic(),
{
    let options = lzma_rust2::XzOptions::with_preset(preset);
    let mut encoder = match lzma_rust2::XzWriter::new(Vec::new(), options) {
        Ok(w) => w,
        Err(e) => return Err((EncodeStage::Setup, e.to_string())),
    };
    if let Err(e) = std::io::Write::write_all(&mut encoder, input) {
        return Err((EncodeStage::Write, e.to_string()));
    }
    match encoder.finish() {
        Ok(v) => Ok(v),
        Err(e) => Err((EncodeStage::Finish, e.to_string())),
    }
}

/// `.xz` decompression with lzma_rust2's `XzReader` (concatenated streams
/// allowed) read to the end. The result is the named decoding. That the
/// reader returns an error rather than panicking on every malformed input is
/// not stated here.
#[verifier::external_body]
pub(crate) fn xz_decode(input: &[u8]) -> (r: Result<Vec<u8>, String>)
    ensures
        bytes_view(r) == xz_decoding(input@),
{
    let mut decoder = lzma_rust2::XzReader::new(input, true);
    let mut output = Vec::new();
    match std::io::Read::read_to_end(&mut decoder, &mut output) {
        Ok(_) => Ok(output),
        Err(e) => Err(e.to_string()),
    }
}

/// LZ4 block compression with `lz4_flex::block::compress`. Decompressing the
/// block with room for the input's length gives the input again, as the
/// crate documents for `block::decompress`.
#[verifier::external_body]
pub(crate) fn lz4_compress_block(input: &[u8]) -> (r: Vec<u8>)
    ensures
        r@ == lz4_block_encoding(input@),
        yields(lz4_block_decoding(r@, input.len()), input@),
{
    lz4_flex::block::compress(input)
}

/// LZ4 block decompression with `lz4_flex::block::decompress`, reserving
/// `size` bytes for the output. With the crate's default checked decoding an
/// output that does not fit is an error, not a panic.
#[verifier::external_body]
pub(crate) fn lz4_decompress_block(block: &[u8], size: usize) -> (r: Result<Vec<u8>, String>)
    ensures
        bytes_view(r) == lz4_block_decoding(block@, size),
{
    match lz4_flex::block::decompress(block, size) {
        Ok(v) => Ok(v),
        Err(e) => Err(e.to_string()),
    }
}

/// zstd compression with `zstd::encode_all` at a level. Its output read by
/// `zstd::decode_all` gives the input again.
#[verifier::external_body]
pub(crate) fn zstd_encode_all(input: &[u8], level: i32) -> (r: Result<Vec<u8>, String>)
    ensures
        bytes_view(r) == zstd_stream_encoding(input@, level),
        r matches Ok(c) ==> yields(zstd_stream_decoding(c@), input@),
{
    match zstd::encode_all(input, level) {
        Ok(v) => Ok(v),
        Err(e) => Err(e.to_string()),
    }
}

/// zstd decompression with `zstd::decode_all`. The result is the named
/// decoding.
#[verifier::external_body]
pub(crate) fn zstd_decode_all(input: &[u8]) -> (r: Result<Vec<u8>, String>)
    ensures
        bytes_view(r) == zstd_stream_decoding(input@),
{
    match zstd::decode_all(input) {
        Ok(v) => Ok(v),
        Err(e) => Err(e.to_string()),
    }
}

} // verus!
