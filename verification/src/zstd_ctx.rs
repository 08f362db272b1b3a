//! The libzstd calls of the zstd extras, through `zstd::zstd_safe` and the
//! `zstd` crate. Each result is a function of the call's arguments, and is
//! tied to a name for that function where a few lines cannot state it.

use vstd::prelude::*;
use crate::providers::le32_value;

verus! {

/// What a frame header says of the content size (`get_frame_content_size`).
#[derive(Debug, Clone, Copy, PartialEq, Eq, Structural)]
pub enum ContentSize {
    /// The frame records its content size.
    Known(u64),
    /// The frame does not record it.
    Unknown,
    /// The input is too short, or not a zstd frame.
    Invalid,
}

/// `ZSTD_MAX_INPUT_SIZE`: the sizes from which `ZSTD_compressBound` fails.
pub open spec fn zstd_max_input() -> int {
    if usize::BITS == 64 {
        0xFF00FF00FF00FF00int
    } else {
        0xFF00FF00int
    }
}

/// `ZSTD_compressBound`: the room that a one-shot compression of `size`
/// bytes may need, `size + size / 256` and a margin of
/// `(128 KiB - size) / 2048` for sizes under 128 KiB; from
/// `ZSTD_MAX_INPUT_SIZE` on, the error code of `srcSize_wrong` (72).
pub open spec fn zstd_bound(size: usize) -> usize {
    if size < zstd_max_input() {
        (size + size / 256 + if size < 131072 {
            (131072 - size) / 2048
        } else {
            0
        }) as usize
    } else {
        (usize::MAX - 71) as usize
    }
}

/// The name libzstd gives an error code (`ZSTD_getErrorName`).
pub uninterp spec fn zstd_error_text(code: usize) -> Seq<char>;

/// What a frame header says of the content size.
pub uninterp spec fn zstd_content_size(input: Seq<u8>) -> ContentSize;

/// `ZSTD_findFrameCompressedSize`: the length of the first frame of the
/// input, or the error code.
pub uninterp spec fn zstd_frame_compressed_size(input: Seq<u8>) -> Result<usize, usize>;

/// The dictionary ID recorded in a dictionary (`ZSTD_getDictID_fromDict`):
/// the little-endian u32 after the magic number `ZSTD_MAGIC_DICTIONARY`
/// (0xEC30A437, little-endian too) that a dictionary in zstd's format starts
/// with; 0 for anything else, which libzstd loads as raw content.
pub open spec fn dictionary_id_of(dict: Seq<u8>) -> u32 {
    if dict.len() < 8 || le32_value(dict) != 0xEC30A437 {
        0
    } else {
        le32_value(dict.skip(4))
    }
}

/// What `zstd::dict::from_samples` trains from samples for a dictionary of at
/// most `max_size` bytes, or the text of its error.
pub uninterp spec fn zstd_trained_dictionary(samples: Seq<Seq<u8>>, max_size: usize) -> Result<
    Seq<u8>,
    Seq<char>,
>;

/// What `zstd::bulk::Compressor::with_dictionary(level, dict)` then
/// `compress(input)` give: the frame, or the failing step (`Setup` for
/// making the compressor, `Write` for compressing) and the error's text.
pub uninterp spec fn zstd_dictionary_encoding(input: Seq<u8>, level: i32, dict: Seq<u8>) -> Result<
    Seq<u8>,
    (crate::codecs::EncodeStage, Seq<char>),
>;

/// What `zstd::bulk::Decompressor::with_dictionary(dict)` then
/// `decompress(input, capacity)` give, with the failing step as above.
pub uninterp spec fn zstd_dictionary_decoding(input: Seq<u8>, dict: Seq<u8>, capacity: usize) -> Result<
    Seq<u8>,
    (crate::codecs::EncodeStage, Seq<char>),
>;

/// A result that succeeded with exactly `v`.
pub open spec fn staged_yields(r: Result<Seq<u8>, (crate::codecs::EncodeStage, Seq<char>)>, v: Seq<u8>) -> bool {
    r is Ok && r->Ok_0 == v
}

/// `zstd_safe::compress_bound` (`ZSTD_compressBound`), whose value zstd.h
/// gives as `ZSTD_COMPRESSBOUND`.
#[verifier::external_body]
pub(crate) fn zstd_compress_bound(size: usize) -> (r: usize)
    ensures
        r == zstd_bound(size),
{
    zstd::zstd_safe::compress_bound(size)
}

/// `zstd_safe::get_error_name`.
#[verifier::external_body]
pub(crate) fn zstd_error_name(code: usize) -> (r: &'static str)
    ensures
        r@ == zstd_error_text(code),
{
    zstd::zstd_safe::get_error_name(code)
}

/// `zstd_safe::get_frame_content_size`: `Known` for `Ok(Some(n))`,
/// `Unknown` for `Ok(None)`, `Invalid` for an error.
#[verifier::external_body]
pub(crate) fn zstd_frame_content_size(input: &[u8]) -> (r: ContentSize)
    ensures
        r == zstd_content_size(input@),
{
    match zstd::zstd_safe::get_frame_content_size(input) {
        Ok(Some(n)) => ContentSize::Known(n),
        Ok(None) => ContentSize::Unknown,
        Err(_) => ContentSize::Invalid,
    }
}

/// `zstd_safe::find_frame_compressed_size`. A size it finds is that of a
/// frame held within the input (libzstd answers `srcSize_wrong` for a frame
/// that runs past the input's end), so it is at most the input's length.
#[verifier::external_body]
pub(crate) fn zstd_find_frame_compressed_size(input: &[u8]) -> (r: Result<usize, usize>)
    ensures
        r == zstd_frame_compressed_size(input@),
        r matches Ok(n) ==> n <= input@.len(),
{
    zstd::zstd_safe::find_frame_compressed_size(input)
}

/// `zstd_safe::get_dict_id_from_dict`: the ID that
/// `ZSTD_getDictID_fromDict` reads, or `None` where it reads 0.
#[verifier::external_body]
pub(crate) fn zstd_get_dict_id(dict: &[u8]) -> (r: Option<u32>)
    ensures
        r == (if dictionary_id_of(dict@) == 0 {
            None
        } else {
            Some(dictionary_id_of(dict@))
        }),
{
    match zstd::zstd_safe::get_dict_id_from_dict(dict) {
        Some(n) => Some(n.get()),
        None => None,
    }
}

/// `zstd::dict::from_samples`.
#[verifier::external_body]
pub(crate) fn zstd_train_from_samples(samples: &Vec<Vec<u8>>, max_size: usize) -> (r: Result<Vec<u8>, String>)
    ensures
        crate::codecs::bytes_view(r) == zstd_trained_dictionary(samples.deep_view(), max_size),
{
    match zstd::dict::from_samples(samples, max_size) {
        Ok(v) => Ok(v),
        Err(e) => Err(e.to_string()),
    }
}

/// `zstd::bulk::Compressor::with_dictionary(level, dict)` then `compress`.
/// The frame records the input's length (the compressor knows it, and
/// zstd writes the content size whenever it is known unless told not to),
/// and `bulk::Decompressor::with_dictionary(dict)` with room for at least
/// that many bytes decompresses it to the input.
#[verifier::external_body]
pub(crate) fn zstd_compress_with_dictionary(input: &[u8], level: i32, dict: &[u8]) -> (r: Result<
    Vec<u8>,
    (crate::codecs::EncodeStage, String),
>)
    ensures
        crate::codecs::staged_view(r) == zstd_dictionary_encoding(input@, level, dict@),
        r matches Ok(c) ==> zstd_content_size(c@) == ContentSize::Known(input@.len() as u64),
        r matches Ok(c) ==> forall|capacity: usize|
            capacity >= input@.len() ==> #[trigger] staged_yields(
                zstd_dictionary_decoding(c@, dict@, capacity),
                input@,
            ),
{
    let mut compressor = match zstd::bulk::Compressor::with_dictionary(level, dict) {
        Ok(c) => c,
        Err(e) => return Err((crate::codecs::EncodeStage::Setup, e.to_string())),
    };
    match compressor.compress(input) {
        Ok(v) => Ok(v),
        Err(e) => Err((crate::codecs::EncodeStage::Write, e.to_string())),
    }
}

/// `zstd::bulk::Decompressor::with_dictionary(dict)` then
/// `decompress(input, capacity)`.
#[verifier::external_body]
pub(crate) fn zstd_decompress_with_dictionary(input: &[u8], dict: &[u8], capacity: usize) -> (r: Result<
    Vec<u8>,
    (crate::codecs::EncodeStage, String),
>)
    ensures
        crate::codecs::staged_view(r) == zstd_dictionary_decoding(input@, dict@, capacity),
{
    let mut decompressor = match zstd::bulk::Decompressor::with_dictionary(dict) {
        Ok(d) => d,
        Err(e) => return Err((crate::codecs::EncodeStage::Setup, e.to_string())),
    };
    match decompressor.decompress(input, capacity) {
        Ok(v) => Ok(v),
        Err(e) => Err((crate::codecs::EncodeStage::Write, e.to_string())),
    }
}

} // verus!
