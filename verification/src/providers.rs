//! Compression algorithm providers.
//!
//! Each algorithm is a provider of the `CompressionProvider` trait. What a
//! provider returns is stated over the model functions of this module
//! (`compress_outcome`, `decompress_outcome`, `counted_outcome`), which in
//! turn speak of the named results of the codec crates (see `codecs`).

use vstd::prelude::*;
use crate::codecs::{
    EncodeStage, yields, bytes_view, staged_view, counted_bytes_view, deflate_encoding, deflate_decoding,
    deflate_decoding_counted, bzip2_encoding, bzip2_decoding, xz_encoding, xz_decoding,
    lz4_block_encoding, lz4_block_decoding, zstd_stream_encoding, zstd_stream_decoding,
    deflate_encode, deflate_decode, deflate_decode_counted, bzip2_encode, bzip2_decode,
    xz_encode, xz_decode, lz4_compress_block, lz4_decompress_block, zstd_encode_all,
    zstd_decode_all, xz_magic,
};
use crate::text::join2;
use vstd::string::*;

verus! {

/// Compression algorithm selection
#[derive(Debug, Clone, Copy, PartialEq, Eq, Hash, Structural)]
pub enum Algorithm {
    /// No compression (pass-through)
    Store,
    /// DEFLATE compression (RFC 1951)
    Deflate,
    /// BZIP2 compression
    Bzip2,
    /// LZMA compression
    Lzma,
    /// Zstandard compression
    Zstd,
    /// LZ4 compression (extremely fast)
    Lz4,
    /// OpenZL compression (Meta's format-aware compression)
    Openzl,
}

// ---------------------------------------------------------------------------
// Model
// ---------------------------------------------------------------------------

/// The error of every request for OpenZL here: it is only built for WASM.
pub open spec fn openzl_unavailable() -> Seq<char> {
    "OpenZL is only available on WASM targets"@
}

/// The DEFLATE level used for a requested level: capped at 9.
pub open spec fn deflate_level(level: u8) -> u32 {
    if level <= 9 {
        level as u32
    } else {
        9
    }
}

/// The bzip2 block-size level used for a requested level: 0 becomes 1, and
/// the level is capped at 9.
pub open spec fn bzip2_block_level(level: u8) -> usize {
    if level == 0 {
        1
    } else if level <= 9 {
        level as usize
    } else {
        9
    }
}

/// The `.xz` preset used for a requested level: capped at 9.
pub open spec fn xz_preset(level: u8) -> u32 {
    if level <= 9 {
        level as u32
    } else {
        9
    }
}

/// The zstd level used for a requested level: 0 becomes 1, the levels 1 to
/// 8 are doubled, and 9 and above become 19, so that 0 to 9 span zstd's 1 to
/// 19.
pub open spec fn zstd_level(level: u8) -> i32 {
    if level == 0 {
        1
    } else if level <= 8 {
        (2 * level) as i32
    } else {
        19
    }
}

/// The four little-endian bytes of a 32-bit number.
pub open spec fn le32_bytes(n: u32) -> Seq<u8> {
    seq![
        (n % 256) as u8,
        (n / 256 % 256) as u8,
        (n / 65536 % 256) as u8,
        (n / 16777216) as u8,
    ]
}

/// The 32-bit number of four little-endian bytes (the first four of `b`).
pub open spec fn le32_value(b: Seq<u8>) -> u32 {
    (b[0] + 256 * b[1] + 65536 * b[2] + 16777216 * b[3]) as u32
}

/// The LZ4 container of this library: the input's length modulo 2^32 as a
/// little-endian u32, then the LZ4 block of the input.
pub open spec fn lz4_frame(input: Seq<u8>) -> Seq<u8> {
    le32_bytes((input.len() % 0x1_0000_0000) as u32) + lz4_block_encoding(input)
}

/// An outside result with a prefix put before its error text.
pub open spec fn with_prefix(prefix: Seq<char>, r: Result<Seq<u8>, Seq<char>>) -> Result<
    Seq<u8>,
    Seq<char>,
> {
    match r {
        Ok(v) => Ok(v),
        Err(e) => Err(prefix + e),
    }
}

/// An outside encoder's result with the prefix of the failing step put
/// before its error text.
pub open spec fn with_stage_prefix(
    setup: Seq<char>,
    write: Seq<char>,
    finish: Seq<char>,
    r: Result<Seq<u8>, (EncodeStage, Seq<char>)>,
) -> Result<Seq<u8>, Seq<char>> {
    match r {
        Ok(v) => Ok(v),
        Err((EncodeStage::Setup, e)) => Err(setup + e),
        Err((EncodeStage::Write, e)) => Err(write + e),
        Err((EncodeStage::Finish, e)) => Err(finish + e),
    }
}

/// What compressing `input` at `level` with an algorithm returns.
pub open spec fn compress_outcome(alg: Algorithm, input: Seq<u8>, level: u8) -> Result<
    Seq<u8>,
    Seq<char>,
> {
    match alg {
        Algorithm::Store => Ok(input),
        Algorithm::Deflate => with_stage_prefix(
            "DEFLATE compression failed: "@,
            "DEFLATE compression failed: "@,
            "DEFLATE finish failed: "@,
            deflate_encoding(input, deflate_level(level)),
        ),
        Algorithm::Bzip2 => with_prefix(
            "BZIP2 compression failed: "@,
            bzip2_encoding(input, bzip2_block_level(level)),
        ),
        Algorithm::Lzma => with_stage_prefix(
            "XZ encoder creation failed: "@,
            "XZ compression failed: "@,
            "XZ finish failed: "@,
            xz_encoding(input, xz_preset(level)),
        ),
        Algorithm::Zstd => with_prefix(
            "Zstd compression failed: "@,
            zstd_stream_encoding(input, zstd_level(level)),
        ),
        Algorithm::Lz4 => Ok(lz4_frame(input)),
        Algorithm::Openzl => Err(openzl_unavailable()),
    }
}

/// What decompressing `input` with an algorithm returns.
pub open spec fn decompress_outcome(alg: Algorithm, input: Seq<u8>) -> Result<Seq<u8>, Seq<char>> {
    match alg {
        Algorithm::Store => Ok(input),
        Algorithm::Deflate => with_prefix("DEFLATE decompression failed: "@, deflate_decoding(input)),
        Algorithm::Bzip2 => with_prefix("BZIP2 decompression failed: "@, bzip2_decoding(input)),
        Algorithm::Lzma => with_prefix("XZ decompression failed: "@, xz_decoding(input)),
        Algorithm::Zstd => with_prefix("Zstd decompression failed: "@, zstd_stream_decoding(input)),
        Algorithm::Lz4 => if input.len() < 4 {
            Err("LZ4 decompression failed: input too short"@)
        } else {
            with_prefix(
                "LZ4 decompression failed: "@,
                lz4_block_decoding(input.skip(4), le32_value(input) as usize),
            )
        },
        Algorithm::Openzl => Err(openzl_unavailable()),
    }
}

/// The inputs on which the round trip (decompression gives back what
/// compression made) is stated: all, but for LZ4, whose header records the
/// length modulo 2^32, only inputs shorter than 4 GiB. It is not stated for
/// bzip2, whose encoder and decoder come from two crates that do not promise
/// to match, nor for OpenZL, which does not run here.
pub open spec fn lossless_for(alg: Algorithm, input: Seq<u8>) -> bool {
    match alg {
        Algorithm::Lz4 => input.len() < 0x1_0000_0000,
        Algorithm::Bzip2 => false,
        Algorithm::Openzl => false,
        _ => true,
    }
}

/// The first component of a counted result.
pub open spec fn drop_count(r: Result<(Seq<u8>, u64), Seq<char>>) -> Result<Seq<u8>, Seq<char>> {
    match r {
        Ok((v, _n)) => Ok(v),
        Err(e) => Err(e),
    }
}

// ---------------------------------------------------------------------------
// Laws of the model
// ---------------------------------------------------------------------------

/// Reading the four little-endian bytes of a 32-bit number gives the number
/// back.
pub proof fn lemma_le32_roundtrip(n: u32)
    ensures
        le32_bytes(n).len() == 4,
        le32_value(le32_bytes(n)) == n,
{
    let b = le32_bytes(n);
    assert(b[0] == n % 256);
    assert(b[1] == n / 256 % 256);
    assert(b[2] == n / 65536 % 256);
    assert(b[3] == n / 16777216);
    assert(n % 256 + 256 * (n / 256 % 256) + 65536 * (n / 65536 % 256) + 16777216 * (n / 16777216)
        == n) by (nonlinear_arith)
        requires
            n < 0x1_0000_0000,
    {
        assert(n == 256 * (n / 256) + n % 256);
        assert(n / 256 == 256 * (n / 65536) + n / 256 % 256);
        assert(n / 65536 == 256 * (n / 16777216) + n / 65536 % 256);
    }
}

/// The level each algorithm is given stays within the range its codec
/// accepts: DEFLATE and `.xz` 0 to 9, bzip2 1 to 9, zstd 1 to 19.
pub proof fn lemma_levels_in_range(level: u8)
    ensures
        deflate_level(level) <= 9,
        1 <= bzip2_block_level(level) <= 9,
        xz_preset(level) <= 9,
        1 <= zstd_level(level) <= 19,
        level <= 9 ==> deflate_level(level) == level && xz_preset(level) == level,
        1 <= level <= 8 ==> zstd_level(level) == 2 * level,
        level == 0 ==> zstd_level(level) == 1,
        level >= 9 ==> zstd_level(level) == 19,
{
}

// ---------------------------------------------------------------------------
// Providers
// ---------------------------------------------------------------------------

/// A provider's counted result as plain values, without the count.
pub open spec fn counted_view(r: Result<(Vec<u8>, u64), String>) -> Result<Seq<u8>, Seq<char>> {
    drop_count(counted_bytes_view(r))
}

/// Compression provider trait
///
/// Each algorithm implements this trait to provide compress/decompress functionality
pub trait CompressionProvider {
    /// The algorithm this provider implements.
    spec fn algorithm(&self) -> Algorithm;

    /// Compresses `input` at `level`. When it succeeds on an input the
    /// algorithm handles losslessly, decompressing the result gives the
    /// input back.
    fn compress(&self, input: &[u8], level: u8) -> (r: Result<Vec<u8>, String>)
        ensures
            bytes_view(r) == compress_outcome(self.algorithm(), input@, level),
            r matches Ok(c) ==> (lossless_for(self.algorithm(), input@) ==> yields(
                decompress_outcome(self.algorithm(), c@),
                input@,
            )),
    ;

    /// Decompresses `input`.
    fn decompress(&self, input: &[u8]) -> (r: Result<Vec<u8>, String>)
        ensures
            bytes_view(r) == decompress_outcome(self.algorithm(), input@),
    ;

    /// Decompress AND report how many input bytes the stream actually
    /// consumed. Default impl claims all input as consumed — providers
    /// whose underlying library exposes a "bytes read" counter (e.g.,
    /// flate2's `DeflateDecoder::total_in`) should override to report
    /// the true stream end so callers can recover trailing bytes
    /// (gzip trailer, next member, etc.) at the right offset.
    fn decompress_counted(&self, input: &[u8]) -> (r: Result<(Vec<u8>, u64), String>)
        ensures
            counted_view(r) == decompress_outcome(self.algorithm(), input@),
            r matches Ok((_v, n)) ==> n <= input@.len(),
        default_ensures
            r matches Ok((_v, n)) ==> n == input@.len(),
    {
        let out = self.decompress(input);
        match out {
            Ok(v) => Ok((v, input.len() as u64)),
            Err(e) => Err(e),
        }
    }
}

fn prefixed(prefix: &str, r: Result<Vec<u8>, String>) -> (out: Result<Vec<u8>, String>)
    ensures
        bytes_view(out) == with_prefix(prefix@, bytes_view(r)),
{
    match r {
        Ok(v) => Ok(v),
        Err(e) => Err(join2(prefix, e.as_str())),
    }
}

fn stage_prefixed(
    setup: &str,
    write: &str,
    finish: &str,
    r: Result<Vec<u8>, (EncodeStage, String)>,
) -> (out: Result<Vec<u8>, String>)
    ensures
        bytes_view(out) == with_stage_prefix(setup@, write@, finish@, staged_view(r)),
{
    match r {
        Ok(v) => Ok(v),
        Err((EncodeStage::Setup, e)) => Err(join2(setup, e.as_str())),
        Err((EncodeStage::Write, e)) => Err(join2(write, e.as_str())),
        Err((EncodeStage::Finish, e)) => Err(join2(finish, e.as_str())),
    }
}

/// Store provider (no compression, pass-through)
pub struct StoreProvider;

impl CompressionProvider for StoreProvider {
    open spec fn algorithm(&self) -> Algorithm {
        Algorithm::Store
    }

    fn compress(&self, input: &[u8], _level: u8) -> (r: Result<Vec<u8>, String>) {
        Ok(vstd::slice::slice_to_vec(input))
    }

    fn decompress(&self, input: &[u8]) -> (r: Result<Vec<u8>, String>) {
        Ok(vstd::slice::slice_to_vec(input))
    }
}

/// DEFLATE provider (RFC 1951)
pub struct DeflateProvider;

impl CompressionProvider for DeflateProvider {
    open spec fn algorithm(&self) -> Algorithm {
        Algorithm::Deflate
    }

    fn compress(&self, input: &[u8], level: u8) -> (r: Result<Vec<u8>, String>) {
        let level: u32 = if level <= 9 {
            level as u32
        } else {
            9
        };
        let encoded = deflate_encode(input, level);
        stage_prefixed(
            "DEFLATE compression failed: ",
            "DEFLATE compression failed: ",
            "DEFLATE finish failed: ",
            encoded,
        )
    }

    fn decompress(&self, input: &[u8]) -> (r: Result<Vec<u8>, String>) {
        prefixed("DEFLATE decompression failed: ", deflate_decode(input))
    }

    /// The count is flate2's `total_in`: where the DEFLATE stream ended, so
    /// that trailing bytes (a gzip trailer, a next member) can be found.
    fn decompress_counted(&self, input: &[u8]) -> (r: Result<(Vec<u8>, u64), String>)
        ensures
            r matches Ok((_v, n)) ==> deflate_decoding_counted(input@) matches Ok((_w, m)) && n
                == m,
    {
        match deflate_decode_counted(input) {
            Ok((v, n)) => Ok((v, n)),
            Err(e) => Err(join2("DEFLATE decompression failed: ", e.as_str())),
        }
    }
}

/// BZIP2 provider
pub struct Bzip2Provider;

impl CompressionProvider for Bzip2Provider {
    open spec fn algorithm(&self) -> Algorithm {
        Algorithm::Bzip2
    }

    fn compress(&self, input: &[u8], level: u8) -> (r: Result<Vec<u8>, String>) {
        let level: usize = if level == 0 {
            1
        } else if level <= 9 {
            level as usize
        } else {
            9
        };
        prefixed("BZIP2 compression failed: ", bzip2_encode(input, level))
    }

    fn decompress(&self, input: &[u8]) -> (r: Result<Vec<u8>, String>) {
        prefixed("BZIP2 decompression failed: ", bzip2_decode(input))
    }
}

/// LZMA provider.
///
/// Output container is `.xz` (RFC-7878 xz format) so the bytes interoperate
/// with `xz`/`tar -J`/Python stdlib `lzma.FORMAT_XZ` and `.tar.xz` tarballs.
/// Consumers get the LZMA codec for the price of an industry-standard
/// container.
pub struct LzmaProvider;

impl CompressionProvider for LzmaProvider {
    open spec fn algorithm(&self) -> Algorithm {
        Algorithm::Lzma
    }

    /// The output is an `.xz` container: it opens with the `.xz` magic bytes.
    fn compress(&self, input: &[u8], level: u8) -> (r: Result<Vec<u8>, String>)
        ensures
            r matches Ok(c) ==> c@.len() >= 6 && c@.take(6) == xz_magic(),
    {
        let preset: u32 = if level <= 9 {
            level as u32
        } else {
            9
        };
        let encoded = xz_encode(input, preset);
        stage_prefixed(
            "XZ encoder creation failed: ",
            "XZ compression failed: ",
            "XZ finish failed: ",
            encoded,
        )
    }

    fn decompress(&self, input: &[u8]) -> (r: Result<Vec<u8>, String>) {
        prefixed("XZ decompression failed: ", xz_decode(input))
    }
}

/// The four little-endian bytes of `n`.
pub fn le32_encode(n: u32) -> (r: Vec<u8>)
    ensures
        r@ == le32_bytes(n),
{
    let mut r: Vec<u8> = Vec::new();
    r.push((n % 256) as u8);
    r.push((n / 256 % 256) as u8);
    r.push((n / 65536 % 256) as u8);
    r.push((n / 16777216) as u8);
    assert(r@ =~= le32_bytes(n));
    r
}

/// The 32-bit number in the first four bytes of `b`, little-endian.
pub fn le32_decode(b: &[u8]) -> (n: u32)
    requires
        b@.len() >= 4,
    ensures
        n == le32_value(b@),
{
    let n: u32 = b[0] as u32 + 256 * (b[1] as u32) + 65536 * (b[2] as u32) + 16777216 * (
    b[3] as u32);
    n
}

/// LZ4 provider (extremely fast compression)
pub struct Lz4Provider;

impl CompressionProvider for Lz4Provider {
    open spec fn algorithm(&self) -> Algorithm {
        Algorithm::Lz4
    }

    /// LZ4 doesn't use compression levels; the uncompressed size is
    /// prepended for decompression.
    fn compress(&self, input: &[u8], _level: u8) -> (r: Result<Vec<u8>, String>) {
        let size: u32 = (input.len() as u64 % 0x1_0000_0000u64) as u32;
        let mut result = le32_encode(size);
        let mut block = lz4_compress_block(input);
        proof {
            lemma_le32_roundtrip(size);
        }
        let ghost header = result@;
        let ghost block_view = block@;
        result.append(&mut block);
        proof {
            assert(result@ =~= lz4_frame(input@));
            if input@.len() < 0x1_0000_0000 {
                assert(result@.skip(4) =~= block_view);
                assert(result@.subrange(0, 4) =~= header);
                assert(le32_value(result@) == le32_value(header));
                assert(le32_value(result@) == input@.len());
            }
        }
        Ok(result)
    }

    fn decompress(&self, input: &[u8]) -> (r: Result<Vec<u8>, String>) {
        if input.len() < 4 {
            return Err(String::from_str("LZ4 decompression failed: input too short"));
        }
        let size = le32_decode(input);
        let block = vstd::slice::slice_subrange(input, 4, input.len());
        assert(block@ =~= input@.skip(4));
        prefixed("LZ4 decompression failed: ", lz4_decompress_block(block, size as usize))
    }
}

/// Zstd provider (Zstandard compression).
pub struct ZstdProvider;

impl CompressionProvider for ZstdProvider {
    open spec fn algorithm(&self) -> Algorithm {
        Algorithm::Zstd
    }

    /// Zstd supports levels 1-22; the levels 0-9 map onto 1-19.
    fn compress(&self, input: &[u8], level: u8) -> (r: Result<Vec<u8>, String>) {
        let zstd_level: i32 = if level == 0 {
            1
        } else if level <= 8 {
            (level as i32) * 2
        } else {
            19
        };
        prefixed("Zstd compression failed: ", zstd_encode_all(input, zstd_level))
    }

    fn decompress(&self, input: &[u8]) -> (r: Result<Vec<u8>, String>) {
        prefixed("Zstd decompression failed: ", zstd_decode_all(input))
    }
}

/// OpenZL provider (Meta's format-aware compression).
///
/// OpenZL is a C library linked into WASM builds only. The calls into it are
/// made by the embedding; this type holds the decisions around them.
pub struct OpenZlProvider;

impl OpenZlProvider {
    /// The OpenZL compression level for a requested level: clamped to 0..=9.
    pub fn compression_level(level: u8) -> (r: i32)
        ensures
            r == (if level <= 9 {
                level as i32
            } else {
                9
            }),
            0 <= r <= 9,
    {
        if level <= 9 {
            level as i32
        } else {
            9
        }
    }
}

/// What `get_provider` answers for an algorithm: the error for OpenZL, which
/// is only built for WASM, and a provider of the algorithm otherwise.
pub open spec fn provider_available(alg: Algorithm) -> bool {
    alg != Algorithm::Openzl
}

/// Get provider for algorithm
pub fn get_provider(algorithm: Algorithm) -> (r: Result<Box<dyn CompressionProvider>, String>)
    ensures
        r is Ok <==> provider_available(algorithm),
        r matches Ok(p) ==> p.algorithm() == algorithm,
        r matches Err(e) ==> e@ == openzl_unavailable(),
{
    match algorithm {
        Algorithm::Store => Ok(Box::new(StoreProvider)),
        Algorithm::Deflate => Ok(Box::new(DeflateProvider)),
        Algorithm::Bzip2 => Ok(Box::new(Bzip2Provider)),
        Algorithm::Lzma => Ok(Box::new(LzmaProvider)),
        Algorithm::Zstd => Ok(Box::new(ZstdProvider)),
        Algorithm::Lz4 => Ok(Box::new(Lz4Provider)),
        Algorithm::Openzl => Err(String::from_str("OpenZL is only available on WASM targets")),
    }
}

/// The description of an algorithm.
pub open spec fn description(algorithm: Algorithm) -> Seq<char> {
    match algorithm {
        Algorithm::Store => "Store: No compression (pass-through)"@,
        Algorithm::Deflate => "DEFLATE: Fast general-purpose compression (RFC 1951), used in ZIP, GZIP, PNG"@,
        Algorithm::Bzip2 => "BZIP2: High compression ratio, good for repetitive data"@,
        Algorithm::Lzma => "LZMA: Excellent compression ratio, used in 7-Zip and XZ"@,
        Algorithm::Zstd => "Zstandard: Modern fast compression with excellent ratio, used in Linux kernel and databases"@,
        Algorithm::Lz4 => "LZ4: Extremely fast compression and decompression, ideal for real-time applications"@,
        Algorithm::Openzl => "OpenZL: Meta's format-aware compression, excellent for structured data (JSON, XML, Protobuf)"@,
    }
}

/// Get algorithm information
pub fn algorithm_description(algorithm: Algorithm) -> (r: Option<String>)
    ensures
        r is Some,
        r matches Some(s) ==> s@ == description(algorithm),
{
    match algorithm {
        Algorithm::Store => Some(String::from_str("Store: No compression (pass-through)")),
        Algorithm::Deflate => Some(String::from_str("DEFLATE: Fast general-purpose compression (RFC 1951), used in ZIP, GZIP, PNG")),
        Algorithm::Bzip2 => Some(String::from_str("BZIP2: High compression ratio, good for repetitive data")),
        Algorithm::Lzma => Some(String::from_str("LZMA: Excellent compression ratio, used in 7-Zip and XZ")),
        Algorithm::Zstd => Some(String::from_str("Zstandard: Modern fast compression with excellent ratio, used in Linux kernel and databases")),
        Algorithm::Lz4 => Some(String::from_str("LZ4: Extremely fast compression and decompression, ideal for real-time applications")),
        Algorithm::Openzl => Some(String::from_str("OpenZL: Meta's format-aware compression, excellent for structured data (JSON, XML, Protobuf)")),
    }
}

/// The algorithms this build supports, in order: every algorithm but
/// OpenZL, which is only built for WASM.
pub open spec fn supported() -> Seq<Algorithm> {
    seq![
        Algorithm::Store,
        Algorithm::Deflate,
        Algorithm::Bzip2,
        Algorithm::Lzma,
        Algorithm::Zstd,
        Algorithm::Lz4,
    ]
}

/// Get list of supported algorithms
pub fn supported_algorithms() -> (r: Vec<Algorithm>)
    ensures
        r@ == supported(),
{
    let mut v: Vec<Algorithm> = Vec::new();
    v.push(Algorithm::Store);
    v.push(Algorithm::Deflate);
    v.push(Algorithm::Bzip2);
    v.push(Algorithm::Lzma);
    v.push(Algorithm::Zstd);
    v.push(Algorithm::Lz4);
    assert(v@ =~= supported());
    v
}

/// An algorithm is listed as supported exactly when `get_provider` gives a
/// provider for it.
pub proof fn lemma_supported_iff_available(algorithm: Algorithm)
    ensures
        supported().contains(algorithm) <==> provider_available(algorithm),
{
    if provider_available(algorithm) {
        let i: int = match algorithm {
            Algorithm::Store => 0,
            Algorithm::Deflate => 1,
            Algorithm::Bzip2 => 2,
            Algorithm::Lzma => 3,
            Algorithm::Zstd => 4,
            Algorithm::Lz4 => 5,
            Algorithm::Openzl => 0,
        };
        assert(supported()[i] == algorithm);
    }
}

} // verus!
