//! Compression dispatcher: compressor and decompressor objects that route
//! each request to the provider of the algorithm they were made for.

use vstd::prelude::*;
use crate::codecs::{
    EncodeStage, bytes_view, yields, deflate_encoding, deflate_decoding, bzip2_encoding, bzip2_decoding,
    xz_encoding, xz_decoding, zstd_stream_encoding, zstd_stream_decoding, lz4_block_encoding,
    lz4_block_decoding,
};
use crate::providers::{
    Algorithm, CompressionProvider, get_provider, algorithm_description, supported_algorithms,
    compress_outcome, decompress_outcome, description, supported, openzl_unavailable, lossless_for,
    le32_bytes, le32_value,
};
use crate::text::{decimal, decimal_u64, join3};

verus! {

/// The error of a compressor made with a level above 9.
pub open spec fn invalid_level_message(level: u8) -> Seq<char> {
    "Invalid compression level: "@ + decimal(level as nat) + ". Must be 0-9."@
}

/// What a compressor made for an algorithm and a level answers to a
/// request: the level's error when it is above 9, else the algorithm's
/// compression at that level (the unavailability error for OpenZL).
pub open spec fn compressor_outcome(algorithm: Algorithm, level: u8, input: Seq<u8>) -> Result<
    Seq<u8>,
    Seq<char>,
> {
    if level > 9 {
        Err(invalid_level_message(level))
    } else {
        compress_outcome(algorithm, input, level)
    }
}

/// Compressor resource implementation
pub struct Compressor {
    provider: Option<Box<dyn CompressionProvider>>,
    level: u8,
    error: Option<String>,
    algorithm: Ghost<Algorithm>,
}

impl Compressor {
    /// The compressor's fields agree: an error for a bad level or for an
    /// algorithm without provider, else the algorithm's provider.
    #[verifier::type_invariant]
    spec fn consistent(self) -> bool {
        if self.level > 9 {
            &&& self.provider is None
            &&& self.error matches Some(e) && e@ == invalid_level_message(self.level)
        } else if self.algorithm@ == Algorithm::Openzl {
            &&& self.provider is None
            &&& self.error matches Some(e) && e@ == openzl_unavailable()
        } else {
            &&& self.error is None
            &&& self.provider matches Some(p) && p.algorithm() == self.algorithm@
        }
    }

    /// The algorithm this compressor was made for.
    pub closed spec fn algorithm(&self) -> Algorithm {
        self.algorithm@
    }

    /// The level this compressor was made with.
    pub closed spec fn level(&self) -> u8 {
        self.level
    }

    /// Makes a compressor for an algorithm and a level (0-9). A level above
    /// 9, or an algorithm without a provider, makes a compressor whose every
    /// request fails with that error.
    pub fn new(algorithm: Algorithm, level: u8) -> (c: Self)
        ensures
            c.algorithm() == algorithm,
            c.level() == level,
    {
        if level > 9 {
            let digits = decimal_u64(level as u64);
            return Compressor {
                provider: None,
                level,
                error: Some(join3("Invalid compression level: ", digits.as_str(), ". Must be 0-9.")),
                algorithm: Ghost(algorithm),
            };
        }
        let found = get_provider(algorithm);
        match found {
            Ok(provider) => {
                assert(provider.algorithm() == algorithm);
                let provider = Some(provider);
                assert(provider matches Some(p) && p.algorithm() == algorithm);
                Compressor {
                    provider,
                    level,
                    error: None,
                    algorithm: Ghost(algorithm),
                }
            },
            Err(e) => Compressor { provider: None, level, error: Some(e), algorithm: Ghost(algorithm) },
        }
    }

    /// Compresses `input` with the compressor's algorithm and level.
    pub fn compress(&self, input: Vec<u8>) -> (r: Result<Vec<u8>, String>)
        ensures
            bytes_view(r) == compressor_outcome(self.algorithm(), self.level(), input@),
            self.level() <= 9 ==> bytes_view(r) == compress_outcome(self.algorithm(), input@, self.level()),
            self.level() > 9 ==> bytes_view(r) == Err::<Seq<u8>, Seq<char>>(invalid_level_message(self.level())),
            r matches Ok(c) ==> (lossless_for(self.algorithm(), input@) ==> yields(
                decompressor_outcome(self.algorithm(), c@),
                input@,
            )),
    {
        proof {
            use_type_invariant(self);
        }
        if let Some(error) = &self.error {
            return Err(error.clone());
        }
        match &self.provider {
            Some(provider) => provider.compress(input.as_slice(), self.level),
            None => Err(String::new()),
        }
    }
}

/// What a decompressor made for an algorithm answers to a request.
pub open spec fn decompressor_outcome(algorithm: Algorithm, input: Seq<u8>) -> Result<
    Seq<u8>,
    Seq<char>,
> {
    decompress_outcome(algorithm, input)
}

/// Decompressor resource implementation
pub struct Decompressor {
    provider: Option<Box<dyn CompressionProvider>>,
    error: Option<String>,
    algorithm: Ghost<Algorithm>,
}

impl Decompressor {
    /// The decompressor's fields agree: an error for an algorithm without
    /// provider, else the algorithm's provider.
    #[verifier::type_invariant]
    spec fn consistent(self) -> bool {
        if self.algorithm@ == Algorithm::Openzl {
            &&& self.provider is None
            &&& self.error matches Some(e) && e@ == openzl_unavailable()
        } else {
            &&& self.error is None
            &&& self.provider matches Some(p) && p.algorithm() == self.algorithm@
        }
    }

    /// The algorithm this decompressor was made for.
    pub closed spec fn algorithm(&self) -> Algorithm {
        self.algorithm@
    }

    /// Makes a decompressor for an algorithm. An algorithm without a
    /// provider makes a decompressor whose every request fails with that
    /// error.
    pub fn new(algorithm: Algorithm) -> (d: Self)
        ensures
            d.algorithm() == algorithm,
    {
        match get_provider(algorithm) {
            Ok(provider) => {
                let provider = Some(provider);
                assert(provider matches Some(p) && p.algorithm() == algorithm);
                Decompressor { provider, error: None, algorithm: Ghost(algorithm) }
            },
            Err(e) => Decompressor { provider: None, error: Some(e), algorithm: Ghost(algorithm) },
        }
    }

    /// Decompresses `input` with the decompressor's algorithm.
    pub fn decompress(&self, input: Vec<u8>) -> (r: Result<Vec<u8>, String>)
        ensures
            bytes_view(r) == decompressor_outcome(self.algorithm(), input@),
            bytes_view(r) == decompress_outcome(self.algorithm(), input@),
    {
        proof {
            use_type_invariant(self);
        }
        if let Some(error) = &self.error {
            return Err(error.clone());
        }
        match &self.provider {
            Some(provider) => provider.decompress(input.as_slice()),
            None => Err(String::new()),
        }
    }
}

/// Multiplexer implementation (the dispatcher's free functions)
pub struct MultiplexerImpl;

impl MultiplexerImpl {
    /// The algorithms that can be used.
    pub fn supported_algorithms() -> (r: Vec<Algorithm>)
        ensures
            r@ == supported(),
    {
        supported_algorithms()
    }

    /// The description of an algorithm.
    pub fn algorithm_info(algo: Algorithm) -> (r: Option<String>)
        ensures
            r matches Some(s) && s@ == description(algo),
    {
        algorithm_description(algo)
    }
}

/// A compressor made with a level above 9 rejects every request, whatever
/// the algorithm, with the invalid-level error.
pub proof fn lemma_invalid_level_rejected(algorithm: Algorithm, level: u8, input: Seq<u8>)
    requires
        level > 9,
    ensures
        compressor_outcome(algorithm, level, input) == Err::<Seq<u8>, Seq<char>>(
            invalid_level_message(level),
        ),
{
}

/// Store passes data through unchanged in both directions, at every level.
pub proof fn lemma_store_passthrough(level: u8, input: Seq<u8>)
    requires
        level <= 9,
    ensures
        compressor_outcome(Algorithm::Store, level, input) == Ok::<Seq<u8>, Seq<char>>(input),
        decompressor_outcome(Algorithm::Store, input) == Ok::<Seq<u8>, Seq<char>>(input),
{
}

/// OpenZL requests fail in both directions with the unavailability error
/// (at a valid level).
pub proof fn lemma_openzl_unavailable(level: u8, input: Seq<u8>)
    requires
        level <= 9,
    ensures
        compressor_outcome(Algorithm::Openzl, level, input) == Err::<Seq<u8>, Seq<char>>(
            openzl_unavailable(),
        ),
        decompressor_outcome(Algorithm::Openzl, input) == Err::<Seq<u8>, Seq<char>>(
            openzl_unavailable(),
        ),
{
}

/// A compressor with a valid level answers exactly what its algorithm's
/// provider answers at that same level, on the input as given; a
/// decompressor answers exactly what its algorithm's decompression answers on
/// the input as given.
pub proof fn lemma_dispatch_is_the_provider(algorithm: Algorithm, level: u8, input: Seq<u8>)
    ensures
        level <= 9 ==> compressor_outcome(algorithm, level, input) == compress_outcome(algorithm, input, level),
        decompressor_outcome(algorithm, input) == decompress_outcome(algorithm, input),
{
}

/// A compressor with a valid level hands the input, unchanged, to its codec
/// at that level: DEFLATE and xz at the level itself, bzip2 at the level
/// (0 taken as 1), zstd at 1 for 0, twice the level for 1 to 8 and 19 for
/// 9; Store gives the input back and LZ4 puts the input's length before the
/// codec's block. What it answers on success is the codec's output.
pub proof fn lemma_compressor_feeds_codec(level: u8, input: Seq<u8>)
    requires
        level <= 9,
    ensures
        compressor_outcome(Algorithm::Store, level, input) == Ok::<Seq<u8>, Seq<char>>(input),
        (compressor_outcome(Algorithm::Deflate, level, input) is Ok) == (deflate_encoding(input, level as u32) is Ok),
        compressor_outcome(Algorithm::Deflate, level, input) matches Ok(c) ==> deflate_encoding(input, level as u32)
            == Ok::<Seq<u8>, (EncodeStage, Seq<char>)>(c),
        (compressor_outcome(Algorithm::Lzma, level, input) is Ok) == (xz_encoding(input, level as u32) is Ok),
        compressor_outcome(Algorithm::Lzma, level, input) matches Ok(c) ==> xz_encoding(input, level as u32)
            == Ok::<Seq<u8>, (EncodeStage, Seq<char>)>(c),
        (compressor_outcome(Algorithm::Bzip2, level, input) is Ok) == (bzip2_encoding(
            input,
            if level == 0 {
                1usize
            } else {
                level as usize
            },
        ) is Ok),
        compressor_outcome(Algorithm::Bzip2, level, input) matches Ok(c) ==> bzip2_encoding(
            input,
            if level == 0 {
                1usize
            } else {
                level as usize
            },
        ) == Ok::<Seq<u8>, Seq<char>>(c),
        (compressor_outcome(Algorithm::Zstd, level, input) is Ok) == (zstd_stream_encoding(
            input,
            if level == 0 {
                1i32
            } else if level <= 8 {
                (2 * level) as i32
            } else {
                19i32
            },
        ) is Ok),
        compressor_outcome(Algorithm::Zstd, level, input) matches Ok(c) ==> zstd_stream_encoding(
            input,
            if level == 0 {
                1i32
            } else if level <= 8 {
                (2 * level) as i32
            } else {
                19i32
            },
        ) == Ok::<Seq<u8>, Seq<char>>(c),
        compressor_outcome(Algorithm::Lz4, level, input) == Ok::<Seq<u8>, Seq<char>>(
            le32_bytes((input.len() % 0x1_0000_0000) as u32) + lz4_block_encoding(input),
        ),
{
}

/// A decompressor hands the input, unchanged, to its codec, and what it
/// answers on success is the codec's output: Store gives the input back,
/// and LZ4 reads the length from the first four bytes and decodes the rest.
pub proof fn lemma_decompressor_feeds_codec(input: Seq<u8>)
    ensures
        decompressor_outcome(Algorithm::Store, input) == Ok::<Seq<u8>, Seq<char>>(input),
        (decompressor_outcome(Algorithm::Deflate, input) is Ok) == (deflate_decoding(input) is Ok),
        decompressor_outcome(Algorithm::Deflate, input) matches Ok(v) ==> deflate_decoding(input) == Ok::<
            Seq<u8>,
            Seq<char>,
        >(v),
        (decompressor_outcome(Algorithm::Bzip2, input) is Ok) == (bzip2_decoding(input) is Ok),
        decompressor_outcome(Algorithm::Bzip2, input) matches Ok(v) ==> bzip2_decoding(input) == Ok::<
            Seq<u8>,
            Seq<char>,
        >(v),
        (decompressor_outcome(Algorithm::Lzma, input) is Ok) == (xz_decoding(input) is Ok),
        decompressor_outcome(Algorithm::Lzma, input) matches Ok(v) ==> xz_decoding(input) == Ok::<
            Seq<u8>,
            Seq<char>,
        >(v),
        (decompressor_outcome(Algorithm::Zstd, input) is Ok) == (zstd_stream_decoding(input) is Ok),
        decompressor_outcome(Algorithm::Zstd, input) matches Ok(v) ==> zstd_stream_decoding(input) == Ok::<
            Seq<u8>,
            Seq<char>,
        >(v),
        decompressor_outcome(Algorithm::Lz4, input) matches Ok(v) ==> (input.len() >= 4 && lz4_block_decoding(
            input.skip(4),
            le32_value(input) as usize,
        ) == Ok::<Seq<u8>, Seq<char>>(v)),
{
}

/// Each description starts with the name of its own algorithm.
pub proof fn lemma_descriptions_name_their_algorithm()
    ensures
        description(Algorithm::Store).len() >= 7 && description(Algorithm::Store).subrange(0, 7) == "Store: "@,
        description(Algorithm::Deflate).len() >= 9 && description(Algorithm::Deflate).subrange(0, 9)
            == "DEFLATE: "@,
        description(Algorithm::Bzip2).len() >= 7 && description(Algorithm::Bzip2).subrange(0, 7) == "BZIP2: "@,
        description(Algorithm::Lzma).len() >= 6 && description(Algorithm::Lzma).subrange(0, 6) == "LZMA: "@,
        description(Algorithm::Zstd).len() >= 11 && description(Algorithm::Zstd).subrange(0, 11)
            == "Zstandard: "@,
        description(Algorithm::Lz4).len() >= 5 && description(Algorithm::Lz4).subrange(0, 5) == "LZ4: "@,
        description(Algorithm::Openzl).len() >= 8 && description(Algorithm::Openzl).subrange(0, 8)
            == "OpenZL: "@,
{
    reveal_strlit("Store: No compression (pass-through)");
    reveal_strlit("Store: ");
    reveal_strlit("DEFLATE: Fast general-purpose compression (RFC 1951), used in ZIP, GZIP, PNG");
    reveal_strlit("DEFLATE: ");
    reveal_strlit("BZIP2: High compression ratio, good for repetitive data");
    reveal_strlit("BZIP2: ");
    reveal_strlit("LZMA: Excellent compression ratio, used in 7-Zip and XZ");
    reveal_strlit("LZMA: ");
    reveal_strlit("Zstandard: Modern fast compression with excellent ratio, used in Linux kernel and databases");
    reveal_strlit("Zstandard: ");
    reveal_strlit("LZ4: Extremely fast compression and decompression, ideal for real-time applications");
    reveal_strlit("LZ4: ");
    reveal_strlit("OpenZL: Meta's format-aware compression, excellent for structured data (JSON, XML, Protobuf)");
    reveal_strlit("OpenZL: ");
    assert(description(Algorithm::Store).subrange(0, 7) =~= "Store: "@);
    assert(description(Algorithm::Deflate).subrange(0, 9) =~= "DEFLATE: "@);
    assert(description(Algorithm::Bzip2).subrange(0, 7) =~= "BZIP2: "@);
    assert(description(Algorithm::Lzma).subrange(0, 6) =~= "LZMA: "@);
    assert(description(Algorithm::Zstd).subrange(0, 11) =~= "Zstandard: "@);
    assert(description(Algorithm::Lz4).subrange(0, 5) =~= "LZ4: "@);
    assert(description(Algorithm::Openzl).subrange(0, 8) =~= "OpenZL: "@);
}

} // verus!
