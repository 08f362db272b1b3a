//! Zstd extras: dictionary-aware compress/decompress, dictionary training,
//! frame queries, and the raw libzstd parameters given as `(id, value)`
//! pairs (whose runs are in `zstd_advanced`). Dictionary semantics don't
//! generalize across the other algorithms, so they live here rather than in
//! the providers.

use vstd::prelude::*;
use crate::codecs::{EncodeStage, bytes_view, yields};
use crate::dispatcher::MultiplexerImpl;
use crate::text::{decimal, decimal_u64, join2, join3};
use crate::zstd_ctx::{
    ContentSize, zstd_error_text, zstd_content_size, zstd_frame_compressed_size, dictionary_id_of,
    zstd_trained_dictionary, zstd_dictionary_encoding, zstd_dictionary_decoding, staged_yields, zstd_error_name,
    zstd_frame_content_size, zstd_find_frame_compressed_size, zstd_get_dict_id, zstd_train_from_samples,
    zstd_compress_with_dictionary, zstd_decompress_with_dictionary,
};
use vstd::string::*;

verus! {

// ---------------------------------------------------------------------------
// Dictionaries
// ---------------------------------------------------------------------------

/// A zstd dictionary, wrapping the raw bytes.
pub struct ZstdDict {
    bytes: Vec<u8>,
}

impl View for ZstdDict {
    type V = Seq<u8>;

    closed spec fn view(&self) -> Seq<u8> {
        self.bytes@
    }
}


impl ZstdDict {
    /// Wraps dictionary bytes.
    pub fn new(bytes: Vec<u8>) -> (d: Self)
        ensures
            d@ == bytes@,
    {
        ZstdDict { bytes }
    }

    /// The dictionary ID from the dictionary header; 0 for raw-content
    /// dictionaries that don't embed an ID.
    pub fn id(&self) -> (r: u32)
        ensures
            r == dictionary_id_of(self@),
    {
        match zstd_get_dict_id(self.bytes.as_slice()) {
            Some(n) => n,
            None => 0,
        }
    }

    /// A copy of the dictionary's bytes.
    pub fn as_bytes(&self) -> (r: Vec<u8>)
        ensures
            r@ == self@,
    {
        vstd::slice::slice_to_vec(self.bytes.as_slice())
    }
}

// ---------------------------------------------------------------------------
// Output capacity for one-shot decompression
// ---------------------------------------------------------------------------

/// The most that one-shot decompression reserves: 64 MiB.
pub open spec fn capacity_ceiling() -> usize {
    67108864
}

/// The output buffer size for one-shot decompression of `input`: the
/// content size the frame records, capped at 64 MiB; when the frame records
/// none, 20 times the input's length (saturating), capped at 64 MiB and at
/// least 64 KiB; and 4096 for an input that is no zstd frame, so that the
/// decompression itself reports the error.
pub open spec fn capacity_for(input: Seq<u8>) -> usize {
    match zstd_content_size(input) {
        ContentSize::Known(n) => if n <= capacity_ceiling() {
            n as usize
        } else {
            capacity_ceiling()
        },
        ContentSize::Unknown => {
            let estimate: int = if input.len() * 20 <= usize::MAX {
                (input.len() * 20) as int
            } else {
                usize::MAX as int
            };
            if estimate <= 65536 {
                65536
            } else if estimate <= capacity_ceiling() {
                estimate as usize
            } else {
                capacity_ceiling()
            }
        },
        ContentSize::Invalid => 4096,
    }
}

/// The capacity is never above 64 MiB, and it covers a recorded content
/// size that is within that ceiling.
pub proof fn lemma_capacity_bounded(input: Seq<u8>)
    ensures
        capacity_for(input) <= capacity_ceiling(),
        zstd_content_size(input) matches ContentSize::Known(n) ==> (n <= capacity_ceiling() ==> capacity_for(input) == n),
{
}

/// The output capacity by what the frame header says: a recorded content
/// size is used as it is, up to 64 MiB; for a frame that records none, 20
/// times the input's length, but never less than 64 KiB nor more than 64
/// MiB; for an input that is no zstd frame, 4096 bytes.
pub proof fn lemma_capacity_by_header(input: Seq<u8>)
    ensures
        zstd_content_size(input) matches ContentSize::Known(n) ==> capacity_for(input) == (if n
            <= 67108864 {
            n as int
        } else {
            67108864int
        }),
        zstd_content_size(input) == ContentSize::Unknown ==> {
            let estimate: int = if 20 * input.len() <= 67108864 {
                (20 * input.len()) as int
            } else {
                67108864int
            };
            capacity_for(input) == (if estimate <= 65536 {
                65536int
            } else {
                estimate
            })
        },
        zstd_content_size(input) == ContentSize::Unknown ==> capacity_for(input) >= 65536,
        zstd_content_size(input) == ContentSize::Unknown && 20 * input.len() <= 67108864 ==> capacity_for(input)
            >= 20 * input.len(),
        zstd_content_size(input) == ContentSize::Invalid ==> capacity_for(input) == 4096,
{
}

/// Pick an output buffer size for one-shot decompress, from the frame
/// header (`get_frame_content_size`).
pub fn decompress_capacity(input: &[u8]) -> (r: usize)
    ensures
        r == capacity_for(input@),
{
    let cap: usize = 64 * 1024 * 1024;
    match zstd_frame_content_size(input) {
        ContentSize::Known(n) => if n <= cap as u64 {
            n as usize
        } else {
            cap
        },
        ContentSize::Unknown => {
            let estimate: usize = if input.len() <= usize::MAX / 20 {
                input.len() * 20
            } else {
                usize::MAX
            };
            if estimate <= 64 * 1024 {
                64 * 1024
            } else if estimate <= cap {
                estimate
            } else {
                cap
            }
        },
        ContentSize::Invalid => 4096,
    }
}

// ---------------------------------------------------------------------------
// Raw parameters
// ---------------------------------------------------------------------------

/// A raw zstd parameter: libzstd's parameter number and its value.
#[derive(Debug, Clone, Copy, PartialEq, Eq, Structural)]
pub struct ZstdParam {
    pub id: i32,
    pub value: i32,
}

// ---------------------------------------------------------------------------
// Dictionary compression and training
// ---------------------------------------------------------------------------

/// What compressing with a dictionary answers.
pub open spec fn dict_compression(input: Seq<u8>, dict: Seq<u8>, level: i32) -> Result<
    Seq<u8>,
    Seq<char>,
> {
    match zstd_dictionary_encoding(input, level, dict) {
        Ok(v) => Ok(v),
        Err((EncodeStage::Setup, e)) => Err("zstd compressor (with-dict) init failed: "@ + e),
        Err((_, e)) => Err("zstd compress-with-dict failed: "@ + e),
    }
}

/// What decompressing with a dictionary answers.
pub open spec fn dict_decompression(input: Seq<u8>, dict: Seq<u8>) -> Result<Seq<u8>, Seq<char>> {
    match zstd_dictionary_decoding(input, dict, capacity_for(input)) {
        Ok(v) => Ok(v),
        Err((EncodeStage::Setup, e)) => Err("zstd decompressor (with-dict) init failed: "@ + e),
        Err((_, e)) => Err("zstd decompress-with-dict failed: "@ + e),
    }
}

/// What training a dictionary answers.
pub open spec fn dict_training(samples: Seq<Seq<u8>>, dict_size: u32) -> Result<Seq<u8>, Seq<char>> {
    if samples.len() == 0 {
        Err("train-dict: no samples provided"@)
    } else {
        match zstd_trained_dictionary(samples, dict_size as usize) {
            Ok(v) => Ok(v),
            Err(e) => Err("zstd train-dict failed: "@ + e),
        }
    }
}

/// All samples one after the other.
pub open spec fn concatenation(samples: Seq<Seq<u8>>) -> Seq<u8>
    decreases samples.len(),
{
    if samples.len() == 0 {
        Seq::empty()
    } else {
        concatenation(samples.drop_last()) + samples.last()
    }
}

/// The error for a finalization target smaller than the content.
pub open spec fn dict_size_too_small(dict_size: u32, content_len: nat) -> Seq<char> {
    "finalize-dict: dict_size ("@ + decimal(dict_size as nat) + ") must be >= dict_content size ("@
        + decimal(content_len) + ")"@
}

/// What the preparation of a dictionary finalization answers: an error for
/// no samples or for a target smaller than the content, else the samples
/// concatenated and their sizes.
pub open spec fn finalize_preparation(dict_content: Seq<u8>, samples: Seq<Seq<u8>>, dict_size: u32) -> Result<
    (Seq<u8>, Seq<usize>),
    Seq<char>,
> {
    if samples.len() == 0 {
        Err("finalize-dict: no samples provided"@)
    } else if (dict_size as int) < dict_content.len() {
        Err(dict_size_too_small(dict_size, dict_content.len()))
    } else {
        Ok((concatenation(samples), samples.map_values(|s: Seq<u8>| s.len() as usize)))
    }
}

/// What a dictionary finalization answers from what libzstd returned: the
/// error's name, or the buffer cut to the returned size.
pub open spec fn finalize_result(dst: Seq<u8>, code: usize, failed: bool) -> Result<Seq<u8>, Seq<char>> {
    if failed {
        Err("finalize-dict failed: "@ + zstd_error_text(code))
    } else if code < dst.len() {
        Ok(dst.take(code as int))
    } else {
        Ok(dst)
    }
}

/// A dictionary compression succeeds on an input of at most 64 MiB only
/// with a frame that decompresses with the same dictionary to the input.
pub open spec fn dict_roundtrips(input: Seq<u8>, dict: Seq<u8>, compressed: Seq<u8>) -> bool {
    input.len() <= capacity_ceiling() ==> yields(dict_decompression(compressed, dict), input)
}

/// The settings of a dictionary finalization, as libzstd's
/// `ZDICT_params_t` holds them.
#[derive(Debug, Clone, Copy, PartialEq, Eq, Structural)]
pub struct FinalizeSettings {
    pub compression_level: i32,
    pub notification_level: u32,
    pub dict_id: u32,
}

/// Compressing and decompressing with a dictionary is zstd's dictionary
/// encoding and decoding with that very dictionary: the answer succeeds
/// exactly when zstd's does, with zstd's bytes; and a compression of at most
/// 64 MiB decompresses, with the same dictionary, to its input.
pub proof fn lemma_dictionary_is_used(input: Seq<u8>, dict: Seq<u8>, level: i32)
    ensures
        (dict_compression(input, dict, level) is Ok) == (zstd_dictionary_encoding(input, level, dict) is Ok),
        dict_compression(input, dict, level) matches Ok(c) ==> zstd_dictionary_encoding(input, level, dict)
            == Ok::<Seq<u8>, (EncodeStage, Seq<char>)>(c),
        (dict_decompression(input, dict) is Ok) == (zstd_dictionary_decoding(input, dict, capacity_for(input)) is Ok),
        dict_decompression(input, dict) matches Ok(v) ==> zstd_dictionary_decoding(input, dict, capacity_for(input))
            == Ok::<Seq<u8>, (EncodeStage, Seq<char>)>(v),
{
}

impl MultiplexerImpl {
    /// Compresses with a dictionary (`zstd::bulk::Compressor`). Decompressing
    /// the result with the same dictionary gives the input back, for inputs
    /// of at most 64 MiB (the most that decompression reserves).
    pub fn compress_with_dict(input: Vec<u8>, dict: &ZstdDict, level: i32) -> (r: Result<Vec<u8>, String>)
        ensures
            bytes_view(r) == dict_compression(input@, dict@, level),
            (r is Ok) == (zstd_dictionary_encoding(input@, level, dict@) is Ok),
            r matches Ok(c) ==> zstd_dictionary_encoding(input@, level, dict@) == Ok::<
                Seq<u8>,
                (EncodeStage, Seq<char>),
            >(c@),
            r matches Ok(c) ==> (input@.len() <= capacity_ceiling() ==> staged_yields(
                zstd_dictionary_decoding(c@, dict@, capacity_for(c@)),
                input@,
            )),
            r matches Ok(c) ==> dict_roundtrips(input@, dict@, c@),
    {
        let result = zstd_compress_with_dictionary(input.as_slice(), level, dict.bytes.as_slice());
        match result {
            Ok(c) => {
                proof {
                    if input@.len() <= capacity_ceiling() {
                        assert(capacity_for(c@) == input@.len());
                        assert(staged_yields(zstd_dictionary_decoding(c@, dict@, capacity_for(c@)), input@));
                    }
                }
                Ok(c)
            },
            Err((EncodeStage::Setup, e)) => Err(join2("zstd compressor (with-dict) init failed: ", e.as_str())),
            Err((_, e)) => Err(join2("zstd compress-with-dict failed: ", e.as_str())),
        }
    }

    /// Decompresses with a dictionary (`zstd::bulk::Decompressor`), into a
    /// buffer sized from the frame header (`decompress_capacity`).
    pub fn decompress_with_dict(input: Vec<u8>, dict: &ZstdDict) -> (r: Result<Vec<u8>, String>)
        ensures
            bytes_view(r) == dict_decompression(input@, dict@),
            (r is Ok) == (zstd_dictionary_decoding(input@, dict@, capacity_for(input@)) is Ok),
            r matches Ok(v) ==> zstd_dictionary_decoding(input@, dict@, capacity_for(input@)) == Ok::<
                Seq<u8>,
                (EncodeStage, Seq<char>),
            >(v@),
    {
        let cap = decompress_capacity(input.as_slice());
        match zstd_decompress_with_dictionary(input.as_slice(), dict.bytes.as_slice(), cap) {
            Ok(v) => Ok(v),
            Err((EncodeStage::Setup, e)) => Err(join2("zstd decompressor (with-dict) init failed: ", e.as_str())),
            Err((_, e)) => Err(join2("zstd decompress-with-dict failed: ", e.as_str())),
        }
    }

    /// Trains a dictionary of at most `dict_size` bytes from samples.
    pub fn train_dict(samples: Vec<Vec<u8>>, dict_size: u32) -> (r: Result<Vec<u8>, String>)
        ensures
            bytes_view(r) == dict_training(samples.deep_view(), dict_size),
    {
        if samples.len() == 0 {
            return Err(String::from_str("train-dict: no samples provided"));
        }
        let trained = zstd_train_from_samples(&samples, dict_size as usize);
        match trained {
            Ok(v) => Ok(v),
            Err(e) => Err(join2("zstd train-dict failed: ", e.as_str())),
        }
    }

    /// Checks the request of a dictionary finalization
    /// (`ZDICT_finalizeDictionary`) and lays out its samples: an error for
    /// no samples or for a `dict_size` smaller than the content, else the
    /// samples concatenated and the size of each.
    pub fn finalize_dict_inputs(dict_content: &Vec<u8>, samples: &Vec<Vec<u8>>, dict_size: u32) -> (r: Result<
        (Vec<u8>, Vec<usize>),
        String,
    >)
        requires
            concatenation(samples.deep_view()).len() <= usize::MAX,
        ensures
            match finalize_preparation(dict_content@, samples.deep_view(), dict_size) {
                Ok((buffer, sizes)) => r matches Ok((b, z)) && b@ == buffer && z@ == sizes,
                Err(e) => r matches Err(s) && s@ == e,
            },
    {
        if samples.len() == 0 {
            return Err(String::from_str("finalize-dict: no samples provided"));
        }
        if (dict_size as u64) < (dict_content.len() as u64) {
            let size_text = decimal_u64(dict_size as u64);
            let content_text = decimal_u64(dict_content.len() as u64);
            let mut s = join3("finalize-dict: dict_size (", size_text.as_str(), ") must be >= dict_content size (");
            s.append(content_text.as_str());
            s.append(")");
            return Err(s);
        }
        let ghost all = samples.deep_view();
        let mut buffer: Vec<u8> = Vec::new();
        let mut sizes: Vec<usize> = Vec::new();
        let mut i: usize = 0;
        while i < samples.len()
            invariant
                0 <= i <= samples@.len(),
                all == samples.deep_view(),
                concatenation(all).len() <= usize::MAX,
                buffer@ == concatenation(all.take(i as int)),
                sizes@ == all.take(i as int).map_values(|s: Seq<u8>| s.len() as usize),
            decreases samples@.len() - i,
        {
            let sample = &samples[i];
            assert(all.take(i + 1).drop_last() =~= all.take(i as int));
            assert(all.take(i + 1).last() == sample@);
            proof {
                lemma_concatenation_prefix_len(all, i + 1);
            }
            let mut piece = vstd::slice::slice_to_vec(sample.as_slice());
            sizes.push(sample.len());
            buffer.append(&mut piece);
            assert(sizes@ =~= all.take(i + 1).map_values(|s: Seq<u8>| s.len() as usize));
            i = i + 1;
        }
        assert(all.take(samples@.len() as int) =~= all);
        Ok((buffer, sizes))
    }

    /// The settings handed to `ZDICT_finalizeDictionary` (its
    /// `ZDICT_params_t`): the requested compression level, no notifications,
    /// and dictionary ID 0, which lets libzstd pick the ID.
    pub fn finalize_settings(level: i32) -> (r: FinalizeSettings)
        ensures
            r == (FinalizeSettings { compression_level: level, notification_level: 0, dict_id: 0 }),
    {
        FinalizeSettings { compression_level: level, notification_level: 0, dict_id: 0 }
    }

    /// The buffer that `ZDICT_finalizeDictionary` writes the dictionary
    /// into: `dict_size` zero bytes.
    pub fn finalize_buffer(dict_size: u32) -> (r: Vec<u8>)
        ensures
            r@ == Seq::new(dict_size as nat, |_i: int| 0u8),
    {
        crate::buffer::zeroed(dict_size as usize)
    }

    /// The answer of a dictionary finalization from what
    /// `ZDICT_finalizeDictionary` returned into `dst`: when `failed`
    /// (`ZDICT_isError`), "finalize-dict failed: " and the error's name;
    /// else `dst` cut to the returned size.
    pub fn finalize_dict_result(dst: Vec<u8>, code: usize, failed: bool) -> (r: Result<Vec<u8>, String>)
        ensures
            bytes_view(r) == finalize_result(dst@, code, failed),
    {
        if failed {
            return Err(join2("finalize-dict failed: ", zstd_error_name(code)));
        }
        let ghost before = dst@;
        let mut dst = dst;
        dst.truncate(code);
        assert(code < before.len() ==> dst@ =~= before.take(code as int));
        assert(code >= before.len() ==> dst@ =~= before);
        Ok(dst)
    }

    /// libzstd's ZSTD_findFrameCompressedSize — size of one frame in bytes.
    pub fn get_frame_size(frame: Vec<u8>) -> (r: Result<u64, String>)
        ensures
            match zstd_frame_compressed_size(frame@) {
                Ok(n) => r == Ok::<u64, String>(n as u64) && n <= frame@.len(),
                Err(code) => r matches Err(s) && s@ == "find_frame_compressed_size error code: "@
                    + decimal(code as nat),
            },
    {
        match zstd_find_frame_compressed_size(frame.as_slice()) {
            Ok(n) => Ok(n as u64),
            Err(code) => {
                let digits = decimal_u64(code as u64);
                Err(join2("find_frame_compressed_size error code: ", digits.as_str()))
            },
        }
    }
}

/// A prefix of the samples concatenates to no more than all of them.
proof fn lemma_concatenation_prefix_len(samples: Seq<Seq<u8>>, k: int)
    requires
        0 <= k <= samples.len(),
    ensures
        concatenation(samples.take(k)).len() <= concatenation(samples).len(),
    decreases samples.len() - k,
{
    if k < samples.len() {
        lemma_concatenation_prefix_len(samples, k + 1);
        assert(samples.take(k + 1).drop_last() =~= samples.take(k));
    } else {
        assert(samples.take(k) =~= samples);
    }
}

} // verus!
