//! The values exchanged with the OpenZL C library, and the decisions made
//! around its calls.
//!
//! OpenZL uses a Result type (ZL_Report) that's a union containing either:
//! - An error code (when _code != 0)
//! - A success value (when _code == 0)

use vstd::prelude::*;
use crate::providers::OpenZlProvider;
use crate::text::join2;
use vstd::string::*;

verus! {

/// ZL_Report - Result type that contains either an error or a size_t value
#[derive(Debug, Clone, Copy)]
pub struct ZlReport {
    /// Error code (0 = success, non-zero = error)
    pub code: i32,
    /// Value (only valid when code == 0)
    pub value: usize,
}

impl ZlReport {
    /// Check if this report represents an error
    pub fn is_error(&self) -> (r: bool)
        ensures
            r == (self.code != 0),
    {
        self.code != 0
    }

    /// Get the value (assumes no error)
    pub fn get_value(&self) -> (r: usize)
        requires
            self.code == 0,
        ensures
            r == self.value,
    {
        self.value
    }
}

/// Compression parameters
#[derive(Debug, Clone, Copy, PartialEq, Eq, Structural)]
pub enum ZlCParam {
    StickyParameters,
    CompressionLevel,
    DecompressionLevel,
    FormatVersion,
    PermissiveCompression,
    CompressedChecksum,
    ContentChecksum,
    MinStreamSize,
}

/// The number by which the C library knows a compression parameter.
pub open spec fn zl_cparam_code(p: ZlCParam) -> i32 {
    match p {
        ZlCParam::StickyParameters => 1,
        ZlCParam::CompressionLevel => 2,
        ZlCParam::DecompressionLevel => 3,
        ZlCParam::FormatVersion => 4,
        ZlCParam::PermissiveCompression => 5,
        ZlCParam::CompressedChecksum => 6,
        ZlCParam::ContentChecksum => 7,
        ZlCParam::MinStreamSize => 11,
    }
}

impl ZlCParam {
    /// The number by which the C library knows this parameter.
    pub fn code(&self) -> (r: i32)
        ensures
            r == zl_cparam_code(*self),
    {
        match self {
            ZlCParam::StickyParameters => 1,
            ZlCParam::CompressionLevel => 2,
            ZlCParam::DecompressionLevel => 3,
            ZlCParam::FormatVersion => 4,
            ZlCParam::PermissiveCompression => 5,
            ZlCParam::CompressedChecksum => 6,
            ZlCParam::ContentChecksum => 7,
            ZlCParam::MinStreamSize => 11,
        }
    }
}

/// Maximum format version
pub const ZL_MAX_FORMAT_VERSION: i32 = 22;

/// The bound on OpenZL's output for an input of `src_size` bytes.
pub open spec fn compress_bound(src_size: int) -> int {
    src_size * 2 + 512 + 8
}

/// Calculate the maximum compressed size bound
pub fn zl_compress_bound(src_size: usize) -> (r: usize)
    requires
        compress_bound(src_size as int) <= usize::MAX,
    ensures
        r == compress_bound(src_size as int),
{
    (src_size * 2) + 512 + 8
}

/// What an OpenZL call that wrote into a buffer leaves: the buffer cut to
/// the reported size, or the failure text followed by the error's name.
pub open spec fn openzl_finished(
    output: Seq<u8>,
    report: ZlReport,
    failure: Seq<char>,
    error_name: Seq<char>,
) -> Result<Seq<u8>, Seq<char>> {
    if report.code != 0 {
        Err(failure + error_name)
    } else if report.value < output.len() {
        Ok(output.take(report.value as int))
    } else {
        Ok(output)
    }
}

/// The preparation of an OpenZL compression of `input_len` bytes at a
/// requested level: `None` for an empty input (whose compression is empty),
/// else the clamped level and the size of the output buffer.
pub open spec fn openzl_compress_plan(input_len: usize, level: u8) -> Option<(i32, usize)> {
    if input_len == 0 {
        None
    } else {
        Some(
            (
                if level <= 9 {
                    level as i32
                } else {
                    9
                },
                compress_bound(input_len as int) as usize,
            ),
        )
    }
}

/// The outcome of the C library's compression or decompression call, as
/// plain values: the buffer it wrote into, its report and the name of the
/// report's error; `None` when no context could be created.
pub open spec fn ran_view(ran: Option<(Vec<u8>, ZlReport, String)>) -> Option<(Seq<u8>, ZlReport, Seq<char>)> {
    match ran {
        Some((output, report, name)) => Some((output@, report, name@)),
        None => None,
    }
}

/// A buffer cut to at most `limit` bytes.
pub open spec fn within(output: Seq<u8>, limit: int) -> Seq<u8> {
    if limit < output.len() {
        output.take(limit)
    } else {
        output
    }
}

/// What an OpenZL compression of `input_len` bytes answers: the empty output
/// for an empty input, with no call made; else the error of a context that
/// could not be created, or the call's output (held to the compress bound)
/// cut to the reported size, or its error.
pub open spec fn openzl_compression(input_len: nat, ran: Option<(Seq<u8>, ZlReport, Seq<char>)>) -> Result<
    Seq<u8>,
    Seq<char>,
> {
    if input_len == 0 {
        Ok(Seq::empty())
    } else {
        match ran {
            None => Err("Failed to create OpenZL compression context"@),
            Some((output, report, name)) => openzl_finished(
                within(output, compress_bound(input_len as int)),
                report,
                "OpenZL compression failed: "@,
                name,
            ),
        }
    }
}

/// What an OpenZL decompression of `input_len` bytes answers: the empty
/// output for an empty input, with no call made; else the error of the size
/// query, the error of a context that could not be created, or the call's
/// output (held to the reported decompressed size) cut to the size the call
/// reported, or its error.
pub open spec fn openzl_decompression(
    input_len: nat,
    size: ZlReport,
    size_name: Seq<char>,
    ran: Option<(Seq<u8>, ZlReport, Seq<char>)>,
) -> Result<Seq<u8>, Seq<char>> {
    if input_len == 0 {
        Ok(Seq::empty())
    } else if size.code != 0 {
        Err("Failed to get OpenZL decompressed size: "@ + size_name)
    } else {
        match ran {
            None => Err("Failed to create OpenZL decompression context"@),
            Some((output, report, name)) => openzl_finished(
                within(output, size.value as int),
                report,
                "OpenZL decompression failed: "@,
                name,
            ),
        }
    }
}

/// The law of OpenZL compression: an empty input calls nothing and
/// compresses to the empty output; every level above 9 is taken as 9; the
/// output buffer is exactly the compress bound, and a compression never
/// answers more bytes than that bound, whatever the C library returned.
pub proof fn lemma_openzl_compression(
    input_len: usize,
    level: u8,
    ran: Option<(Seq<u8>, ZlReport, Seq<char>)>,
)
    ensures
        (openzl_compress_plan(input_len, level) is None) == (input_len == 0),
        input_len == 0 ==> openzl_compression(input_len as nat, ran) == Ok::<Seq<u8>, Seq<char>>(Seq::empty()),
        level > 9 ==> openzl_compress_plan(input_len, level) == openzl_compress_plan(input_len, 9),
        openzl_compress_plan(input_len, level) matches Some((l, capacity)) ==> (0 <= l <= 9 && capacity
            == compress_bound(input_len as int) as usize),
        openzl_compression(input_len as nat, ran) matches Ok(c) ==> c.len() <= compress_bound(input_len as int),
{
}

/// The law of OpenZL decompression: an empty input calls nothing and
/// decompresses to the empty output, and no decompression answers more
/// bytes than the size the frame reported.
pub proof fn lemma_openzl_decompression(
    input_len: nat,
    size: ZlReport,
    size_name: Seq<char>,
    ran: Option<(Seq<u8>, ZlReport, Seq<char>)>,
)
    ensures
        input_len == 0 ==> openzl_decompression(input_len, size, size_name, ran) == Ok::<Seq<u8>, Seq<char>>(
            Seq::empty(),
        ),
        openzl_decompression(input_len, size, size_name, ran) matches Ok(v) ==> (input_len == 0 || v.len()
            <= size.value),
{
}

/// What a finished OpenZL call answers is never longer than the buffer it
/// wrote into, nor than the size it reported.
pub proof fn lemma_openzl_finished_within(output: Seq<u8>, report: ZlReport, failure: Seq<char>, error_name: Seq<char>)
    ensures
        openzl_finished(output, report, failure, error_name) matches Ok(v) ==> (v.len() <= output.len()
            && v.len() <= report.value),
        report.code != 0 ==> openzl_finished(output, report, failure, error_name) == Err::<Seq<u8>, Seq<char>>(
            failure + error_name,
        ),
{
}

impl OpenZlProvider {
    /// Prepares a compression: `None` when the input is empty (its
    /// compression is the empty output), else the level to set and the size
    /// of the output buffer to hand to `ZL_CCtx_compress`.
    pub fn plan_compress(input: &[u8], level: u8) -> (r: Option<(i32, usize)>)
        requires
            compress_bound(input@.len() as int) <= usize::MAX,
        ensures
            r == openzl_compress_plan(input@.len() as usize, level),
    {
        if input.len() == 0 {
            None
        } else {
            Some((OpenZlProvider::compression_level(level), zl_compress_bound(input.len())))
        }
    }

    /// The answer of an OpenZL compression of `input`, from what the C
    /// library's call came to (`None` when no context could be created):
    /// the empty output for an empty input, whatever `ran` holds.
    pub fn compression_answer(input: &[u8], ran: Option<(Vec<u8>, ZlReport, String)>) -> (r: Result<
        Vec<u8>,
        String,
    >)
        requires
            compress_bound(input@.len() as int) <= usize::MAX,
        ensures
            crate::codecs::bytes_view(r) == openzl_compression(input@.len(), ran_view(ran)),
            r matches Ok(c) ==> c@.len() <= compress_bound(input@.len() as int),
    {
        if input.len() == 0 {
            return Ok(Vec::new());
        }
        match ran {
            None => Err(String::from_str("Failed to create OpenZL compression context")),
            Some((output, report, name)) => {
                let bound = zl_compress_bound(input.len());
                let ghost before = output@;
                let mut output = output;
                output.truncate(bound);
                assert(output@ =~= within(before, compress_bound(input@.len() as int)));
                let r = OpenZlProvider::finish(output, report, "OpenZL compression failed: ", name.as_str());
                proof {
                    lemma_openzl_finished_within(output@, report, "OpenZL compression failed: "@, name@);
                }
                r
            },
        }
    }

    /// The answer of an OpenZL decompression of `input`, from the report of
    /// `ZL_getDecompressedSize` and what the decompression call came to
    /// (`None` when no context could be created): the empty output for an
    /// empty input, and never more bytes than the reported size.
    pub fn decompression_answer(
        input: &[u8],
        size: ZlReport,
        size_name: &str,
        ran: Option<(Vec<u8>, ZlReport, String)>,
    ) -> (r: Result<Vec<u8>, String>)
        ensures
            crate::codecs::bytes_view(r) == openzl_decompression(input@.len(), size, size_name@, ran_view(ran)),
            r matches Ok(v) ==> (input@.len() == 0 || v@.len() <= size.value),
    {
        if input.len() == 0 {
            return Ok(Vec::new());
        }
        if size.is_error() {
            return Err(join2("Failed to get OpenZL decompressed size: ", size_name));
        }
        match ran {
            None => Err(String::from_str("Failed to create OpenZL decompression context")),
            Some((output, report, name)) => {
                let ghost before = output@;
                let mut output = output;
                output.truncate(size.get_value());
                assert(output@ =~= within(before, size.value as int));
                let r = OpenZlProvider::finish(output, report, "OpenZL decompression failed: ", name.as_str());
                proof {
                    lemma_openzl_finished_within(output@, report, "OpenZL decompression failed: "@, name@);
                }
                r
            },
        }
    }

    /// Decides whether an OpenZL compression or decompression calls the C
    /// library at all: for an empty input it does not, and the answer is the
    /// empty output (`Some`); for any other input it does (`None`).
    pub fn answer_without_library(input: &[u8]) -> (r: Option<Vec<u8>>)
        ensures
            (r is Some) == (input@.len() == 0),
            r matches Some(v) ==> v@.len() == 0,
    {
        if input.len() == 0 {
            Some(Vec::new())
        } else {
            None
        }
    }

    /// A zeroed output buffer of `size` bytes for the C library to write
    /// into.
    pub fn output_buffer(size: usize) -> (r: Vec<u8>)
        ensures
            r@ == Seq::new(size as nat, |_i: int| 0u8),
    {
        crate::buffer::zeroed(size)
    }

    /// The buffer for a decompression, from the report of
    /// `ZL_getDecompressedSize`: exactly the reported size, so that the
    /// decompressed output never exceeds it, or the error of
    /// `reported_size`.
    pub fn decompression_buffer(report: ZlReport, error_name: &str) -> (r: Result<Vec<u8>, String>)
        ensures
            report.code != 0 ==> (r matches Err(e) && e@ == "Failed to get OpenZL decompressed size: "@
                + error_name@),
            report.code == 0 ==> (r matches Ok(b) && b@ == Seq::new(report.value as nat, |_i: int| 0u8)),
    {
        match OpenZlProvider::reported_size(report, error_name) {
            Err(e) => Err(e),
            Ok(size) => Ok(OpenZlProvider::output_buffer(size)),
        }
    }

    /// The size that `ZL_getDecompressedSize` reported, or the error
    /// "Failed to get OpenZL decompressed size: " with the error's name.
    pub fn reported_size(report: ZlReport, error_name: &str) -> (r: Result<usize, String>)
        ensures
            report.code != 0 ==> (r matches Err(e) && e@ == "Failed to get OpenZL decompressed size: "@
                + error_name@),
            report.code == 0 ==> r == Ok::<usize, String>(report.value),
    {
        if report.is_error() {
            Err(join2("Failed to get OpenZL decompressed size: ", error_name))
        } else {
            Ok(report.get_value())
        }
    }

    /// Finishes an OpenZL call that wrote into `output`: the output cut to
    /// the reported size, or `failure` followed by the error's name.
    pub fn finish(output: Vec<u8>, report: ZlReport, failure: &str, error_name: &str) -> (r: Result<
        Vec<u8>,
        String,
    >)
        ensures
            crate::codecs::bytes_view(r) == openzl_finished(output@, report, failure@, error_name@),
            r matches Ok(v) ==> v@.len() <= output@.len(),
    {
        if report.is_error() {
            return Err(join2(failure, error_name));
        }
        let ghost before = output@;
        let mut output = output;
        output.truncate(report.get_value());
        assert(report.value < before.len() ==> output@ =~= before.take(report.value as int));
        assert(report.value >= before.len() ==> output@ =~= before);
        Ok(output)
    }
}

} // verus!
