//! Compression and decompression with raw libzstd parameters.
//!
//! A parameter reaches libzstd as a bare `(id, value)` pair of C `int`s, and
//! the pairs here are the caller's, unchecked: whether an id names a
//! parameter, and whether a value is in its bounds, is libzstd's to decide.
//! No safe binding of libzstd passes such a pair on, so the calls themselves
//! are made by the embedding through libzstd's C API. This module decides
//! which calls are made, in which order and with which arguments, and what
//! is answered from what each call returned: a run is a state machine that
//! takes the outcome of the last call and gives the next call, the error to
//! answer, or the output.

use vstd::prelude::*;
use crate::text::{decimal_i64, join3, signed_decimal};
use crate::zstd_ctx::{zstd_bound, zstd_compress_bound, zstd_error_name, zstd_error_text};
use crate::zstd_extras::{ZstdParam, capacity_ceiling, capacity_for, decompress_capacity, lemma_capacity_bounded};
use vstd::string::*;

verus! {

/// A call into libzstd that an advanced compression or decompression makes.
#[derive(Debug, Clone, Copy, PartialEq, Eq, Structural)]
pub enum ZstdCall {
    /// `ZSTD_CCtx_setParameter` / `ZSTD_DCtx_setParameter` with the raw pair,
    /// as given.
    SetParameter(ZstdParam),
    /// `ZSTD_CCtx_setParameter(ZSTD_c_compressionLevel, level)`.
    SetLevel(i32),
    /// `ZSTD_CCtx_loadDictionary` / `ZSTD_DCtx_loadDictionary` with the
    /// dictionary of the request.
    LoadDictionary,
    /// `ZSTD_compress2` of the input into a buffer of this many bytes.
    Compress(usize),
    /// `ZSTD_decompressDCtx` of the input into a buffer of this many bytes.
    Decompress(usize),
}

/// What the last call came to, as the embedding reports it.
pub enum ZstdEvent {
    /// No call was made yet.
    Begin,
    /// The last call returned a value that is no error code.
    Accepted,
    /// The last call returned this error code (`ZSTD_isError`).
    Refused(usize),
    /// The last call, a compression or decompression, wrote this many bytes
    /// into this buffer.
    Wrote(Vec<u8>, usize),
}

/// What the embedding is to do next.
pub enum ZstdAction {
    /// Make this call on the context.
    Call(ZstdCall),
    /// Answer this error.
    Fail(String),
    /// Answer this output.
    Finish(Vec<u8>),
}

/// The calls of an advanced compression: every raw pair in order, then the
/// level, so that it wins over a pair that sets the level too, then the
/// dictionary when there is one, then `ZSTD_compress2` into `capacity` bytes.
pub open spec fn compression_calls(level: i32, params: Seq<ZstdParam>, with_dict: bool, capacity: usize) -> Seq<
    ZstdCall,
> {
    params.map_values(|p: ZstdParam| ZstdCall::SetParameter(p)) + seq![ZstdCall::SetLevel(level)] + (if with_dict {
        seq![ZstdCall::LoadDictionary]
    } else {
        Seq::empty()
    }) + seq![ZstdCall::Compress(capacity)]
}

/// The calls of an advanced decompression: every raw pair in order, then the
/// dictionary when there is one, then `ZSTD_decompressDCtx` into `capacity`
/// bytes.
pub open spec fn decompression_calls(params: Seq<ZstdParam>, with_dict: bool, capacity: usize) -> Seq<ZstdCall> {
    params.map_values(|p: ZstdParam| ZstdCall::SetParameter(p)) + (if with_dict {
        seq![ZstdCall::LoadDictionary]
    } else {
        Seq::empty()
    }) + seq![ZstdCall::Decompress(capacity)]
}

/// The error answered when libzstd refuses a call, after `prefix`; `name` is
/// the name libzstd gives the error code.
pub open spec fn call_failure(prefix: Seq<char>, call: ZstdCall, name: Seq<char>) -> Seq<char> {
    match call {
        ZstdCall::SetParameter(p) => prefix + "setParameter(id="@ + signed_decimal(p.id as int) + ", value="@
            + signed_decimal(p.value as int) + ") failed: "@ + name,
        ZstdCall::SetLevel(level) => prefix + "setParameter(compressionLevel="@ + signed_decimal(level as int)
            + ") failed: "@ + name,
        ZstdCall::LoadDictionary => prefix + "loadDictionary failed: "@ + name,
        ZstdCall::Compress(_) => prefix + "ZSTD_compress2 failed: "@ + name,
        ZstdCall::Decompress(_) => prefix + "ZSTD_decompressDCtx failed: "@ + name,
    }
}

/// The size of the buffer that a call writes into: its capacity for a
/// compression or decompression, nothing for the other calls.
pub open spec fn call_capacity(call: ZstdCall) -> usize {
    match call {
        ZstdCall::Compress(capacity) => capacity,
        ZstdCall::Decompress(capacity) => capacity,
        _ => 0,
    }
}

/// The output of a call that wrote `n` bytes into `buffer`: the buffer cut
/// to `n` bytes, and never to more than the call's `capacity`.
pub open spec fn written_output(buffer: Seq<u8>, n: usize, capacity: usize) -> Seq<u8> {
    let k: int = if n <= capacity {
        n as int
    } else {
        capacity as int
    };
    if k < buffer.len() {
        buffer.take(k)
    } else {
        buffer
    }
}

/// The call that the last event speaks of: the last call made (the first
/// one when none was made yet).
pub open spec fn last_call(calls: Seq<ZstdCall>, made: nat) -> ZstdCall {
    if made == 0 {
        calls[0]
    } else {
        calls[made - 1]
    }
}

/// An advanced compression or decompression in progress.
pub struct ZstdRun {
    calls: Vec<ZstdCall>,
    made: usize,
    prefix: String,
    no_context: String,
}

impl ZstdRun {
    /// The calls of the run, in order.
    pub closed spec fn calls(&self) -> Seq<ZstdCall> {
        self.calls@
    }

    /// How many of the calls were handed out.
    pub closed spec fn made(&self) -> nat {
        self.made as nat
    }

    /// The text put before the error of a refused call.
    pub closed spec fn prefix(&self) -> Seq<char> {
        self.prefix@
    }

    /// The error answered when libzstd cannot allocate a context.
    pub closed spec fn no_context(&self) -> Seq<char> {
        self.no_context@
    }

    #[verifier::type_invariant]
    closed spec fn well_formed(&self) -> bool {
        &&& self.calls@.len() >= 1
        &&& self.made <= self.calls@.len()
    }

    fn start(calls: Vec<ZstdCall>, prefix: &str, no_context: &str) -> (r: Self)
        requires
            calls@.len() >= 1,
        ensures
            r.calls() == calls@,
            r.made() == 0,
            r.prefix() == prefix@,
            r.no_context() == no_context@,
    {
        ZstdRun { calls, made: 0, prefix: String::from_str(prefix), no_context: String::from_str(no_context) }
    }

    /// The run of an advanced compression of `input` at `level` with raw
    /// parameters, and with a dictionary when `with_dict`; its output buffer
    /// is `ZSTD_compressBound` of the input's length.
    pub fn compression(
        input: &[u8],
        level: i32,
        params: &[ZstdParam],
        with_dict: bool,
        prefix: &str,
        no_context: &str,
    ) -> (r: Self)
        ensures
            r.calls() == compression_calls(level, params@, with_dict, zstd_bound(input@.len() as usize)),
            r.made() == 0,
            r.prefix() == prefix@,
            r.no_context() == no_context@,
    {
        let mut calls: Vec<ZstdCall> = Vec::new();
        let mut i: usize = 0;
        while i < params.len()
            invariant
                0 <= i <= params@.len(),
                calls@ == params@.take(i as int).map_values(|p: ZstdParam| ZstdCall::SetParameter(p)),
            decreases params@.len() - i,
        {
            calls.push(ZstdCall::SetParameter(params[i]));
            assert(calls@ =~= params@.take(i + 1).map_values(|p: ZstdParam| ZstdCall::SetParameter(p)));
            i = i + 1;
        }
        assert(params@.take(params@.len() as int) =~= params@);
        calls.push(ZstdCall::SetLevel(level));
        if with_dict {
            calls.push(ZstdCall::LoadDictionary);
        }
        calls.push(ZstdCall::Compress(zstd_compress_bound(input.len())));
        assert(calls@ =~= compression_calls(level, params@, with_dict, zstd_bound(input@.len() as usize)));
        ZstdRun::start(calls, prefix, no_context)
    }

    /// The run of an advanced decompression of `input` with raw parameters,
    /// and with a dictionary when `with_dict`; its output buffer is
    /// `decompress_capacity` of the input, at most 64 MiB.
    pub fn decompression(input: &[u8], params: &[ZstdParam], with_dict: bool, prefix: &str, no_context: &str) -> (r:
        Self)
        ensures
            r.calls() == decompression_calls(params@, with_dict, capacity_for(input@)),
            r.made() == 0,
            r.prefix() == prefix@,
            r.no_context() == no_context@,
    {
        let mut calls: Vec<ZstdCall> = Vec::new();
        let mut i: usize = 0;
        while i < params.len()
            invariant
                0 <= i <= params@.len(),
                calls@ == params@.take(i as int).map_values(|p: ZstdParam| ZstdCall::SetParameter(p)),
            decreases params@.len() - i,
        {
            calls.push(ZstdCall::SetParameter(params[i]));
            assert(calls@ =~= params@.take(i + 1).map_values(|p: ZstdParam| ZstdCall::SetParameter(p)));
            i = i + 1;
        }
        assert(params@.take(params@.len() as int) =~= params@);
        if with_dict {
            calls.push(ZstdCall::LoadDictionary);
        }
        calls.push(ZstdCall::Decompress(decompress_capacity(input)));
        assert(calls@ =~= decompression_calls(params@, with_dict, capacity_for(input@)));
        ZstdRun::start(calls, prefix, no_context)
    }

    /// The error to answer when libzstd cannot allocate the context.
    pub fn no_context_text(&self) -> (r: String)
        ensures
            r@ == self.no_context(),
    {
        self.no_context.clone()
    }

    /// One step of the run. After `Begin` or `Accepted`, the next call, or,
    /// once every call was made, an empty output; after `Refused(code)`, the
    /// error that names the last call made and the error's name; after
    /// `Wrote(buffer, n)`, the buffer cut to the `n` bytes written, within
    /// the capacity of the last call.
    pub fn step(&mut self, event: ZstdEvent) -> (a: ZstdAction)
        ensures
            final(self).calls() == old(self).calls(),
            final(self).prefix() == old(self).prefix(),
            final(self).no_context() == old(self).no_context(),
            match event {
                ZstdEvent::Begin => {
                    if old(self).made() < old(self).calls().len() {
                        a == ZstdAction::Call(old(self).calls()[old(self).made() as int]) && final(self).made()
                            == old(self).made() + 1
                    } else {
                        a matches ZstdAction::Finish(v) && v@.len() == 0 && final(self).made() == old(self).made()
                    }
                },
                ZstdEvent::Accepted => {
                    if old(self).made() < old(self).calls().len() {
                        a == ZstdAction::Call(old(self).calls()[old(self).made() as int]) && final(self).made()
                            == old(self).made() + 1
                    } else {
                        a matches ZstdAction::Finish(v) && v@.len() == 0 && final(self).made() == old(self).made()
                    }
                },
                ZstdEvent::Refused(code) => {
                    &&& final(self).made() == old(self).made()
                    &&& a matches ZstdAction::Fail(e)
                    &&& e@ == call_failure(
                        old(self).prefix(),
                        last_call(old(self).calls(), old(self).made()),
                        zstd_error_text(code),
                    )
                },
                ZstdEvent::Wrote(buffer, n) => {
                    &&& final(self).made() == old(self).made()
                    &&& a matches ZstdAction::Finish(v)
                    &&& v@ == written_output(buffer@, n, call_capacity(last_call(old(self).calls(), old(self).made())))
                },
            },
    {
        proof {
            use_type_invariant(&*self);
        }
        let last = if self.made == 0 {
            self.calls[0]
        } else {
            self.calls[self.made - 1]
        };
        match event {
            ZstdEvent::Begin => self.advance(),
            ZstdEvent::Accepted => self.advance(),
            ZstdEvent::Refused(code) => ZstdAction::Fail(failure_text(self.prefix.as_str(), last, code)),
            ZstdEvent::Wrote(buffer, n) => {
                let capacity: usize = match last {
                    ZstdCall::Compress(c) => c,
                    ZstdCall::Decompress(c) => c,
                    _ => 0,
                };
                let k: usize = if n <= capacity {
                    n
                } else {
                    capacity
                };
                let ghost before = buffer@;
                let mut out = buffer;
                out.truncate(k);
                assert(k < before.len() ==> out@ =~= before.take(k as int));
                assert(k >= before.len() ==> out@ =~= before);
                ZstdAction::Finish(out)
            },
        }
    }

    fn advance(&mut self) -> (a: ZstdAction)
        ensures
            final(self).calls() == old(self).calls(),
            final(self).prefix() == old(self).prefix(),
            final(self).no_context() == old(self).no_context(),
            if old(self).made() < old(self).calls().len() {
                a == ZstdAction::Call(old(self).calls()[old(self).made() as int]) && final(self).made()
                    == old(self).made() + 1
            } else {
                a matches ZstdAction::Finish(v) && v@.len() == 0 && final(self).made() == old(self).made()
            },
    {
        proof {
            use_type_invariant(&*self);
        }
        if self.made < self.calls.len() {
            let call = self.calls[self.made];
            self.made = self.made + 1;
            ZstdAction::Call(call)
        } else {
            ZstdAction::Finish(Vec::new())
        }
    }

    /// A zeroed buffer of `size` bytes for libzstd to write into.
    pub fn output_buffer(size: usize) -> (r: Vec<u8>)
        ensures
            r@ == Seq::new(size as nat, |_i: int| 0u8),
    {
        crate::buffer::zeroed(size)
    }

    /// The run of `compress_advanced`: no dictionary, errors after
    /// "compress-advanced: ".
    pub fn compress_advanced(input: &[u8], level: i32, params: &[ZstdParam]) -> (r: Self)
        ensures
            r.calls() == compression_calls(level, params@, false, zstd_bound(input@.len() as usize)),
            r.made() == 0,
            r.prefix() == "compress-advanced: "@,
            r.no_context() == "compress-advanced: ZSTD_createCCtx returned null"@,
    {
        ZstdRun::compression(
            input,
            level,
            params,
            false,
            "compress-advanced: ",
            "compress-advanced: ZSTD_createCCtx returned null",
        )
    }

    /// The run of `compress_advanced_with_dict`: the dictionary loaded after
    /// the parameters, errors after "compress-advanced-with-dict: ".
    pub fn compress_advanced_with_dict(input: &[u8], level: i32, params: &[ZstdParam]) -> (r: Self)
        ensures
            r.calls() == compression_calls(level, params@, true, zstd_bound(input@.len() as usize)),
            r.made() == 0,
            r.prefix() == "compress-advanced-with-dict: "@,
            r.no_context() == "ZSTD_createCCtx returned null"@,
    {
        ZstdRun::compression(
            input,
            level,
            params,
            true,
            "compress-advanced-with-dict: ",
            "ZSTD_createCCtx returned null",
        )
    }

    /// The run of `decompress_advanced`: no dictionary, errors after
    /// "decompress-advanced: ".
    pub fn decompress_advanced(input: &[u8], params: &[ZstdParam]) -> (r: Self)
        ensures
            r.calls() == decompression_calls(params@, false, capacity_for(input@)),
            r.made() == 0,
            r.prefix() == "decompress-advanced: "@,
            r.no_context() == "decompress-advanced: ZSTD_createDCtx returned null"@,
    {
        ZstdRun::decompression(
            input,
            params,
            false,
            "decompress-advanced: ",
            "decompress-advanced: ZSTD_createDCtx returned null",
        )
    }

    /// The run of `decompress_advanced_with_dict`: the dictionary loaded
    /// after the parameters, errors after "decompress-advanced-with-dict: ".
    pub fn decompress_advanced_with_dict(input: &[u8], params: &[ZstdParam]) -> (r: Self)
        ensures
            r.calls() == decompression_calls(params@, true, capacity_for(input@)),
            r.made() == 0,
            r.prefix() == "decompress-advanced-with-dict: "@,
            r.no_context() == "ZSTD_createDCtx returned null"@,
    {
        ZstdRun::decompression(input, params, true, "decompress-advanced-with-dict: ", "ZSTD_createDCtx returned null")
    }
}

fn failure_text(prefix: &str, call: ZstdCall, code: usize) -> (s: String)
    ensures
        s@ == call_failure(prefix@, call, zstd_error_text(code)),
{
    let name = zstd_error_name(code);
    match call {
        ZstdCall::SetParameter(p) => {
            let id = decimal_i64(p.id as i64);
            let value = decimal_i64(p.value as i64);
            let mut s = join3(prefix, "setParameter(id=", id.as_str());
            s.append(", value=");
            s.append(value.as_str());
            s.append(") failed: ");
            s.append(name);
            s
        },
        ZstdCall::SetLevel(level) => {
            let digits = decimal_i64(level as i64);
            let mut s = join3(prefix, "setParameter(compressionLevel=", digits.as_str());
            s.append(") failed: ");
            s.append(name);
            s
        },
        ZstdCall::LoadDictionary => join3(prefix, "loadDictionary failed: ", name),
        ZstdCall::Compress(_) => join3(prefix, "ZSTD_compress2 failed: ", name),
        ZstdCall::Decompress(_) => join3(prefix, "ZSTD_decompressDCtx failed: ", name),
    }
}

// ---------------------------------------------------------------------------
// Laws
// ---------------------------------------------------------------------------

/// Every raw pair reaches libzstd unchanged and in the order given, whatever
/// its id and value, and the level is set after all of them, so that it wins
/// over a pair that sets the level too; the dictionary, when there is one,
/// and the compression come last.
pub proof fn lemma_compression_call_order(level: i32, params: Seq<ZstdParam>, with_dict: bool, capacity: usize)
    ensures
        forall|i: int|
            0 <= i < params.len() ==> #[trigger] compression_calls(level, params, with_dict, capacity)[i]
                == ZstdCall::SetParameter(params[i]),
        compression_calls(level, params, with_dict, capacity)[params.len() as int] == ZstdCall::SetLevel(level),
        compression_calls(level, params, with_dict, capacity).last() == ZstdCall::Compress(capacity),
        compression_calls(level, params, with_dict, capacity).len() == params.len() + (if with_dict {
            3int
        } else {
            2int
        }),
{
}

/// Every raw pair of a decompression reaches libzstd unchanged and in order,
/// and the decompression comes last, into a buffer of at most 64 MiB.
pub proof fn lemma_decompression_call_order(params: Seq<ZstdParam>, with_dict: bool, input: Seq<u8>)
    ensures
        forall|i: int|
            0 <= i < params.len() ==> #[trigger] decompression_calls(params, with_dict, capacity_for(input))[i]
                == ZstdCall::SetParameter(params[i]),
        decompression_calls(params, with_dict, capacity_for(input)).last() == ZstdCall::Decompress(
            capacity_for(input),
        ),
        call_capacity(decompression_calls(params, with_dict, capacity_for(input)).last()) <= capacity_ceiling(),
{
    lemma_capacity_bounded(input);
}

/// What a run answers after a write never exceeds the capacity of the call
/// that wrote, nor the buffer written into.
pub proof fn lemma_written_within_capacity(buffer: Seq<u8>, n: usize, capacity: usize)
    ensures
        written_output(buffer, n, capacity).len() <= capacity,
        written_output(buffer, n, capacity).len() <= buffer.len(),
        n <= capacity && n <= buffer.len() ==> written_output(buffer, n, capacity) == buffer.take(n as int),
{
}

} // verus!
