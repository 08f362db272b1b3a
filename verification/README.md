# compression_multiplexer

One interface to several compression algorithms (Store, DEFLATE, BZIP2,
LZMA/xz, Zstandard, LZ4; OpenZL on WASM builds), verified with Verus.

Layout:

- `src/providers.rs` — the `Algorithm` enum, the `CompressionProvider`
  trait and one provider per algorithm, `get_provider`,
  `algorithm_description`, `supported_algorithms`. What each provider
  answers is stated over `compress_outcome` / `decompress_outcome`; for
  Store, DEFLATE, xz, Zstandard and LZ4 (inputs under 4 GiB), every
  successful compression decompresses back to the input. For bzip2, whose
  encoder and decoder come from two crates, the round trip is tested, not
  stated.
- `src/codecs.rs` — the trusted calls into flate2, banzai, bzip2-rs,
  lzma-rust2, lz4_flex and zstd, each tied to a name for its result.
- `src/dispatcher.rs` — `Compressor` / `Decompressor`, which route requests
  by algorithm, and `MultiplexerImpl`.
- `src/zstd_extras.rs`, `src/zstd_ctx.rs` — zstd dictionaries, dictionary
  training and frame queries.
- `src/zstd_advanced.rs` — compression and decompression with raw
  `(id, value)` parameters: a run decides each libzstd call, in order, and
  the answer from what each call returned.
- `src/openzl_ffi.rs` — the values exchanged with OpenZL and the decisions
  around its calls.
- `src/text.rs` — decimal rendering and joining of message text.
- `app/` — the raw FFI calls (OpenZL, libzstd's raw parameters and
  `ZDICT_finalizeDictionary`).
