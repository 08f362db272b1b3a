use compression_multiplexer::{Algorithm, Compressor, Decompressor};

#[test]
fn test_compressor_invalid_level() {
    let compressor = Compressor::new(Algorithm::Deflate, 10);
    let result = compressor.compress(vec![1, 2, 3]);
    assert!(result.is_err());
    assert!(result.unwrap_err().contains("Invalid compression level"));
}

#[test]
fn test_lz4_compression() {
    let compressor = Compressor::new(Algorithm::Lz4, 0);
    let data = b"LZ4 fast compression! ".repeat(100).to_vec();
    let compressed = compressor.compress(data.clone()).unwrap();
    assert!(compressed.len() < data.len());

    let decompressor = Decompressor::new(Algorithm::Lz4);
    let decompressed = decompressor.decompress(compressed).unwrap();
    assert_eq!(decompressed, data);
}

#[test]
fn test_zstd_compression() {
    let compressor = Compressor::new(Algorithm::Zstd, 6);
    let data = b"Zstandard compression! ".repeat(100).to_vec();
    let compressed = compressor.compress(data.clone()).unwrap();
    assert!(compressed.len() < data.len());

    let decompressor = Decompressor::new(Algorithm::Zstd);
    let decompressed = decompressor.decompress(compressed).unwrap();
    assert_eq!(decompressed, data);
}

#[test]
fn test_store_compression() {
    let compressor = Compressor::new(Algorithm::Store, 0);
    let data = vec![1, 2, 3, 4, 5];
    let compressed = compressor.compress(data.clone()).unwrap();
    assert_eq!(compressed, data);
}

#[test]
fn test_deflate_compression() {
    let compressor = Compressor::new(Algorithm::Deflate, 6);
    let data = b"Hello, World! ".repeat(100).to_vec();
    let compressed = compressor.compress(data.clone()).unwrap();
    assert!(compressed.len() < data.len());

    let decompressor = Decompressor::new(Algorithm::Deflate);
    let decompressed = decompressor.decompress(compressed).unwrap();
    assert_eq!(decompressed, data);
}
