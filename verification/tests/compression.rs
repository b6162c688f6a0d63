use interop_proof::compression::{
    BrotliLevel, CompressionAlgo, CompressorError, CompressorResult, CompressorType,
};

#[test]
fn brotli_level_from_named_levels() {
    assert_eq!(BrotliLevel::from(CompressionAlgo::Brotli9), BrotliLevel::Brotli9);
    assert_eq!(BrotliLevel::from(CompressionAlgo::Brotli10), BrotliLevel::Brotli10);
    assert_eq!(BrotliLevel::from(CompressionAlgo::Brotli11), BrotliLevel::Brotli11);
}

#[test]
fn brotli_level_from_zlib_is_the_default_level() {
    assert_eq!(BrotliLevel::from(CompressionAlgo::Zlib), BrotliLevel::Brotli10);
}

#[test]
fn brotli_level_from_reference() {
    let algo = CompressionAlgo::Brotli11;
    assert_eq!(BrotliLevel::from(&algo), BrotliLevel::Brotli11);
    assert_eq!(BrotliLevel::from(&CompressionAlgo::Brotli9), BrotliLevel::Brotli9);
    assert_eq!(BrotliLevel::from(&CompressionAlgo::Brotli10), BrotliLevel::Brotli10);
    assert_eq!(BrotliLevel::from(&CompressionAlgo::Zlib), BrotliLevel::Brotli10);
}

#[test]
fn brotli_level_through_into() {
    let level: BrotliLevel = CompressionAlgo::Brotli9.into();
    assert_eq!(level, BrotliLevel::Brotli9);
}

#[test]
fn compressor_error_messages() {
    assert_eq!(CompressorError::Full.message(), "compressor is full");
    assert_eq!(CompressorError::Brotli.message(), "brotli compression failed");
}

#[test]
fn compressor_result_carries_the_error() {
    let full: CompressorResult<usize> = Err(CompressorError::Full);
    let written: CompressorResult<usize> = Ok(3);
    assert_eq!(full, Err(CompressorError::Full));
    assert_ne!(full, Err(CompressorError::Brotli));
    assert_eq!(written, Ok(3));
}

#[test]
fn compressor_types_are_distinct() {
    assert_ne!(CompressorType::Ratio, CompressorType::Shadow);
    let copy = CompressorType::Ratio;
    assert_eq!(copy, CompressorType::Ratio);
}
