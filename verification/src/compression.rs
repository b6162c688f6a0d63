//! Compression types of the channel encoder.

use vstd::prelude::*;
use vstd::std_specs::convert::FromSpecImpl;

verus! {

/// The result from compressing data.
pub type CompressorResult<T> = Result<T, CompressorError>;

/// An error returned by the compressor.
#[derive(Debug, Clone, Copy, PartialEq, Eq, Structural)]
pub enum CompressorError {
    /// Thrown when the compressor is full.
    Full,
    /// Brotli compression failed.
    Brotli,
}

impl CompressorError {
    /// The text that describes the error.
    pub open spec fn spec_message(self) -> Seq<char> {
        match self {
            CompressorError::Full => "compressor is full"@,
            CompressorError::Brotli => "brotli compression failed"@,
        }
    }

    /// Returns the text that describes the error.
    pub fn message(&self) -> (text: String)
        ensures
            text@ == self.spec_message(),
    {
        match self {
            CompressorError::Full => "compressor is full".to_owned(),
            CompressorError::Brotli => "brotli compression failed".to_owned(),
        }
    }
}

/// The type of compressor to use.
#[derive(Debug, Clone, Copy, PartialEq, Eq, Structural)]
pub enum CompressorType {
    /// The ratio compression.
    Ratio,
    /// The shadow compression.
    Shadow,
}

/// The compression algorithm type.
#[derive(Debug, Clone, Copy, PartialEq, Eq, Structural)]
pub enum CompressionAlgo {
    /// The fastest brotli compression level.
    Brotli9,
    /// The default brotli compression level.
    Brotli10,
    /// The best brotli compression level.
    Brotli11,
    /// The zlib compression.
    Zlib,
}

/// The brotli compression level.
#[derive(Debug, Clone, Copy, PartialEq, Eq, Structural)]
pub enum BrotliLevel {
    /// Level 9.
    Brotli9,
    /// Level 10.
    Brotli10,
    /// Level 11.
    Brotli11,
}

/// The brotli level that an algorithm selects: levels 9 and 11 where the
/// algorithm names them, level 10 for every other algorithm.
pub open spec fn brotli_level_of(algo: CompressionAlgo) -> BrotliLevel {
    match algo {
        CompressionAlgo::Brotli9 => BrotliLevel::Brotli9,
        CompressionAlgo::Brotli11 => BrotliLevel::Brotli11,
        _ => BrotliLevel::Brotli10,
    }
}

impl From<CompressionAlgo> for BrotliLevel {
    fn from(algo: CompressionAlgo) -> (level: Self) {
        match algo {
            CompressionAlgo::Brotli9 => BrotliLevel::Brotli9,
            CompressionAlgo::Brotli11 => BrotliLevel::Brotli11,
            _ => BrotliLevel::Brotli10,
        }
    }
}

impl FromSpecImpl<CompressionAlgo> for BrotliLevel {
    open spec fn obeys_from_spec() -> bool {
        true
    }

    open spec fn from_spec(algo: CompressionAlgo) -> Self {
        brotli_level_of(algo)
    }
}

impl<'a> From<&'a CompressionAlgo> for BrotliLevel {
    fn from(algo: &'a CompressionAlgo) -> (level: Self) {
        match algo {
            CompressionAlgo::Brotli9 => BrotliLevel::Brotli9,
            CompressionAlgo::Brotli11 => BrotliLevel::Brotli11,
            _ => BrotliLevel::Brotli10,
        }
    }
}

impl<'a> FromSpecImpl<&'a CompressionAlgo> for BrotliLevel {
    open spec fn obeys_from_spec() -> bool {
        true
    }

    open spec fn from_spec(algo: &'a CompressionAlgo) -> Self {
        brotli_level_of(*algo)
    }
}

} // verus!
