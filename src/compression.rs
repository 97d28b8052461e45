use vstd::prelude::*;

use polars::prelude::{BrotliLevel, GzipLevel, ParquetCompression, StatisticsOptions, ZstdLevel};

use crate::error::{ConversionError, Result};

verus! {

// polars' validated level types are opaque here: only their constructors are used.
#[verifier::external_type_specification]
#[verifier::external_body]
pub struct ExGzipLevel(GzipLevel);

#[verifier::external_type_specification]
#[verifier::external_body]
pub struct ExZstdLevel(ZstdLevel);

#[verifier::external_type_specification]
#[verifier::external_body]
pub struct ExBrotliLevel(BrotliLevel);

// polars' codec enum and statistics switches are declared with their public
// variants and fields visible, so contracts can say which codec and which
// statistics are chosen.
#[verifier::external_type_specification]
pub struct ExParquetCompression(ParquetCompression);

#[verifier::external_type_specification]
pub struct ExStatisticsOptions(StatisticsOptions);

/// Relies on polars' `StatisticsOptions::full`: every column statistic on.
pub assume_specification[ StatisticsOptions::full ]() -> (r: StatisticsOptions)
    ensures
        r.min_value && r.max_value && r.distinct_count && r.null_count,
;

/// Relies on polars' `StatisticsOptions::empty`: every column statistic off.
pub assume_specification[ StatisticsOptions::empty ]() -> (r: StatisticsOptions)
    ensures
        !r.min_value && !r.max_value && !r.distinct_count && !r.null_count,
;

/// Largest gzip level polars accepts.
pub const GZIP_MAX_LEVEL: u8 = 10;

/// Smallest zstd level polars accepts.
pub const ZSTD_MIN_LEVEL: i32 = 1;

/// Largest zstd level polars accepts.
pub const ZSTD_MAX_LEVEL: i32 = 22;

/// Largest brotli level polars accepts.
pub const BROTLI_MAX_LEVEL: u32 = 11;

/// Relies on polars' `GzipLevel::try_new`: it succeeds exactly for levels 0 to 10.
#[verifier::external_body]
fn gzip_level(level: u8) -> (r: std::result::Result<GzipLevel, String>)
    ensures
        r is Ok <==> level <= GZIP_MAX_LEVEL,
{
    GzipLevel::try_new(level).map_err(|e| e.to_string())
}

/// Relies on polars' `ZstdLevel::try_new`: it succeeds exactly for levels 1 to 22.
#[verifier::external_body]
fn zstd_level(level: i32) -> (r: std::result::Result<ZstdLevel, String>)
    ensures
        r is Ok <==> ZSTD_MIN_LEVEL <= level <= ZSTD_MAX_LEVEL,
{
    ZstdLevel::try_new(level).map_err(|e| e.to_string())
}

/// Relies on polars' `BrotliLevel::try_new`: it succeeds exactly for levels 0 to 11.
#[verifier::external_body]
fn brotli_level(level: u32) -> (r: std::result::Result<BrotliLevel, String>)
    ensures
        r is Ok <==> level <= BROTLI_MAX_LEVEL,
{
    BrotliLevel::try_new(level).map_err(|e| e.to_string())
}

/// Compression algorithm for the Parquet output, with an optional level.
#[derive(Debug, Clone, Copy, PartialEq, Eq, Structural)]
pub enum Compression {
    Uncompressed,
    Snappy,
    Gzip(Option<u8>),
    Lz4,
    Zstd(Option<i32>),
    Brotli(Option<u32>),
}

impl Compression {
    /// The level, if one is given, lies in the range the codec accepts.
    pub open spec fn level_is_valid(self) -> bool {
        match self {
            Compression::Gzip(Some(l)) => l <= GZIP_MAX_LEVEL,
            Compression::Zstd(Some(l)) => ZSTD_MIN_LEVEL <= l <= ZSTD_MAX_LEVEL,
            Compression::Brotli(Some(l)) => l <= BROTLI_MAX_LEVEL,
            _ => true,
        }
    }

    /// `p` is the polars codec for `self`: same algorithm (LZ4 as raw LZ4),
    /// and a level exactly when `self` has one.
    pub open spec fn corresponds_to(self, p: ParquetCompression) -> bool {
        match self {
            Compression::Uncompressed => p == ParquetCompression::Uncompressed,
            Compression::Snappy => p == ParquetCompression::Snappy,
            Compression::Lz4 => p == ParquetCompression::Lz4Raw,
            Compression::Gzip(l) => match p {
                ParquetCompression::Gzip(pl) => (l is Some) == (pl is Some),
                _ => false,
            },
            Compression::Zstd(l) => match p {
                ParquetCompression::Zstd(pl) => (l is Some) == (pl is Some),
                _ => false,
            },
            Compression::Brotli(l) => match p {
                ParquetCompression::Brotli(pl) => (l is Some) == (pl is Some),
                _ => false,
            },
        }
    }

    /// The polars codec for this setting. Fails with `InvalidCompressionLevel`
    /// exactly when a given level is out of the codec's range.
    pub fn to_parquet_compression(self) -> (r: Result<ParquetCompression>)
        ensures
            r is Ok <==> self.level_is_valid(),
            r matches Ok(p) ==> self.corresponds_to(p),
            r matches Err(e) ==> e is InvalidCompressionLevel,
    {
        match self {
            Compression::Uncompressed => Ok(ParquetCompression::Uncompressed),
            Compression::Snappy => Ok(ParquetCompression::Snappy),
            Compression::Gzip(level) => match level {
                Some(l) => match gzip_level(l) {
                    Ok(g) => Ok(ParquetCompression::Gzip(Some(g))),
                    Err(msg) => Err(ConversionError::InvalidCompressionLevel(msg)),
                },
                None => Ok(ParquetCompression::Gzip(None)),
            },
            Compression::Lz4 => Ok(ParquetCompression::Lz4Raw),
            Compression::Zstd(level) => match level {
                Some(l) => match zstd_level(l) {
                    Ok(z) => Ok(ParquetCompression::Zstd(Some(z))),
                    Err(msg) => Err(ConversionError::InvalidCompressionLevel(msg)),
                },
                None => Ok(ParquetCompression::Zstd(None)),
            },
            Compression::Brotli(level) => match level {
                Some(l) => match brotli_level(l) {
                    Ok(b) => Ok(ParquetCompression::Brotli(Some(b))),
                    Err(msg) => Err(ConversionError::InvalidCompressionLevel(msg)),
                },
                None => Ok(ParquetCompression::Brotli(None)),
            },
        }
    }
}

} // verus!
