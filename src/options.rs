use vstd::prelude::*;

use polars::prelude::{ParquetCompression, StatisticsOptions};

use crate::compression::Compression;
use crate::error::Result;

verus! {

/// The byte `,`.
pub const COMMA: u8 = 44;

/// The byte `"`.
pub const DOUBLE_QUOTE: u8 = 34;

/// Rows sampled for schema inference unless told otherwise.
pub const DEFAULT_INFER_SCHEMA_ROWS: usize = 1000;

/// Rows per Parquet row group unless told otherwise.
pub const DEFAULT_ROW_GROUP_SIZE: usize = 500000;

/// Configuration options for CSV to Parquet conversion.
#[derive(Debug, Clone)]
pub struct ConversionOptions {
    /// Whether the CSV file has a header row.
    pub has_header: bool,
    /// Field delimiter byte.
    pub delimiter: u8,
    /// Quote byte (`None` disables quoting).
    pub quote_char: Option<u8>,
    /// Number of rows to scan for schema inference (`None` scans all).
    pub infer_schema_rows: Option<usize>,
    /// Compression algorithm for the Parquet output.
    pub compression: Compression,
    /// Row group size (`None` writes a single row group).
    pub row_group_size: Option<usize>,
    /// Number of threads (`None` uses all available).
    pub n_threads: Option<usize>,
    /// Low memory mode of the CSV reader.
    pub low_memory: bool,
    /// Write column statistics to the Parquet file.
    pub statistics: bool,
    /// Write the Parquet file in parallel.
    pub parallel: bool,
}

impl Default for ConversionOptions {
    /// Header row, comma, double quote, a sample of 1000 rows, zstd at its
    /// default level, row groups of 500000 rows, all threads, statistics and
    /// parallel writing on, low memory mode off.
    fn default() -> (r: Self)
        ensures
            r.has_header,
            r.delimiter == COMMA,
            r.quote_char == Some(DOUBLE_QUOTE),
            r.infer_schema_rows == Some(DEFAULT_INFER_SCHEMA_ROWS),
            r.compression == Compression::Zstd(None),
            r.row_group_size == Some(DEFAULT_ROW_GROUP_SIZE),
            r.n_threads is None,
            !r.low_memory,
            r.statistics,
            r.parallel,
    {
        ConversionOptions {
            has_header: true,
            delimiter: COMMA,
            quote_char: Some(DOUBLE_QUOTE),
            infer_schema_rows: Some(DEFAULT_INFER_SCHEMA_ROWS),
            compression: Compression::Zstd(None),
            row_group_size: Some(DEFAULT_ROW_GROUP_SIZE),
            n_threads: None,
            low_memory: false,
            statistics: true,
            parallel: true,
        }
    }
}

/// Statistics returned after a conversion.
#[derive(Debug, Clone, Copy)]
pub struct ConversionStats {
    /// Number of rows processed.
    pub rows_processed: usize,
    /// Size of the output file in bytes.
    pub output_size: u64,
    /// Time taken by the conversion.
    pub duration: std::time::Duration,
}

/// How the Parquet writer is configured for one conversion.
#[derive(Debug, Clone, Copy)]
pub struct ParquetSettings {
    /// Page compression.
    pub compression: ParquetCompression,
    /// Column statistics to write.
    pub statistics: StatisticsOptions,
    /// Rows per row group (`None` writes a single row group).
    pub row_group_size: Option<usize>,
    /// Encode columns in parallel.
    pub parallel: bool,
}

/// Every column statistic is switched to `on`.
pub open spec fn all_statistics(s: StatisticsOptions, on: bool) -> bool {
    s.min_value == on && s.max_value == on && s.distinct_count == on && s.null_count == on
}

impl ConversionOptions {
    /// The Parquet writer settings these options ask for: the codec of
    /// `compression`, all statistics or none, the row group size and the
    /// parallel flag as given. Fails exactly when the compression level is
    /// out of range.
    pub fn parquet_settings(&self) -> (r: Result<ParquetSettings>)
        ensures
            r is Ok <==> self.compression.level_is_valid(),
            r matches Ok(p) ==> {
                &&& self.compression.corresponds_to(p.compression)
                &&& all_statistics(p.statistics, self.statistics)
                &&& p.row_group_size == self.row_group_size
                &&& p.parallel == self.parallel
            },
            r matches Err(e) ==> e is InvalidCompressionLevel,
    {
        let compression = match self.compression.to_parquet_compression() {
            Ok(c) => c,
            Err(e) => return Err(e),
        };
        let statistics = if self.statistics {
            StatisticsOptions::full()
        } else {
            StatisticsOptions::empty()
        };
        Ok(ParquetSettings {
            compression,
            statistics,
            row_group_size: self.row_group_size,
            parallel: self.parallel,
        })
    }
}

} // verus!
