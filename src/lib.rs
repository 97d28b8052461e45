//! Configuration layer for turning delimited text files into Parquet files:
//! the conversion options, the compression settings handed to polars, and the
//! rules that turn command-line values into options and output paths, and the
//! tally of a run over several files.

pub mod args;
pub mod compression;
pub mod error;
pub mod options;
pub mod paths;
pub mod tally;

pub use args::{
    build_conversion_options, parse_delimiter, parse_quote_char, quote_char_from_folded,
    CompressionType, ConversionArgs,
};
pub use compression::Compression;
pub use error::{ConversionError, Result};
pub use options::{ConversionOptions, ConversionStats, ParquetSettings};
pub use paths::{determine_output_path, output_file_name};
pub use tally::ConversionTally;
