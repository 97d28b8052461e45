use vstd::prelude::*;

verus! {

#[verifier::external_type_specification]
#[verifier::external_body]
pub struct ExIoError(std::io::Error);

#[verifier::external_type_specification]
#[verifier::external_body]
pub struct ExPolarsError(polars::prelude::PolarsError);

/// What can go wrong while configuring or running a conversion.
#[derive(Debug)]
pub enum ConversionError {
    /// The CSV input could not be read; the text is the reader's message.
    CsvRead(String),
    /// The Parquet output could not be written; the text is the writer's message.
    ParquetWrite(String),
    /// The delimiter is not a single byte (nor the escape `\t`).
    InvalidDelimiter,
    /// The quote character is not a single byte, nor `none`, nor empty.
    InvalidQuoteChar,
    /// The input path has no file name to derive an output name from.
    InvalidInputFilename,
    /// A compression level lies outside the codec's range; the text says which.
    InvalidCompressionLevel(String),
    /// An operating-system error while opening or creating a file.
    Io(std::io::Error),
    /// An error reported by polars.
    Polars(polars::prelude::PolarsError),
}

/// Result of the library's fallible operations.
pub type Result<T> = std::result::Result<T, ConversionError>;

} // verus!
