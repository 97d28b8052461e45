use vstd::prelude::*;
use vstd::string::StringSliceAdditionalSpecFns;
use vstd::utf8::encode_utf8;

use crate::compression::Compression;
use crate::error::{ConversionError, Result};
use crate::options::{ConversionOptions, DOUBLE_QUOTE};

verus! {

/// The byte `\t` (horizontal tab).
pub const TAB: u8 = 9;

/// The byte `\`.
pub const BACKSLASH: u8 = 92;

/// The byte `t`.
pub const LOWER_T: u8 = 116;

/// The byte `'`.
pub const SINGLE_QUOTE: u8 = 39;

/// The bytes of the word `none`.
pub open spec fn none_word() -> Seq<u8> {
    seq![110u8, 111u8, 110u8, 101u8]
}

/// The delimiter named by the bytes `b` of a command-line value: the escape
/// `\t` (two characters) names a tab, a single byte names itself, anything
/// else names none.
pub open spec fn delimiter_of(b: Seq<u8>) -> Option<u8> {
    if b == seq![BACKSLASH, LOWER_T] {
        Some(TAB)
    } else if b.len() == 1 {
        Some(b[0])
    } else {
        None
    }
}

/// The quote setting named by a command-line value, given the bytes `folded`
/// of its lowercase form and its own bytes `raw`. `Some(None)` disables
/// quoting; `None` means the value names no quote setting.
pub open spec fn quote_char_of(folded: Seq<u8>, raw: Seq<u8>) -> Option<Option<u8>> {
    if folded == none_word() || folded.len() == 0 {
        Some(None)
    } else if folded == seq![DOUBLE_QUOTE] {
        Some(Some(DOUBLE_QUOTE))
    } else if folded == seq![SINGLE_QUOTE] {
        Some(Some(SINGLE_QUOTE))
    } else if raw.len() == 1 {
        Some(Some(raw[0]))
    } else {
        None
    }
}

/// The lowercase form of a string, as Rust's Unicode case mapping gives it.
pub uninterp spec fn lower_of(s: Seq<char>) -> Seq<char>;

/// Relies on `str::to_lowercase`: the result depends on the characters alone,
/// and the empty string stays empty.
#[verifier::external_body]
fn lowercase(s: &str) -> (r: String)
    ensures
        r@ == lower_of(s@),
        s@.len() == 0 ==> r@.len() == 0,
{
    s.to_lowercase()
}

/// Parses a delimiter given on the command line: `\t` as an escape for the
/// tab, otherwise a value of exactly one byte.
pub fn parse_delimiter(s: &str) -> (r: Result<u8>)
    ensures
        match delimiter_of(s.spec_bytes()) {
            Some(d) => r matches Ok(x) && x == d,
            None => r matches Err(ConversionError::InvalidDelimiter),
        },
{
    let b = s.as_bytes();
    if b.len() == 2 && b[0] == BACKSLASH && b[1] == LOWER_T {
        assert(b@ =~= seq![BACKSLASH, LOWER_T]);
        Ok(TAB)
    } else if b.len() == 1 {
        Ok(b[0])
    } else {
        Err(ConversionError::InvalidDelimiter)
    }
}

/// Tells whether the byte slice `b` holds exactly the bytes `w`.
fn bytes_equal(b: &[u8], w: &[u8]) -> (r: bool)
    ensures
        r == (b@ == w@),
{
    if b.len() != w.len() {
        return false;
    }
    let mut i: usize = 0;
    while i < b.len()
        invariant
            b@.len() == w@.len(),
            0 <= i <= b@.len(),
            forall|j: int| 0 <= j < i ==> b@[j] == w@[j],
        decreases b@.len() - i,
    {
        if b[i] != w[i] {
            return false;
        }
        i = i + 1;
    }
    assert(b@ =~= w@);
    true
}

/// Decides the quote setting of the command-line value `s` whose lowercase
/// form is `folded`: `none` in any case, or the empty value, disables quoting;
/// otherwise the value must be a single byte.
pub fn quote_char_from_folded(folded: &str, s: &str) -> (r: Result<Option<u8>>)
    ensures
        match quote_char_of(folded.spec_bytes(), s.spec_bytes()) {
            Some(q) => r matches Ok(x) && x == q,
            None => r matches Err(ConversionError::InvalidQuoteChar),
        },
{
    let f = folded.as_bytes();
    let none: [u8; 4] = [110u8, 111u8, 110u8, 101u8];
    assert(none@ =~= none_word());
    if bytes_equal(f, none.as_slice()) || f.len() == 0 {
        return Ok(None);
    }
    if f.len() == 1 && f[0] == DOUBLE_QUOTE {
        assert(f@ =~= seq![DOUBLE_QUOTE]);
        return Ok(Some(DOUBLE_QUOTE));
    }
    if f.len() == 1 && f[0] == SINGLE_QUOTE {
        assert(f@ =~= seq![SINGLE_QUOTE]);
        return Ok(Some(SINGLE_QUOTE));
    }
    let b = s.as_bytes();
    if b.len() == 1 {
        Ok(Some(b[0]))
    } else {
        Err(ConversionError::InvalidQuoteChar)
    }
}

/// Parses a quote character given on the command line: `none` (in any case)
/// or the empty value disables quoting; otherwise a single byte.
pub fn parse_quote_char(s: &str) -> (r: Result<Option<u8>>)
    ensures
        match quote_char_of(encode_utf8(lower_of(s@)), s.spec_bytes()) {
            Some(q) => r matches Ok(x) && x == q,
            None => r matches Err(ConversionError::InvalidQuoteChar),
        },
{
    let folded = lowercase(s);
    quote_char_from_folded(folded.as_str(), s)
}

/// A compression algorithm named on the command line, before a level is attached.
#[derive(Debug, Clone, Copy, PartialEq, Eq, Structural)]
pub enum CompressionType {
    Uncompressed,
    Snappy,
    Gzip,
    Lz4,
    Zstd,
    Brotli,
}

impl CompressionType {
    /// The compression setting for this algorithm and an optional level. The
    /// level is cast to the codec's level type (to `u8` for gzip, to `i32`
    /// for zstd); algorithms without levels drop it.
    pub open spec fn compression_of(self, level: Option<u32>) -> Compression {
        match self {
            CompressionType::Uncompressed => Compression::Uncompressed,
            CompressionType::Snappy => Compression::Snappy,
            CompressionType::Gzip => Compression::Gzip(
                match level {
                    Some(l) => Some(l as u8),
                    None => None,
                },
            ),
            CompressionType::Lz4 => Compression::Lz4,
            CompressionType::Zstd => Compression::Zstd(
                match level {
                    Some(l) => Some(l as i32),
                    None => None,
                },
            ),
            CompressionType::Brotli => Compression::Brotli(level),
        }
    }

    /// Attaches `level` to this algorithm.
    pub fn to_compression(&self, level: Option<u32>) -> (r: Compression)
        ensures
            r == self.compression_of(level),
    {
        match self {
            CompressionType::Uncompressed => Compression::Uncompressed,
            CompressionType::Snappy => Compression::Snappy,
            CompressionType::Gzip => Compression::Gzip(
                match level {
                    Some(l) => Some(l as u8),
                    None => None,
                },
            ),
            CompressionType::Lz4 => Compression::Lz4,
            CompressionType::Zstd => Compression::Zstd(
                match level {
                    Some(l) => Some(l as i32),
                    None => None,
                },
            ),
            CompressionType::Brotli => Compression::Brotli(level),
        }
    }
}

/// The command-line values that configure a conversion, as given.
#[derive(Debug, Clone)]
pub struct ConversionArgs {
    /// Compression algorithm.
    pub compression: CompressionType,
    /// Compression level (algorithm-specific).
    pub compression_level: Option<u32>,
    /// The CSV has a header row.
    pub has_header: bool,
    /// Field delimiter, as typed.
    pub delimiter: String,
    /// Quote character, as typed (`none` disables quoting).
    pub quote_char: String,
    /// Rows to scan for schema inference (0 scans all).
    pub infer_schema_rows: usize,
    /// Row group size for the Parquet output.
    pub row_group_size: usize,
    /// Number of threads (0 picks automatically).
    pub threads: usize,
    /// Low memory mode.
    pub low_memory: bool,
    /// Leave statistics out of the Parquet output.
    pub no_statistics: bool,
    /// Write the Parquet output without parallelism.
    pub no_parallel: bool,
}

/// A count where zero stands for "no limit".
pub open spec fn nonzero(n: usize) -> Option<usize> {
    if n == 0 {
        None
    } else {
        Some(n)
    }
}

/// The options that `a` asks for, once its delimiter is `d` and its quote
/// setting is `q`.
pub open spec fn options_of(a: ConversionArgs, d: u8, q: Option<u8>) -> ConversionOptions {
    ConversionOptions {
        has_header: a.has_header,
        delimiter: d,
        quote_char: q,
        infer_schema_rows: nonzero(a.infer_schema_rows),
        compression: a.compression.compression_of(a.compression_level),
        row_group_size: Some(a.row_group_size),
        n_threads: nonzero(a.threads),
        low_memory: a.low_memory,
        statistics: !a.no_statistics,
        parallel: !a.no_parallel,
    }
}

fn nonzero_count(n: usize) -> (r: Option<usize>)
    ensures
        r == nonzero(n),
{
    if n == 0 {
        None
    } else {
        Some(n)
    }
}

/// Builds conversion options from command-line values. The delimiter is
/// checked first, then the quote character.
pub fn build_conversion_options(args: &ConversionArgs) -> (r: Result<ConversionOptions>)
    ensures
        match delimiter_of(encode_utf8(args.delimiter@)) {
            None => r matches Err(ConversionError::InvalidDelimiter),
            Some(d) => match quote_char_of(
                encode_utf8(lower_of(args.quote_char@)),
                encode_utf8(args.quote_char@),
            ) {
                None => r matches Err(ConversionError::InvalidQuoteChar),
                Some(q) => r matches Ok(o) && o == options_of(*args, d, q),
            },
        },
{
    let delimiter = match parse_delimiter(args.delimiter.as_str()) {
        Ok(d) => d,
        Err(e) => return Err(e),
    };
    let quote_char = match parse_quote_char(args.quote_char.as_str()) {
        Ok(q) => q,
        Err(e) => return Err(e),
    };
    Ok(ConversionOptions {
        has_header: args.has_header,
        delimiter,
        quote_char,
        infer_schema_rows: nonzero_count(args.infer_schema_rows),
        compression: args.compression.to_compression(args.compression_level),
        row_group_size: Some(args.row_group_size),
        n_threads: nonzero_count(args.threads),
        low_memory: args.low_memory,
        statistics: !args.no_statistics,
        parallel: !args.no_parallel,
    })
}

} // verus!
