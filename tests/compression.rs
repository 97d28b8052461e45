use csv2parquet::{Compression, CompressionType, ConversionError};
use polars::prelude::ParquetCompression;

fn is_level_error<T>(r: csv2parquet::Result<T>) -> bool {
    matches!(r, Err(ConversionError::InvalidCompressionLevel(_)))
}

#[test]
fn codecs_without_levels_map_one_to_one() {
    assert_eq!(
        Compression::Uncompressed.to_parquet_compression().unwrap(),
        ParquetCompression::Uncompressed
    );
    assert_eq!(Compression::Snappy.to_parquet_compression().unwrap(), ParquetCompression::Snappy);
    assert_eq!(Compression::Lz4.to_parquet_compression().unwrap(), ParquetCompression::Lz4Raw);
    assert_eq!(Compression::Gzip(None).to_parquet_compression().unwrap(), ParquetCompression::Gzip(None));
    assert_eq!(Compression::Zstd(None).to_parquet_compression().unwrap(), ParquetCompression::Zstd(None));
    assert_eq!(
        Compression::Brotli(None).to_parquet_compression().unwrap(),
        ParquetCompression::Brotli(None)
    );
}

#[test]
fn gzip_level_bounds() {
    assert!(matches!(
        Compression::Gzip(Some(0)).to_parquet_compression(),
        Ok(ParquetCompression::Gzip(Some(_)))
    ));
    assert!(Compression::Gzip(Some(10)).to_parquet_compression().is_ok());
    assert!(is_level_error(Compression::Gzip(Some(11)).to_parquet_compression()));
}

#[test]
fn zstd_level_bounds() {
    assert!(is_level_error(Compression::Zstd(Some(0)).to_parquet_compression()));
    assert!(matches!(
        Compression::Zstd(Some(1)).to_parquet_compression(),
        Ok(ParquetCompression::Zstd(Some(_)))
    ));
    assert!(Compression::Zstd(Some(22)).to_parquet_compression().is_ok());
    assert!(is_level_error(Compression::Zstd(Some(23)).to_parquet_compression()));
    assert!(is_level_error(Compression::Zstd(Some(-1)).to_parquet_compression()));
}

#[test]
fn brotli_level_bounds() {
    assert!(matches!(
        Compression::Brotli(Some(11)).to_parquet_compression(),
        Ok(ParquetCompression::Brotli(Some(_)))
    ));
    assert!(is_level_error(Compression::Brotli(Some(12)).to_parquet_compression()));
}

#[test]
fn level_error_carries_a_message() {
    match Compression::Gzip(Some(200)).to_parquet_compression() {
        Err(ConversionError::InvalidCompressionLevel(msg)) => assert!(!msg.is_empty()),
        _ => panic!("expected a compression level error"),
    }
}

#[test]
fn compression_type_attaches_level() {
    assert_eq!(CompressionType::Uncompressed.to_compression(Some(5)), Compression::Uncompressed);
    assert_eq!(CompressionType::Snappy.to_compression(None), Compression::Snappy);
    assert_eq!(CompressionType::Lz4.to_compression(Some(5)), Compression::Lz4);
    assert_eq!(CompressionType::Gzip.to_compression(Some(6)), Compression::Gzip(Some(6)));
    assert_eq!(CompressionType::Gzip.to_compression(Some(300)), Compression::Gzip(Some(44)));
    assert_eq!(CompressionType::Zstd.to_compression(None), Compression::Zstd(None));
    assert_eq!(CompressionType::Zstd.to_compression(Some(19)), Compression::Zstd(Some(19)));
    assert_eq!(
        CompressionType::Zstd.to_compression(Some(u32::MAX)),
        Compression::Zstd(Some(-1))
    );
    assert_eq!(CompressionType::Brotli.to_compression(Some(4)), Compression::Brotli(Some(4)));
}

#[test]
fn parquet_settings_follow_options() {
    let mut options = csv2parquet::ConversionOptions::default();
    let s = options.parquet_settings().unwrap();
    assert_eq!(s.compression, ParquetCompression::Zstd(None));
    assert!(s.statistics.min_value && s.statistics.max_value);
    assert!(s.statistics.distinct_count && s.statistics.null_count);
    assert_eq!(s.row_group_size, Some(500_000));
    assert!(s.parallel);

    options.statistics = false;
    options.parallel = false;
    options.row_group_size = None;
    options.compression = Compression::Snappy;
    let s = options.parquet_settings().unwrap();
    assert_eq!(s.compression, ParquetCompression::Snappy);
    assert!(s.statistics.is_empty());
    assert_eq!(s.row_group_size, None);
    assert!(!s.parallel);
}

#[test]
fn parquet_settings_reject_bad_level() {
    let mut options = csv2parquet::ConversionOptions::default();
    options.compression = Compression::Brotli(Some(99));
    assert!(is_level_error(options.parquet_settings()));
}
