use lance_conversion::converter::{ByteConfig, ConversionError, Converter, ConverterConfig, mib_to_usize};
use lance_conversion::job::JobProgress;
use lance_conversion::progress::ConversionProgress;

const MIB: usize = 1024 * 1024;

#[test]
fn settings_are_normalized_to_bytes() {
    let config = ConverterConfig {
        target_lance_file_size_mib: 512,
        blob_inline_threshold_mib: 2,
        blob_dedicated_threshold_mib: 32,
    };
    assert_eq!(
        config.validate().unwrap(),
        ByteConfig {
            max_bytes_per_file: 512 * MIB,
            inline_threshold: 2 * MIB,
            dedicated_threshold: 32 * MIB,
        }
    );
    let converter = Converter::new(config).unwrap();
    assert_eq!(converter.byte_config().inline_threshold, 2 * MIB);
}

#[test]
fn inline_threshold_must_be_below_dedicated_threshold() {
    let config = ConverterConfig {
        target_lance_file_size_mib: 512,
        blob_inline_threshold_mib: 32,
        blob_dedicated_threshold_mib: 32,
    };
    assert_eq!(
        config.validate().unwrap_err(),
        ConversionError::InvalidConfiguration(
            "blob inline threshold must be smaller than blob dedicated threshold".to_owned()
        )
    );
}

#[test]
fn inline_threshold_must_fit_a_file() {
    let config = ConverterConfig {
        target_lance_file_size_mib: 1,
        blob_inline_threshold_mib: 2,
        blob_dedicated_threshold_mib: 32,
    };
    assert!(Converter::new(config).is_err());
    assert_eq!(
        config.validate().unwrap_err(),
        ConversionError::InvalidConfiguration(
            "blob inline threshold exceeds target Lance file size".to_owned()
        )
    );
}

#[test]
fn oversized_settings_are_named() {
    assert_eq!(
        mib_to_usize(u64::MAX, "target Lance file size").unwrap_err(),
        ConversionError::InvalidConfiguration("target Lance file size does not fit usize bytes".to_owned())
    );
    assert_eq!(mib_to_usize(3, "x").unwrap(), 3 * MIB);
}

#[test]
fn conversion_errors_have_readable_messages() {
    assert_eq!(
        ConversionError::InvalidSource("x".to_owned()).message(),
        "invalid source: x"
    );
    assert_eq!(
        ConversionError::Write("disk".to_owned()).message(),
        "Lance write failed: disk"
    );
}

#[test]
fn progress_counts_rows() {
    let mut progress = ConversionProgress::default();
    progress.record_read(10);
    progress.record_read(5);
    progress.record_missing_blobs(2);
    progress.record_rows_written_total(13);
    assert_eq!(
        progress.snapshot(),
        JobProgress {
            rows_read: 15,
            rows_written: 13,
            rows_total: 0,
            rows_missing_blobs: 2
        }
    );
    progress.finish();
    assert_eq!(progress.snapshot().rows_total, 15);
}

#[test]
fn progress_counters_saturate() {
    let mut progress = ConversionProgress::new();
    progress.record_read(usize::MAX);
    progress.record_read(usize::MAX);
    assert_eq!(progress.snapshot().rows_read, u64::MAX);
}
