use lance_conversion::converter::ConversionError;
use lance_conversion::location::LocationKind;
use lance_conversion::sources::{
    check_hf_file, check_nfs_directory, check_row_count, check_schema_sample, hf_http_failure,
    source_location, write_failure,
    HuggingFaceLocation, StorageBackendKind, directory_prefix, is_parquet, is_parquet_object, parse_s3_location,
    query_param, reached_limit, storage_backend,
};

#[test]
fn parses_bucket_and_prefix() {
    let (url, bucket) = parse_s3_location("s3://lance-test-bucket/mint-1t-html").unwrap();
    assert_eq!(bucket, "lance-test-bucket");
    assert_eq!(directory_prefix(&url.path), "mint-1t-html");
}

#[test]
fn rejects_s3_uri_without_bucket() {
    assert!(matches!(
        parse_s3_location("s3:///missing-bucket"),
        Err(ConversionError::InvalidSource(_))
    ));
}

#[test]
fn s3_parse_errors_carry_the_parser_message() {
    assert_eq!(
        parse_s3_location("not a url").unwrap_err(),
        ConversionError::InvalidSource("relative URL without a base".to_owned())
    );
    assert_eq!(
        parse_s3_location("s3:///missing-bucket").unwrap_err(),
        ConversionError::InvalidSource("S3 bucket is missing".to_owned())
    );
}

#[test]
fn directory_prefix_drops_surrounding_slashes() {
    let (url, _) = parse_s3_location("s3://bucket//a/b//").unwrap();
    assert_eq!(url.path, "//a/b//");
    assert_eq!(directory_prefix(&url.path), "a/b");
    assert_eq!(directory_prefix("/"), "");
}

#[test]
fn parses_hf_dataset_uri() {
    let parsed =
        HuggingFaceLocation::parse("hf://datasets/owner/name@main?config=data&split=train").unwrap();
    assert_eq!(parsed.dataset, "owner/name");
    assert_eq!(parsed.revision, "main");
    assert_eq!(parsed.config.as_deref(), Some("data"));
    assert_eq!(parsed.split.as_deref(), Some("train"));
}

#[test]
fn hf_revision_defaults_to_main() {
    let parsed = HuggingFaceLocation::parse("hf://datasets/owner/name").unwrap();
    assert_eq!(parsed.dataset, "owner/name");
    assert_eq!(parsed.revision, "main");
    assert_eq!(parsed.config, None);
    assert_eq!(parsed.split, None);
}

#[test]
fn hf_uris_of_the_wrong_shape_are_refused() {
    let expected = ConversionError::InvalidSource("expected hf://datasets/owner/name@revision".to_owned());
    assert_eq!(HuggingFaceLocation::parse("hf://models/owner/name").unwrap_err(), expected);
    assert_eq!(HuggingFaceLocation::parse("hf://datasets/name").unwrap_err(), expected);
    assert_eq!(HuggingFaceLocation::parse("hf://datasets/a/b/c").unwrap_err(), expected);
    assert_eq!(HuggingFaceLocation::parse("hf://datasets/owner/name@").unwrap_err(), expected);
    assert_eq!(HuggingFaceLocation::parse("s3://datasets/owner/name").unwrap_err(), expected);
}

#[test]
fn hf_revision_splits_at_last_at_sign() {
    let parsed = HuggingFaceLocation::parse("hf://datasets/owner/na@me@v2").unwrap();
    assert_eq!(parsed.dataset, "owner/na@me");
    assert_eq!(parsed.revision, "v2");
}

#[test]
fn first_query_value_wins() {
    let pairs = vec![
        ("split".to_owned(), "train".to_owned()),
        ("split".to_owned(), "test".to_owned()),
    ];
    assert_eq!(query_param(&pairs, "split").as_deref(), Some("train"));
    assert_eq!(query_param(&pairs, "config"), None);
}

#[test]
fn listing_limits() {
    assert!(!reached_limit(5, None));
    assert!(reached_limit(1, Some(1)));
    assert!(!reached_limit(0, Some(1)));
}

#[test]
fn parquet_files_are_recognized_by_extension() {
    assert!(is_parquet("/data/part-0.parquet"));
    assert!(is_parquet("part.parquet"));
    assert!(is_parquet("/data/part.parquet/"));
    assert!(is_parquet("/data/part.parquet/."));
    assert!(!is_parquet("/data/.parquet"));
    assert!(!is_parquet("/data/part.parquet.tmp"));
    assert!(!is_parquet("/data/part.csv"));
    assert!(!is_parquet(""));
    assert!(!is_parquet("/"));
}

#[test]
fn backends_follow_location_kinds() {
    assert_eq!(storage_backend(LocationKind::Nfs), StorageBackendKind::Nfs);
    assert_eq!(storage_backend(LocationKind::S3), StorageBackendKind::ObjectStorage);
    assert_eq!(storage_backend(LocationKind::HuggingFace), StorageBackendKind::HuggingFace);
}

#[test]
fn files_are_read_in_location_order() {
    let locations = vec![
        "s3://b/part-b.parquet".to_owned(),
        "s3://b/part-a.parquet".to_owned(),
        "s3://b/part-c.parquet".to_owned(),
        "s3://b/part-a.parquet".to_owned(),
    ];
    let order = lance_conversion::sources::file_read_order(&locations).unwrap();
    let ordered: Vec<&str> = order.iter().map(|&i| locations[i].as_str()).collect();
    assert_eq!(
        ordered,
        ["s3://b/part-a.parquet", "s3://b/part-a.parquet", "s3://b/part-b.parquet", "s3://b/part-c.parquet"]
    );
    let mut sorted = order.clone();
    sorted.sort();
    assert_eq!(sorted, vec![0, 1, 2, 3]);
    assert_eq!(
        lance_conversion::sources::file_read_order(&Vec::new()).unwrap_err(),
        ConversionError::InvalidSource("source contains no Parquet files".to_owned())
    );
}

#[test]
fn conversion_checks_report_exact_errors() {
    assert!(check_row_count(3, 3).is_ok());
    assert_eq!(
        check_row_count(3, 2).unwrap_err(),
        ConversionError::Validation("source has 3 rows but destination has 2".to_owned())
    );
    assert_eq!(write_failure(false, "disk full"), ConversionError::Write("disk full".to_owned()));
    assert_eq!(
        write_failure(true, "403"),
        ConversionError::Write("blob URL/store ingestion failed: 403".to_owned())
    );
    assert_eq!(
        check_hf_file("https://hf.co/a.parquet", 0).unwrap_err(),
        ConversionError::Read("Hugging Face parquet file 'https://hf.co/a.parquet' is missing a size".to_owned())
    );
    assert!(check_hf_file("https://hf.co/a.parquet", 10).is_ok());
    assert_eq!(
        check_hf_file("nope", 10).unwrap_err(),
        ConversionError::Read("Hugging Face parquet URL is invalid: relative URL without a base".to_owned())
    );
    assert_eq!(
        hf_http_failure("404 Not Found", "missing"),
        ConversionError::Read("Hugging Face HTTP 404 Not Found: missing".to_owned())
    );
    assert!(check_nfs_directory(true).is_ok());
    assert!(check_nfs_directory(false).is_err());
    assert!(check_schema_sample(1).is_ok());
    assert!(check_schema_sample(0).is_err());
    assert_eq!(
        source_location("gs://bucket/key").unwrap_err(),
        ConversionError::InvalidSource("unsupported dataset location scheme: gs".to_owned())
    );
    assert_eq!(source_location("/data").unwrap().kind(), LocationKind::Nfs);
}

#[test]
fn http_stores_are_keyed_by_origin() {
    let url = lance_conversion::blob::validate_blob_uri("https://user@example.com:8443/a/b.bin?x=1", "c", 0).unwrap();
    assert_eq!(url.authority, "user@example.com:8443");
    assert_eq!(lance_conversion::uri::origin_of(&url), "https://user@example.com:8443");
    assert_eq!(lance_conversion::uri::store_prefix_of(&url), "https$user@example.com:8443");
    assert_eq!(url.query_pairs, vec![("x".to_owned(), "1".to_owned())]);
}

#[test]
fn s3_destinations_have_a_store_root() {
    use_destination("s3://bucket/path/data.lance?x=1", Some("s3://bucket"));
    use_destination("/tmp/out.lance", None);
    use_destination("https://example.com/out.lance", None);
}

fn use_destination(uri: &str, expected: Option<&str>) {
    let destination = lance_conversion::sources::Destination::new(uri);
    assert_eq!(destination.uri, uri);
    assert_eq!(destination.store_root().as_deref(), expected);
}

#[test]
fn object_keys_name_parquet_files_by_suffix() {
    assert!(is_parquet_object("prefix/part-0.parquet"));
    assert!(is_parquet_object("prefix/.parquet"));
    assert!(!is_parquet_object("prefix/part-0.parquet.tmp"));
    assert!(!is_parquet_object("parquet"));
    assert!(!is_parquet_object("prefix/data.csv"));
}
