use lance_conversion::blob::{
    BlobPlan, BlobValue, FetchOutcome, classify_blob_value, fetch_outcome, keep_rows,
    record_fetched, validate_blob_uri,
};
use lance_conversion::converter::ConversionError;
use lance_conversion::job::BlobColumnSpec;
use lance_conversion::schema::{DataType, Field};

fn field(name: &str, data_type: DataType) -> Field {
    Field {
        name: name.to_owned(),
        data_type,
        nullable: true,
        metadata: Vec::new(),
        display_type: String::new(),
    }
}

#[test]
fn accepted_blob_urls() {
    assert!(validate_blob_uri("file:///data/a.bin", "img", 0).is_ok());
    assert!(validate_blob_uri("s3://bucket/a.bin", "img", 0).is_ok());
    assert!(validate_blob_uri("https://example.com/a.bin", "img", 0).is_ok());
}

#[test]
fn refused_blob_urls_name_column_and_row() {
    assert_eq!(
        validate_blob_uri("relative/path", "img", 7).unwrap_err(),
        "blob column 'img' row 7 is not a valid absolute URL: relative URL without a base"
    );
    assert_eq!(
        validate_blob_uri("ftp://host/a.bin", "img", 12).unwrap_err(),
        "blob column 'img' row 12 uses unsupported URL scheme 'ftp'; supported schemes are file, s3, http, and https"
    );
    assert_eq!(
        validate_blob_uri("s3:///no-bucket", "img", 3).unwrap_err(),
        "blob column 'img' row 3 uses unsupported URL scheme 's3'; supported schemes are file, s3, http, and https"
    );
}

#[test]
fn blob_values_are_classified() {
    assert_eq!(classify_blob_value(None, "img", 0).unwrap(), BlobValue::Null);
    assert_eq!(
        classify_blob_value(Some("http://example.com/a"), "img", 0).unwrap(),
        BlobValue::Missing
    );
    assert_eq!(
        classify_blob_value(Some("s3://bucket/a"), "img", 0).unwrap(),
        BlobValue::Uri("s3://bucket/a".to_owned())
    );
    assert!(classify_blob_value(Some("nope"), "img", 0).is_err());
}

#[test]
fn fetch_statuses_decide_the_row() {
    assert_eq!(fetch_outcome(200), FetchOutcome::Fetched);
    assert_eq!(fetch_outcome(204), FetchOutcome::Fetched);
    assert_eq!(fetch_outcome(404), FetchOutcome::Gone);
    assert_eq!(fetch_outcome(410), FetchOutcome::Gone);
    assert_eq!(fetch_outcome(500), FetchOutcome::Failed);
    assert_eq!(fetch_outcome(301), FetchOutcome::Failed);
}

#[test]
fn rows_with_missing_blobs_are_dropped() {
    let mut values = vec![
        vec![BlobValue::Null, BlobValue::Missing, BlobValue::Missing],
        vec![BlobValue::Uri("s3://b/x".to_owned()), BlobValue::Null, BlobValue::Missing],
    ];
    record_fetched(&mut values, 0, 1, Some(vec![1, 2, 3]));
    record_fetched(&mut values, 0, 2, None);
    assert_eq!(values[0][1], BlobValue::Bytes(vec![1, 2, 3]));
    let (keep, missing) = keep_rows(&values, 3);
    assert_eq!(keep, vec![true, true, false]);
    assert_eq!(missing, 1);
}

#[test]
fn blob_plan_numbers_selected_columns_in_schema_order() {
    let fields = vec![
        field("id", DataType::Other),
        field("image_url", DataType::Utf8),
        field("caption", DataType::Utf8),
        field("thumbnail_url", DataType::LargeUtf8),
    ];
    let specs = vec![
        BlobColumnSpec { column: "thumbnail_url".to_owned() },
        BlobColumnSpec { column: "image_url".to_owned() },
    ];
    let plan = BlobPlan::new(&fields, &specs).unwrap();
    assert_eq!(plan.slots, vec![None, Some(0), None, Some(1)]);
    assert_eq!(plan.blob_count, 2);
}

#[test]
fn blob_plan_refuses_unknown_columns() {
    let fields = vec![field("id", DataType::Other)];
    let specs = vec![BlobColumnSpec { column: "image".to_owned() }];
    assert_eq!(
        BlobPlan::new(&fields, &specs).unwrap_err(),
        ConversionError::InvalidBlobSpec("selected column 'image' does not exist".to_owned())
    );
}


fn lookup<'a>(metadata: &'a [(String, String)], key: &str) -> Option<&'a str> {
    metadata.iter().find(|(k, _)| k == key).map(|(_, v)| v.as_str())
}

#[test]
fn blob_v2_fields_get_size_thresholds() {
    let metadata = vec![
        ("ARROW:extension:name".to_owned(), "lance.blob.v2".to_owned()),
        ("lance-encoding:blob-inline-size-threshold".to_owned(), "1".to_owned()),
        ("owner".to_owned(), "team".to_owned()),
    ];
    let annotated = lance_conversion::blob::blob_v2_metadata(&metadata, 2097152, 33554432);
    assert_eq!(annotated.len(), 4);
    assert_eq!(annotated[1], ("lance-encoding:blob-inline-size-threshold".to_owned(), "2097152".to_owned()));
    assert_eq!(lookup(&annotated, "lance-encoding:blob-dedicated-size-threshold"), Some("33554432"));
    assert_eq!(lookup(&annotated, "owner"), Some("team"));
    assert_eq!(lookup(&annotated, "ARROW:extension:name"), Some("lance.blob.v2"));
}

#[test]
fn other_fields_keep_their_metadata() {
    let metadata = vec![("ARROW:extension:name".to_owned(), "arrow.json".to_owned())];
    let annotated = lance_conversion::blob::blob_v2_metadata(&metadata, 1, 2);
    assert_eq!(annotated, metadata);
    assert!(lance_conversion::blob::blob_v2_metadata(&Vec::new(), 1, 2).is_empty());
}
