use lance_conversion::cli::{
    api_error_message, blob_column_specs, endpoint, job_path, list_query_pairs,
    normalize_base_url, parse_index_spec,
};
use lance_conversion::job::IndexType;

#[test]
fn encodes_destination_uri_as_one_path_segment() {
    assert_eq!(
        job_path("s3://destination-bucket/data.lance"),
        "/v1/jobs/s3%3A%2F%2Fdestination-bucket%2Fdata.lance"
    );
}

#[test]
fn index_arguments_name_a_column_and_a_type() {
    let spec = parse_index_spec("label:scalar").unwrap();
    assert_eq!(spec.columns, vec!["label".to_owned()]);
    assert_eq!(spec.index_type, IndexType::Scalar);
    let spec = parse_index_spec("description:text").unwrap();
    assert_eq!(spec.columns, vec!["description".to_owned()]);
    assert_eq!(spec.index_type, IndexType::Inverted);
    let spec = parse_index_spec("embedding:vector").unwrap();
    assert_eq!(spec.index_type, IndexType::Vector);
    assert_eq!(parse_index_spec("label:b_tree").unwrap_err(), "invalid IndexType value: b_tree");
    assert_eq!(parse_index_spec("embedding:ivf_pq").unwrap_err(), "invalid IndexType value: ivf_pq");
    assert_eq!(
        parse_index_spec("label").unwrap_err(),
        "expected COLUMN:TYPE, got 'label'; type is scalar, text, or vector"
    );
    assert_eq!(parse_index_spec(":scalar").unwrap_err(), "index column must not be empty");
    assert_eq!(parse_index_spec("label:hash").unwrap_err(), "invalid IndexType value: hash");
    assert_eq!(
        parse_index_spec("a:b:c").unwrap_err(),
        "invalid IndexType value: b:c"
    );
}

#[test]
fn base_urls_are_trimmed() {
    assert_eq!(normalize_base_url("  http://10.0.0.12:8080/// ").as_deref(), Some("http://10.0.0.12:8080"));
    assert_eq!(normalize_base_url(" / "), None);
    assert_eq!(normalize_base_url(""), None);
    assert_eq!(endpoint("http://h", "/v1/jobs"), "http://h/v1/jobs");
}

#[test]
fn listing_parameters_are_sent_in_order() {
    let pairs = list_query_pairs(Some("test-user"), true, false, Some(20));
    assert_eq!(
        pairs,
        vec![
            ("creator".to_owned(), "test-user".to_owned()),
            ("failed_only".to_owned(), "true".to_owned()),
            ("limit".to_owned(), "20".to_owned()),
        ]
    );
    assert!(list_query_pairs(None, false, false, None).is_empty());
}

#[test]
fn submitted_blob_columns_become_specs() {
    let specs = blob_column_specs(vec!["image".to_owned(), "thumb".to_owned()]);
    assert_eq!(specs.len(), 2);
    assert_eq!(specs[1].column, "thumb");
}

#[test]
fn api_error_messages_prefer_the_body() {
    assert_eq!(api_error_message("404 Not Found", Some("record not found".to_owned()), "{}"), "record not found");
    assert_eq!(api_error_message("502 Bad Gateway", None, "  upstream down \n"), "upstream down");
    assert_eq!(api_error_message("502 Bad Gateway", None, "   "), "502 Bad Gateway");
}
