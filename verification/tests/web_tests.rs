use lance_conversion::job::{BlobColumnSpec, IndexSpec, IndexType, JobKind, JobStatus};
use lance_conversion::lifecycle::StoreError;
use lance_conversion::ordering::JobOrderField;
use lance_conversion::store::JobTable;
use lance_conversion::web::{
    ApiError, CreateJobRequest, ListJobsQuery, content_token, encode_path_segment, job_location,
    job_query_from, new_job_from, prepare_new_job, replace_all, with_asset_tokens,
};

fn request(creator: &str, destination: &str) -> CreateJobRequest {
    CreateJobRequest {
        creator: creator.to_owned(),
        kind: JobKind::Copy,
        source_uri: "s3://source-bucket/data".to_owned(),
        destination_uri: destination.to_owned(),
        blob_columns: Vec::new(),
        indices: Vec::new(),
    }
}

fn empty_query() -> ListJobsQuery {
    ListJobsQuery {
        creator: None,
        failed_only: None,
        ongoing_only: None,
        creation_timestamp_ms_from: None,
        creation_timestamp_ms_to: None,
        order_by: None,
        order: None,
        limit: None,
    }
}

fn submit(table: &mut JobTable, request: CreateJobRequest, now: i64) -> Result<(), ApiError> {
    let job = new_job_from(request, Ok(now))?;
    table.create_job(job).map_err(ApiError::Store)
}

#[test]
fn lib_internal_errors_are_not_disclosed() {
    let error = ApiError::Store(StoreError::Database("secret path".to_owned()));
    assert_eq!(error.status_code(), 500);
    assert_eq!(error.body_message(), "internal server error");
}

#[test]
fn api_internal_errors_are_not_disclosed() {
    let error = ApiError::Store(StoreError::Worker("secret path".to_owned()));
    assert_eq!(error.status_code(), 500);
    assert_eq!(error.body_message(), "internal server error");
    assert_eq!(ApiError::Store(StoreError::LeaseLost).status_code(), 500);
}

#[test]
fn client_errors_are_reported() {
    let bad = ApiError::BadRequest("creator must not be empty".to_owned());
    assert_eq!(bad.status_code(), 400);
    assert_eq!(bad.body_message(), "creator must not be empty");
    let invalid = ApiError::Store(StoreError::InvalidInput("x".to_owned()));
    assert_eq!(invalid.status_code(), 400);
    assert_eq!(invalid.body_message(), "invalid store input: x");
    let conflict = ApiError::Store(StoreError::Conflict("destination already has a job".to_owned()));
    assert_eq!(conflict.status_code(), 409);
    assert_eq!(
        conflict.body_message(),
        "job conflicts with existing state: destination already has a job"
    );
    assert_eq!(ApiError::Store(StoreError::NotFound).status_code(), 404);
}

#[test]
fn job_submission_accepts_source_uri() {
    let destination_uri = "s3://destination-bucket/data.lance";
    let mut table = JobTable::new();
    submit(&mut table, request("test-user", destination_uri), 5).unwrap();
    assert_eq!(
        job_location(destination_uri),
        "/v1/jobs/s3%3A%2F%2Fdestination-bucket%2Fdata.lance"
    );
    let job = table.get_job(destination_uri).unwrap();
    assert_eq!(job.destination_uri, destination_uri);
    assert_eq!(job.status, JobStatus::Queuing);
    assert_eq!(job.attempt, 0);
    assert_eq!(job.creator, "test-user");
}

#[test]
fn submissions_trim_and_require_a_creator() {
    let mut table = JobTable::new();
    submit(&mut table, request("  alice \n", "s3://b/a.lance"), 5).unwrap();
    assert_eq!(table.get_job("s3://b/a.lance").unwrap().creator, "alice");
    let refused = new_job_from(request(" \t ", "s3://b/x.lance"), Ok(5)).unwrap_err();
    assert_eq!(refused, ApiError::BadRequest("creator must not be empty".to_owned()));
    let mut bad_source = request("bob", "s3://b/y.lance");
    bad_source.source_uri = "gs://bucket/key".to_owned();
    assert_eq!(
        new_job_from(bad_source, Ok(5)).unwrap_err(),
        ApiError::BadRequest("unsupported dataset location scheme: gs".to_owned())
    );
    assert_eq!(
        new_job_from(request("bob", "s3://b/z.lance"), Err(StoreError::Worker("clock".to_owned())))
            .unwrap_err(),
        ApiError::Store(StoreError::Worker("clock".to_owned()))
    );
    let job = prepare_new_job(request("carol", "s3://b/c.lance")).unwrap();
    assert!(job.creation_timestamp_ms > 0);
}

#[test]
fn job_query_filters_by_creator() {
    let mut table = JobTable::new();
    submit(&mut table, request("alice", "s3://destination-bucket/alice.lance"), 1).unwrap();
    submit(&mut table, request("bob", "s3://destination-bucket/bob.lance"), 2).unwrap();
    let mut query = empty_query();
    query.creator = Some("alice".to_owned());
    query.ongoing_only = Some(true);
    query.order_by = Some("update".to_owned());
    query.order = Some("asc".to_owned());
    let store_query = job_query_from(query).unwrap();
    assert_eq!(store_query.order_by, JobOrderField::UpdateTimestamp);
    assert!(!store_query.descending);
    let jobs = table.query_jobs(&store_query).unwrap();
    assert_eq!(jobs.len(), 1);
    assert_eq!(jobs[0].creator, "alice");
}

#[test]
fn listing_queries_are_normalized() {
    let mut query = empty_query();
    query.creator = Some("   ".to_owned());
    query.limit = Some(5000);
    let store_query = job_query_from(query).unwrap();
    assert_eq!(store_query.creator, None);
    assert_eq!(store_query.limit, 100);
    assert!(store_query.descending);
    assert_eq!(store_query.order_by, JobOrderField::CreationTimestamp);
    assert!(!store_query.failed_only);
    let mut query = empty_query();
    query.order_by = Some("name".to_owned());
    assert_eq!(
        job_query_from(query).unwrap_err(),
        ApiError::BadRequest("unsupported order field 'name'; expected 'creation' or 'update'".to_owned())
    );
    let mut query = empty_query();
    query.order = Some("up".to_owned());
    assert_eq!(
        job_query_from(query).unwrap_err(),
        ApiError::BadRequest("unsupported order 'up'; expected 'asc' or 'desc'".to_owned())
    );
}

#[test]
fn job_submission_maps_blob_and_index_specs() {
    let mut table = JobTable::new();
    let mut specs = request("test-user", "s3://destination-bucket/specs.lance");
    specs.blob_columns = vec![BlobColumnSpec { column: "image".to_owned() }];
    specs.indices = vec![IndexSpec {
        columns: vec!["embedding".to_owned()],
        index_type: IndexType::Vector,
    }];
    submit(&mut table, specs, 1).unwrap();
    let jobs = table.list_jobs(100).unwrap();
    assert_eq!(jobs[0].blob_columns[0].column, "image");
    assert_eq!(jobs[0].indices[0].columns[0], "embedding");
    assert_eq!(jobs[0].indices[0].index_type, IndexType::Vector);
}

#[test]
fn duplicate_destination_conflicts() {
    let mut table = JobTable::new();
    let destination = "s3://destination-bucket/dup.lance";
    let first = submit(&mut table, request("test-user", destination), 1);
    assert!(first.is_ok());
    let second = submit(&mut table, request("test-user", destination), 2).unwrap_err();
    assert_eq!(second.status_code(), 409);
}

#[test]
fn missing_job_is_not_found() {
    let table = JobTable::new();
    let error = ApiError::Store(table.get_job("s3://destination-bucket/missing.lance").unwrap_err());
    assert_eq!(error.status_code(), 404);
    assert_eq!(error.body_message(), "record not found");
}

#[test]
fn path_segments_encode_everything_but_unreserved_bytes() {
    assert_eq!(encode_path_segment("a-b.c_d~e"), "a-b.c_d~e");
    assert_eq!(encode_path_segment("a b/ü"), "a%20b%2F%C3%BC");
    assert_eq!(encode_path_segment(""), "");
}

#[test]
fn replacement_is_left_to_right_and_non_overlapping() {
    assert_eq!(replace_all("aaaa", "aa", "b"), "bb");
    assert_eq!(replace_all("abcabc", "bc", "X"), "aXaX");
    assert_eq!(replace_all("none", "zz", "X"), "none");
}

#[test]
fn asset_links_carry_content_tokens() {
    let page = "<link href=\"/app.css\"><link href=\"app.css\"><script src=\"/app.js\"></script><script src=\"app.js\"></script>";
    let tokened = with_asset_tokens(page, "c1", "j2");
    assert_eq!(
        tokened,
        "<link href=\"/app.css?v=c1\"><link href=\"/app.css?v=c1\"><script src=\"/app.js?v=j2\"></script><script src=\"/app.js?v=j2\"></script>"
    );
}

#[test]
fn pinning_asset_links_twice_changes_nothing() {
    let css = content_token("body { color: red }");
    let js = content_token("setInterval(() => {}, 1000);");
    let page = "<link href=\"app.css\"><script src=\"/app.js\"></script><a href=\"/other.css\">";
    let once = with_asset_tokens(page, &css, &js);
    for plain in ["href=\"/app.css\"", "href=\"app.css\"", "src=\"/app.js\"", "src=\"app.js\""] {
        assert!(!once.contains(plain));
    }
    assert_eq!(with_asset_tokens(&once, &css, &js), once);
    let without_links = "<p>no assets here</p>";
    assert_eq!(with_asset_tokens(without_links, &css, &js), without_links);
}

#[test]
fn content_tokens_are_stable_lower_hex() {
    let first = content_token("body { color: red }");
    let second = content_token("body { color: red }");
    assert_eq!(first, second);
    assert!(!first.is_empty());
    assert!(first.chars().all(|c| c.is_ascii_hexdigit() && !c.is_ascii_uppercase()));
    assert_ne!(first, content_token("body { color: blue }"));
}

#[test]
fn content_tokens_match_the_std_hash_of_the_text() {
    for body in ["", "body { color: red }", "setInterval(() => {}, 1000);"] {
        let mut hasher = std::collections::hash_map::DefaultHasher::new();
        std::hash::Hash::hash(body, &mut hasher);
        let expected = format!("{:x}", std::hash::Hasher::finish(&hasher));
        assert_eq!(content_token(body), expected);
    }
}
