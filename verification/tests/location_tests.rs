use lance_conversion::location::{DatasetLocation, LocationError, LocationKind};

#[test]
fn accepts_supported_locations() {
    assert_eq!(
        DatasetLocation::parse_location("/datasets/images").unwrap().kind(),
        LocationKind::Nfs
    );
    assert_eq!(
        DatasetLocation::parse_location("s3://example-bucket/datasets/images")
            .unwrap()
            .kind(),
        LocationKind::S3
    );
    assert_eq!(
        DatasetLocation::parse_location("hf://datasets/owner/name@main?config=default&split=train")
            .unwrap()
            .kind(),
        LocationKind::HuggingFace
    );
}

#[test]
fn rejects_unknown_schemes() {
    assert_eq!(
        DatasetLocation::parse_location("gs://bucket/key").unwrap_err(),
        LocationError::UnsupportedScheme("gs".to_owned())
    );
}

#[test]
fn location_keeps_its_uri() {
    let location = DatasetLocation::parse_location("s3://bucket/prefix").unwrap();
    assert_eq!(location.uri(), "s3://bucket/prefix");
    assert_eq!(location.duplicate(), location);
}

#[test]
fn location_error_names_the_scheme() {
    let error = DatasetLocation::parse_location("ftp://host/data").unwrap_err();
    assert_eq!(error.message(), "unsupported dataset location scheme: ftp");
}

#[test]
fn location_kind_names_round_trip() {
    for kind in [LocationKind::Nfs, LocationKind::S3, LocationKind::HuggingFace] {
        assert_eq!(LocationKind::from_name(kind.as_str()).unwrap(), kind);
    }
    assert_eq!(LocationKind::HuggingFace.as_str(), "hugging_face");
    assert!(LocationKind::from_name("gcs").is_err());
}
