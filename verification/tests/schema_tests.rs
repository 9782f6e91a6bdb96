use lance_conversion::converter::ConversionError;
use lance_conversion::job::BlobColumnSpec;
use lance_conversion::schema::{
    DataType, Field, inspect_columns, is_blob_eligible, lowered_mentions_variant,
    validate_blob_columns, validate_schema, validate_type,
};

fn field(name: &str, data_type: DataType, display: &str) -> Field {
    Field {
        name: name.to_owned(),
        data_type,
        nullable: true,
        metadata: Vec::new(),
        display_type: display.to_owned(),
    }
}

fn nested_lists() -> Field {
    field(
        "nested",
        DataType::List(Box::new(field(
            "item",
            DataType::List(Box::new(field("item", DataType::Other, "Int64"))),
            "List(Int64)",
        ))),
        "List(List(Int64))",
    )
}

fn variant_field() -> Field {
    let mut variant = field("variant", DataType::Other, "Binary");
    variant.metadata = vec![("PARQUET:logical_type".to_owned(), "VARIANT".to_owned())];
    variant
}

fn spec(column: &str) -> BlobColumnSpec {
    BlobColumnSpec {
        column: column.to_owned(),
    }
}

fn url_and_number() -> Vec<Field> {
    vec![
        field("url", DataType::Utf8, "Utf8"),
        field("number", DataType::Other, "Int64"),
    ]
}

fn check_invalid_blob_specs() {
    let fields = url_and_number();
    assert!(matches!(
        validate_blob_columns(&fields, &vec![spec("missing")]),
        Err(ConversionError::InvalidBlobSpec(message)) if message.contains("does not exist")
    ));
    assert!(matches!(
        validate_blob_columns(&fields, &vec![spec("url"), spec("url")]),
        Err(ConversionError::InvalidBlobSpec(message)) if message.contains("more than once")
    ));
    assert!(matches!(
        validate_blob_columns(&fields, &vec![spec("number")]),
        Err(ConversionError::InvalidBlobSpec(message)) if message.contains("Utf8 or LargeUtf8")
    ));
}

#[test]
fn schema_accepts_nested_lists() {
    validate_schema(&vec![nested_lists()]).unwrap();
}

#[test]
fn schema_rejects_variant_metadata() {
    assert!(matches!(
        validate_schema(&vec![variant_field()]),
        Err(ConversionError::UnsupportedType(_))
    ));
}

#[test]
fn schema_rejects_invalid_blob_column_specs() {
    check_invalid_blob_specs();
}

#[test]
fn validation_accepts_nested_lists() {
    validate_schema(&vec![nested_lists()]).unwrap();
}

#[test]
fn validation_rejects_variant_metadata() {
    assert_eq!(
        validate_schema(&vec![variant_field()]).unwrap_err(),
        ConversionError::UnsupportedType(
            "column 'variant' uses unsupported variant metadata".to_owned()
        )
    );
}

#[test]
fn validation_rejects_invalid_blob_column_specs() {
    check_invalid_blob_specs();
}

#[test]
fn unions_are_reported_under_their_struct_field() {
    let inner = field("choice", DataType::Union, "Union");
    let record = field("record", DataType::Struct(vec![field("ok", DataType::Other, "Int64"), inner]), "Struct");
    assert_eq!(
        validate_type("record", &record.data_type).unwrap_err(),
        ConversionError::UnsupportedType(
            "column 'choice' uses unsupported union/variant data".to_owned()
        )
    );
    let listed = DataType::LargeList(Box::new(field("item", DataType::Union, "Union")));
    assert_eq!(
        validate_type("top", &listed).unwrap_err(),
        ConversionError::UnsupportedType("column 'top' uses unsupported union/variant data".to_owned())
    );
}

#[test]
fn variant_metadata_is_matched_case_insensitively() {
    let mut keyed = field("payload", DataType::Other, "Binary");
    keyed.metadata = vec![("Variant.Kind".to_owned(), "x".to_owned())];
    assert!(validate_schema(&vec![keyed]).is_err());
    let mut plain = field("payload", DataType::Other, "Binary");
    plain.metadata = vec![("encoding".to_owned(), "plain".to_owned())];
    assert!(validate_schema(&vec![plain]).is_ok());
    assert!(lowered_mentions_variant("parquet variant"));
    assert!(!lowered_mentions_variant("VARIANT"));
}

#[test]
fn blob_selection_reports_exact_messages() {
    let mut fields = url_and_number();
    fields.push(field("url", DataType::LargeUtf8, "LargeUtf8"));
    assert_eq!(
        validate_blob_columns(&fields, &vec![spec("url")]).unwrap_err(),
        ConversionError::InvalidBlobSpec(
            "selected column 'url' is duplicated in the source schema".to_owned()
        )
    );
    assert_eq!(
        validate_blob_columns(&url_and_number(), &vec![spec("number")]).unwrap_err(),
        ConversionError::InvalidBlobSpec(
            "selected column 'number' must have type Utf8 or LargeUtf8, found Int64".to_owned()
        )
    );
    let selected = validate_blob_columns(&url_and_number(), &vec![spec("url")]).unwrap();
    assert_eq!(selected, vec!["url".to_owned()]);
}

#[test]
fn string_types_are_blob_eligible() {
    assert!(is_blob_eligible(&DataType::Utf8));
    assert!(is_blob_eligible(&DataType::LargeUtf8));
    assert!(is_blob_eligible(&DataType::Utf8View));
    assert!(!is_blob_eligible(&DataType::Other));
}

#[test]
fn inspection_reports_each_column() {
    let mut fields = url_and_number();
    fields[1].nullable = false;
    let inspection = inspect_columns(&fields);
    assert_eq!(inspection.columns.len(), 2);
    assert_eq!(inspection.columns[0].name, "url");
    assert!(inspection.columns[0].blob_eligible);
    assert!(inspection.columns[0].nullable);
    assert_eq!(inspection.columns[1].name, "number");
    assert_eq!(inspection.columns[1].data_type, "Int64");
    assert!(!inspection.columns[1].blob_eligible);
    assert!(!inspection.columns[1].nullable);
}
