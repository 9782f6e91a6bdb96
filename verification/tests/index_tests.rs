use lance_conversion::converter::ConversionError;
use lance_conversion::indexes::{
    IndexParams, ScalarIndexKind, VectorIndexKind, index_column, index_failure, mapping,
    plan_index, product_subvectors, vector_dimension,
};
use lance_conversion::job::{IndexSpec, IndexType};
use lance_conversion::schema::{DataType, Field};

fn field(name: &str, data_type: DataType) -> Field {
    Field {
        name: name.to_owned(),
        data_type,
        nullable: true,
        metadata: Vec::new(),
        display_type: String::new(),
    }
}

fn scalar_type() -> DataType {
    DataType::Other
}

fn string_type() -> DataType {
    DataType::Utf8
}

fn label_type() -> DataType {
    DataType::List(Box::new(field("item", DataType::Utf8)))
}

fn vector_type() -> DataType {
    DataType::FixedSizeList(Box::new(field("item", DataType::Float32)), 12)
}

#[test]
fn maps_every_public_job_index_type() {
    let cases = [
        IndexType::Scalar,
        IndexType::BTree,
        IndexType::Bitmap,
        IndexType::LabelList,
        IndexType::Inverted,
        IndexType::NGram,
        IndexType::ZoneMap,
        IndexType::BloomFilter,
        IndexType::RTree,
        IndexType::Fm,
        IndexType::Vector,
        IndexType::IvfFlat,
        IndexType::IvfSq,
        IndexType::IvfPq,
        IndexType::IvfHnswSq,
        IndexType::IvfHnswPq,
        IndexType::IvfHnswFlat,
        IndexType::IvfRq,
    ];
    for job_type in cases {
        let data_type = match job_type {
            IndexType::LabelList => label_type(),
            IndexType::Inverted | IndexType::NGram | IndexType::Fm => string_type(),
            IndexType::Vector
            | IndexType::IvfFlat
            | IndexType::IvfSq
            | IndexType::IvfPq
            | IndexType::IvfHnswSq
            | IndexType::IvfHnswPq
            | IndexType::IvfHnswFlat
            | IndexType::IvfRq => vector_type(),
            _ => scalar_type(),
        };
        let plan = mapping(job_type, &data_type).unwrap();
        assert_eq!(plan.index_type, job_type);
    }
}

#[test]
fn chooses_largest_small_divisor_for_product_quantization() {
    assert_eq!(product_subvectors(128), 16);
    assert_eq!(product_subvectors(12), 12);
    assert_eq!(product_subvectors(17), 1);
}

#[test]
fn product_subvectors_of_small_and_zero_dimensions() {
    assert_eq!(product_subvectors(0), 1);
    assert_eq!(product_subvectors(1), 1);
    assert_eq!(product_subvectors(30), 15);
    assert_eq!(product_subvectors(64), 16);
    assert_eq!(product_subvectors(26), 13);
}

#[test]
fn scalar_index_types_choose_builtin_indexes() {
    let plan = mapping(IndexType::Scalar, &scalar_type()).unwrap();
    assert_eq!(plan.params, IndexParams::Scalar(ScalarIndexKind::BTree));
    let plan = mapping(IndexType::Bitmap, &scalar_type()).unwrap();
    assert_eq!(plan.params, IndexParams::Scalar(ScalarIndexKind::Bitmap));
}

#[test]
fn vector_index_uses_pq_with_small_divisor() {
    let plan = mapping(IndexType::Vector, &vector_type()).unwrap();
    assert_eq!(
        plan.params,
        IndexParams::Vector {
            kind: VectorIndexKind::IvfPq,
            num_sub_vectors: 12
        }
    );
    let plan = mapping(IndexType::IvfHnswSq, &vector_type()).unwrap();
    assert_eq!(
        plan.params,
        IndexParams::Vector {
            kind: VectorIndexKind::IvfHnswSq,
            num_sub_vectors: 12
        }
    );
}

#[test]
fn vector_index_requires_vector_column() {
    match mapping(IndexType::IvfPq, &scalar_type()) {
        Err(ConversionError::InvalidIndexSpec(message)) => assert_eq!(
            message,
            "ivf_pq index requires a positive-dimensional fixed-size vector column"
        ),
        other => panic!("unexpected {other:?}"),
    }
}

#[test]
fn vector_dimension_looks_through_lists() {
    let nested = DataType::List(Box::new(field("item", vector_type())));
    assert_eq!(vector_dimension(&nested), Some(12));
    let zero = DataType::FixedSizeList(Box::new(field("item", DataType::Float32)), 0);
    assert_eq!(vector_dimension(&zero), None);
    let ints = DataType::FixedSizeList(Box::new(field("item", DataType::Other)), 8);
    assert_eq!(vector_dimension(&ints), None);
    let bytes = DataType::FixedSizeList(Box::new(field("item", DataType::UInt8)), 8);
    assert_eq!(vector_dimension(&bytes), Some(8));
}

#[test]
fn planned_indexes_are_named_by_position_and_type() {
    let spec = IndexSpec {
        columns: vec!["value".to_owned()],
        index_type: IndexType::BTree,
    };
    let planned = plan_index(0, &spec, Some(&scalar_type())).unwrap();
    assert_eq!(planned.name, "conversion_0_b_tree_idx");
    assert_eq!(planned.columns, vec!["value".to_owned()]);
    let text = IndexSpec {
        columns: vec!["text".to_owned()],
        index_type: IndexType::Inverted,
    };
    assert_eq!(
        plan_index(12, &text, Some(&string_type())).unwrap().name,
        "conversion_12_inverted_idx"
    );
}

#[test]
fn planning_reports_missing_columns() {
    let empty = IndexSpec {
        columns: Vec::new(),
        index_type: IndexType::Bitmap,
    };
    assert_eq!(
        index_column(&empty).unwrap_err(),
        ConversionError::InvalidIndexSpec("bitmap index must specify at least one column".to_owned())
    );
    let spec = IndexSpec {
        columns: vec!["gone".to_owned()],
        index_type: IndexType::BTree,
    };
    assert_eq!(
        plan_index(0, &spec, None).unwrap_err(),
        ConversionError::InvalidIndexSpec("selected index column 'gone' does not exist".to_owned())
    );
}

#[test]
fn index_failures_name_type_and_column() {
    assert_eq!(
        index_failure(IndexType::Fm, "text", "boom"),
        ConversionError::Index("fm index on column 'text': boom".to_owned())
    );
}

#[test]
fn index_types_use_snake_case_json_names() {
    let expected = [
        (IndexType::Scalar, "scalar"),
        (IndexType::BTree, "b_tree"),
        (IndexType::Bitmap, "bitmap"),
        (IndexType::LabelList, "label_list"),
        (IndexType::Inverted, "inverted"),
        (IndexType::NGram, "n_gram"),
        (IndexType::ZoneMap, "zone_map"),
        (IndexType::BloomFilter, "bloom_filter"),
        (IndexType::RTree, "r_tree"),
        (IndexType::Fm, "fm"),
        (IndexType::Vector, "vector"),
        (IndexType::IvfFlat, "ivf_flat"),
        (IndexType::IvfSq, "ivf_sq"),
        (IndexType::IvfPq, "ivf_pq"),
        (IndexType::IvfHnswSq, "ivf_hnsw_sq"),
        (IndexType::IvfHnswPq, "ivf_hnsw_pq"),
        (IndexType::IvfHnswFlat, "ivf_hnsw_flat"),
        (IndexType::IvfRq, "ivf_rq"),
    ];
    for (index_type, name) in expected {
        assert_eq!(index_type.as_str(), name);
        assert_eq!(IndexType::from_name(name).unwrap(), index_type);
    }
    assert_eq!(
        IndexType::from_name("hash").unwrap_err(),
        "invalid IndexType value: hash"
    );
}
