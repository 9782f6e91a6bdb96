//! Planning the indexes a conversion builds: which Lance index each job index
//! type becomes, its parameters, and its name.

use vstd::prelude::*;
use vstd::string::*;
use crate::converter::{ConversionError, ConversionErrorView};
use crate::job::{IndexSpec, IndexType, index_type_name, strings_view};
use crate::schema::DataType;
use crate::text::{concat3, decimal, decimal_string};

verus! {

/// The most sub-vectors product quantization splits a vector into.
pub const MAX_PRODUCT_SUBVECTORS: usize = 16;

/// The largest `c` in `1..=upto` that divides `dimension`, or `1`.
pub open spec fn largest_divisor_upto(dimension: int, upto: int) -> int
    decreases upto,
{
    if upto <= 1 {
        1
    } else if dimension % upto == 0 {
        upto
    } else {
        largest_divisor_upto(dimension, upto - 1)
    }
}

/// The number of product-quantization sub-vectors for a vector dimension:
/// the largest divisor of the dimension that is at most 16, or `1`.
pub open spec fn subvectors_for(dimension: int) -> int {
    largest_divisor_upto(
        dimension,
        if dimension < MAX_PRODUCT_SUBVECTORS {
            dimension
        } else {
            MAX_PRODUCT_SUBVECTORS as int
        },
    )
}

proof fn lemma_largest_divisor_upto(dimension: int, upto: int)
    requires
        dimension > 0,
    ensures
        1 <= largest_divisor_upto(dimension, upto),
        upto >= 1 ==> largest_divisor_upto(dimension, upto) <= upto,
        dimension % largest_divisor_upto(dimension, upto) == 0,
        forall|c: int|
            largest_divisor_upto(dimension, upto) < c <= upto ==> #[trigger] (dimension % c) != 0,
    decreases upto,
{
    if upto > 1 && dimension % upto != 0 {
        lemma_largest_divisor_upto(dimension, upto - 1);
    }
}

/// The number of sub-vectors for `dimension` divides it, is at most 16 and
/// the dimension, and no larger count up to that bound divides it.
pub proof fn lemma_subvectors_is_largest_small_divisor(dimension: int)
    requires
        dimension > 0,
    ensures
        1 <= subvectors_for(dimension) <= MAX_PRODUCT_SUBVECTORS,
        subvectors_for(dimension) <= dimension,
        dimension % subvectors_for(dimension) == 0,
        forall|c: int|
            subvectors_for(dimension) < c <= MAX_PRODUCT_SUBVECTORS && c <= dimension ==> #[trigger] (
            dimension % c) != 0,
{
    let upto = if dimension < MAX_PRODUCT_SUBVECTORS {
        dimension
    } else {
        MAX_PRODUCT_SUBVECTORS as int
    };
    lemma_largest_divisor_upto(dimension, upto);
}

/// The number of product-quantization sub-vectors for `dimension`.
pub fn product_subvectors(dimension: usize) -> (r: usize)
    ensures
        r == subvectors_for(dimension as int),
        1 <= r <= MAX_PRODUCT_SUBVECTORS,
        dimension > 0 ==> dimension % r == 0 && r <= dimension,
        dimension == 0 ==> r == 1,
{
    let upto = if dimension < MAX_PRODUCT_SUBVECTORS {
        dimension
    } else {
        MAX_PRODUCT_SUBVECTORS
    };
    let mut candidate = upto;
    while candidate > 1
        invariant
            candidate <= upto,
            upto <= MAX_PRODUCT_SUBVECTORS,
            upto == (if dimension < MAX_PRODUCT_SUBVECTORS {
                dimension
            } else {
                MAX_PRODUCT_SUBVECTORS
            }),
            largest_divisor_upto(dimension as int, upto as int) == largest_divisor_upto(
                dimension as int,
                candidate as int,
            ),
        decreases candidate,
    {
        if dimension % candidate == 0 {
            proof {
                lemma_largest_divisor_upto(dimension as int, candidate as int);
            }
            return candidate;
        }
        candidate = candidate - 1;
    }
    proof {
        if dimension > 0 {
            lemma_largest_divisor_upto(dimension as int, upto as int);
        }
    }
    1
}

/// Element types a vector index accepts.
pub open spec fn vector_element(data_type: DataType) -> bool {
    data_type is Float16 || data_type is Float32 || data_type is Float64 || data_type is UInt8
}

/// Whether vector indexes accept elements of this type.
pub fn is_vector_element(data_type: &DataType) -> (r: bool)
    ensures
        r == vector_element(*data_type),
{
    match data_type {
        DataType::Float16 | DataType::Float32 | DataType::Float64 | DataType::UInt8 => true,
        _ => false,
    }
}

/// The dimension of a vector column: a positive fixed-size list of vector
/// elements, possibly inside lists.
pub open spec fn vector_dim(data_type: DataType) -> Option<int>
    decreases data_type,
{
    match data_type {
        DataType::FixedSizeList(item, dimension) => if vector_element(item.data_type) && dimension
            > 0 {
            Some(dimension as int)
        } else {
            None
        },
        DataType::List(item) => vector_dim(item.data_type),
        DataType::LargeList(item) => vector_dim(item.data_type),
        _ => None,
    }
}

/// The vector dimension of a column type, if it is a vector column.
pub fn vector_dimension(data_type: &DataType) -> (r: Option<usize>)
    ensures
        match vector_dim(*data_type) {
            Some(d) => r == Some(d as usize) && d == r->0,
            None => r is None,
        },
    decreases data_type,
{
    match data_type {
        DataType::FixedSizeList(item, dimension) => {
            if is_vector_element(&item.data_type) && *dimension > 0 {
                Some(*dimension as usize)
            } else {
                None
            }
        },
        DataType::List(item) => vector_dimension(&item.data_type),
        DataType::LargeList(item) => vector_dimension(&item.data_type),
        _ => None,
    }
}

/// The builtin scalar index a scalar job index becomes.
#[derive(Debug, Clone, Copy, PartialEq, Eq, Structural)]
pub enum ScalarIndexKind {
    BTree,
    Bitmap,
    LabelList,
    Inverted,
    NGram,
    ZoneMap,
    BloomFilter,
    RTree,
    Fm,
}

/// The vector index layout a vector job index becomes. All vector indexes
/// use L2 distance.
#[derive(Debug, Clone, Copy, PartialEq, Eq, Structural)]
pub enum VectorIndexKind {
    IvfPq,
    IvfFlat,
    IvfSq,
    IvfHnswFlat,
    IvfHnswPq,
    IvfHnswSq,
    IvfRq,
}

/// Parameters of a planned index. `num_sub_vectors` is the
/// product-quantization split used by the PQ layouts.
#[derive(Debug, Clone, Copy, PartialEq, Eq, Structural)]
pub enum IndexParams {
    Scalar(ScalarIndexKind),
    Vector { kind: VectorIndexKind, num_sub_vectors: usize },
}

/// The Lance index to build for a job index: its type (the Lance index type
/// of the same name) and parameters.
#[derive(Debug, Clone, Copy, PartialEq, Eq, Structural)]
pub struct IndexPlan {
    pub index_type: IndexType,
    pub params: IndexParams,
}

/// The builtin scalar index of a scalar job index type.
pub open spec fn scalar_kind(index_type: IndexType) -> Option<ScalarIndexKind> {
    match index_type {
        IndexType::Scalar => Some(ScalarIndexKind::BTree),
        IndexType::BTree => Some(ScalarIndexKind::BTree),
        IndexType::Bitmap => Some(ScalarIndexKind::Bitmap),
        IndexType::LabelList => Some(ScalarIndexKind::LabelList),
        IndexType::Inverted => Some(ScalarIndexKind::Inverted),
        IndexType::NGram => Some(ScalarIndexKind::NGram),
        IndexType::ZoneMap => Some(ScalarIndexKind::ZoneMap),
        IndexType::BloomFilter => Some(ScalarIndexKind::BloomFilter),
        IndexType::RTree => Some(ScalarIndexKind::RTree),
        IndexType::Fm => Some(ScalarIndexKind::Fm),
        _ => None,
    }
}

/// The vector layout of a vector job index type; `vector` means IVF-PQ.
pub open spec fn vector_kind(index_type: IndexType) -> Option<VectorIndexKind> {
    match index_type {
        IndexType::Vector => Some(VectorIndexKind::IvfPq),
        IndexType::IvfPq => Some(VectorIndexKind::IvfPq),
        IndexType::IvfFlat => Some(VectorIndexKind::IvfFlat),
        IndexType::IvfSq => Some(VectorIndexKind::IvfSq),
        IndexType::IvfHnswFlat => Some(VectorIndexKind::IvfHnswFlat),
        IndexType::IvfHnswPq => Some(VectorIndexKind::IvfHnswPq),
        IndexType::IvfHnswSq => Some(VectorIndexKind::IvfHnswSq),
        IndexType::IvfRq => Some(VectorIndexKind::IvfRq),
        _ => None,
    }
}

/// Message for a vector index on a column that is not a vector column.
pub open spec fn vector_column_message(index_type: IndexType) -> Seq<char> {
    index_type_name(index_type) + " index requires a positive-dimensional fixed-size vector column"@
}

/// The index a job index type becomes on a column of type `data_type`.
pub open spec fn index_plan(index_type: IndexType, data_type: DataType) -> Result<IndexPlan, Seq<char>> {
    match scalar_kind(index_type) {
        Some(kind) => Ok(IndexPlan { index_type, params: IndexParams::Scalar(kind) }),
        None => match vector_dim(data_type) {
            Some(dimension) => Ok(
                IndexPlan {
                    index_type,
                    params: IndexParams::Vector {
                        kind: vector_kind(index_type)->0,
                        num_sub_vectors: subvectors_for(dimension) as usize,
                    },
                },
            ),
            None => Err(vector_column_message(index_type)),
        },
    }
}

/// Every job index type is either scalar or vector.
pub proof fn lemma_index_types_are_scalar_or_vector(index_type: IndexType)
    ensures
        scalar_kind(index_type) is Some <==> vector_kind(index_type) is None,
{
}

/// The name of a builtin scalar index, spelled as job index types are.
pub open spec fn scalar_index_name(kind: ScalarIndexKind) -> Seq<char> {
    match kind {
        ScalarIndexKind::BTree => "b_tree"@,
        ScalarIndexKind::Bitmap => "bitmap"@,
        ScalarIndexKind::LabelList => "label_list"@,
        ScalarIndexKind::Inverted => "inverted"@,
        ScalarIndexKind::NGram => "n_gram"@,
        ScalarIndexKind::ZoneMap => "zone_map"@,
        ScalarIndexKind::BloomFilter => "bloom_filter"@,
        ScalarIndexKind::RTree => "r_tree"@,
        ScalarIndexKind::Fm => "fm"@,
    }
}

/// The name of a vector index layout, spelled as job index types are.
pub open spec fn vector_layout_name(kind: VectorIndexKind) -> Seq<char> {
    match kind {
        VectorIndexKind::IvfPq => "ivf_pq"@,
        VectorIndexKind::IvfFlat => "ivf_flat"@,
        VectorIndexKind::IvfSq => "ivf_sq"@,
        VectorIndexKind::IvfHnswFlat => "ivf_hnsw_flat"@,
        VectorIndexKind::IvfHnswPq => "ivf_hnsw_pq"@,
        VectorIndexKind::IvfHnswSq => "ivf_hnsw_sq"@,
        VectorIndexKind::IvfRq => "ivf_rq"@,
    }
}

/// Each job index type is built as the Lance index of the same name, on a
/// column of any type for a scalar index and on a vector column for a vector
/// index: the plan keeps the job's index type, a scalar job type other than
/// `scalar` gets the builtin scalar index of its own name and `scalar` gets
/// a B-tree, and a vector job type other than `vector` gets the vector layout
/// of its own name and `vector` gets IVF-PQ. A vector type on a column that
/// is not a vector column is refused.
pub proof fn lemma_index_types_keep_their_names(index_type: IndexType, data_type: DataType)
    ensures
        index_type != IndexType::Scalar && scalar_kind(index_type) is Some ==> ({
            &&& index_plan(index_type, data_type) matches Ok(plan)
            &&& plan.index_type == index_type
            &&& plan.params matches IndexParams::Scalar(kind)
            &&& scalar_index_name(kind) == index_type_name(index_type)
        }),
        index_type == IndexType::Scalar ==> index_plan(index_type, data_type) == Ok::<IndexPlan, Seq<char>>(
            IndexPlan { index_type, params: IndexParams::Scalar(ScalarIndexKind::BTree) },
        ),
        vector_kind(index_type) is Some && vector_dim(data_type) is Some ==> ({
            &&& index_plan(index_type, data_type) matches Ok(plan)
            &&& plan.index_type == index_type
            &&& plan.params matches IndexParams::Vector { kind, num_sub_vectors }
            &&& index_type == IndexType::Vector ==> kind == VectorIndexKind::IvfPq
            &&& index_type != IndexType::Vector ==> vector_layout_name(kind) == index_type_name(index_type)
        }),
        vector_kind(index_type) is Some && vector_dim(data_type) is None ==> index_plan(index_type, data_type) is Err,
        scalar_kind(index_type) is Some <==> vector_kind(index_type) is None,
{
}

/// Maps a job index type to the Lance index to build on a column of type
/// `data_type`. Vector types need a vector column.
pub fn mapping(index_type: IndexType, data_type: &DataType) -> (r: Result<IndexPlan, ConversionError>)
    ensures
        match index_plan(index_type, *data_type) {
            Ok(plan) => r == Ok::<IndexPlan, ConversionError>(plan),
            Err(m) => r matches Err(e) && e@ == ConversionErrorView::InvalidIndexSpec(m),
        },
{
    let scalar = match index_type {
        IndexType::Scalar => Some(ScalarIndexKind::BTree),
        IndexType::BTree => Some(ScalarIndexKind::BTree),
        IndexType::Bitmap => Some(ScalarIndexKind::Bitmap),
        IndexType::LabelList => Some(ScalarIndexKind::LabelList),
        IndexType::Inverted => Some(ScalarIndexKind::Inverted),
        IndexType::NGram => Some(ScalarIndexKind::NGram),
        IndexType::ZoneMap => Some(ScalarIndexKind::ZoneMap),
        IndexType::BloomFilter => Some(ScalarIndexKind::BloomFilter),
        IndexType::RTree => Some(ScalarIndexKind::RTree),
        IndexType::Fm => Some(ScalarIndexKind::Fm),
        _ => None,
    };
    if let Some(kind) = scalar {
        return Ok(IndexPlan { index_type, params: IndexParams::Scalar(kind) });
    }
    let kind = match index_type {
        IndexType::IvfFlat => VectorIndexKind::IvfFlat,
        IndexType::IvfSq => VectorIndexKind::IvfSq,
        IndexType::IvfHnswFlat => VectorIndexKind::IvfHnswFlat,
        IndexType::IvfHnswPq => VectorIndexKind::IvfHnswPq,
        IndexType::IvfHnswSq => VectorIndexKind::IvfHnswSq,
        IndexType::IvfRq => VectorIndexKind::IvfRq,
        _ => VectorIndexKind::IvfPq,
    };
    match vector_dimension(data_type) {
        Some(dimension) => Ok(
            IndexPlan {
                index_type,
                params: IndexParams::Vector { kind, num_sub_vectors: product_subvectors(dimension) },
            },
        ),
        None => {
            let mut message = String::from_str(index_type.as_str());
            message.append(" index requires a positive-dimensional fixed-size vector column");
            Err(ConversionError::InvalidIndexSpec(message))
        },
    }
}

/// The name given to the index built for the job index at `position`:
/// `conversion_<position>_<type>_idx`.
pub open spec fn planned_index_name(position: usize, index_type: IndexType) -> Seq<char> {
    "conversion_"@ + decimal(position as nat) + "_"@ + index_type_name(index_type) + "_idx"@
}

/// Message for an index specification without columns.
pub open spec fn no_columns_message(index_type: IndexType) -> Seq<char> {
    index_type_name(index_type) + " index must specify at least one column"@
}

/// Message for an index column the dataset lacks.
pub open spec fn missing_index_column_message(column: Seq<char>) -> Seq<char> {
    "selected index column '"@ + column + "' does not exist"@
}

/// An index ready to build: the columns it covers, the Lance index, and its
/// name.
#[derive(Debug)]
pub struct PlannedIndex {
    pub columns: Vec<String>,
    pub plan: IndexPlan,
    pub name: String,
}

/// The column an index specification is keyed by: its first column.
pub fn index_column(spec: &IndexSpec) -> (r: Result<String, ConversionError>)
    ensures
        spec.columns@.len() > 0 ==> (r matches Ok(c) && c@ == spec.columns@[0]@),
        spec.columns@.len() == 0 ==> (r matches Err(e) && e@ == ConversionErrorView::InvalidIndexSpec(
            no_columns_message(spec.index_type),
        )),
{
    if spec.columns.len() == 0 {
        let mut message = String::from_str(spec.index_type.as_str());
        message.append(" index must specify at least one column");
        return Err(ConversionError::InvalidIndexSpec(message));
    }
    Ok(spec.columns[0].clone())
}

/// What planning the job index at `position` gives, where `column_type` is
/// the type of its first column in the written dataset, if the dataset has
/// that column.
pub open spec fn planning_outcome(position: usize, spec: IndexSpec, column_type: Option<DataType>) -> Result<
    (IndexPlan, Seq<char>),
    ConversionErrorView,
> {
    if spec.columns@.len() == 0 {
        Err(ConversionErrorView::InvalidIndexSpec(no_columns_message(spec.index_type)))
    } else {
        match column_type {
            None => Err(
                ConversionErrorView::InvalidIndexSpec(
                    missing_index_column_message(spec.columns@[0]@),
                ),
            ),
            Some(data_type) => match index_plan(spec.index_type, data_type) {
                Ok(plan) => Ok((plan, planned_index_name(position, spec.index_type))),
                Err(m) => Err(ConversionErrorView::InvalidIndexSpec(m)),
            },
        }
    }
}

/// Plans the job index at `position`: checks it names a column that the
/// dataset has, maps it to a Lance index, and names it.
pub fn plan_index(position: usize, spec: &IndexSpec, column_type: Option<&DataType>) -> (r: Result<
    PlannedIndex,
    ConversionError,
>)
    ensures
        match planning_outcome(
            position,
            *spec,
            match column_type {
                Some(t) => Some(*t),
                None => None,
            },
        ) {
            Ok((plan, name)) => r matches Ok(planned) && planned.plan == plan && planned.name@ == name
                && strings_view(planned.columns@) == strings_view(spec.columns@),
            Err(e) => r matches Err(err) && err@ == e,
        },
{
    let column = index_column(spec)?;
    let data_type = match column_type {
        Some(t) => t,
        None => {
            return Err(
                ConversionError::InvalidIndexSpec(
                    concat3("selected index column '", column.as_str(), "' does not exist"),
                ),
            );
        },
    };
    let plan = mapping(spec.index_type, data_type)?;
    let mut name = String::from_str("conversion_");
    name.append(decimal_string(position as u64).as_str());
    name.append("_");
    name.append(spec.index_type.as_str());
    name.append("_idx");
    let columns = crate::job::copy_strings(&spec.columns);
    Ok(PlannedIndex { columns, plan, name })
}

/// The error reported when Lance fails to build a planned index.
pub fn index_failure(index_type: IndexType, column: &str, error: &str) -> (r: ConversionError)
    ensures
        r@ == ConversionErrorView::Index(
            index_type_name(index_type) + " index on column '"@ + column@ + "': "@ + error@,
        ),
{
    let mut message = String::from_str(index_type.as_str());
    message.append(" index on column '");
    message.append(column);
    message.append("': ");
    message.append(error);
    ConversionError::Index(message)
}

} // verus!
