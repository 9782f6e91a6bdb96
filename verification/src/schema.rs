//! The source schema as the converter sees it, and the checks a schema and a
//! blob column selection must pass before conversion.

use vstd::prelude::*;
use vstd::string::*;
use crate::converter::{ConversionError, ConversionErrorView};
use crate::job::{BlobColumnSpec, blob_columns_view, strings_view};
use crate::text::{concat3, contains, find_first, str_eq};

verus! {

/// The Arrow data types the conversion rules distinguish. Every other type is
/// `Other`.
#[derive(Debug)]
pub enum DataType {
    Utf8,
    LargeUtf8,
    Utf8View,
    Float16,
    Float32,
    Float64,
    UInt8,
    Union,
    List(Box<Field>),
    LargeList(Box<Field>),
    ListView(Box<Field>),
    LargeListView(Box<Field>),
    FixedSizeList(Box<Field>, i32),
    KeyValueMap(Box<Field>, bool),
    Struct(Vec<Field>),
    Other,
}

/// One column of a schema: its name, type, nullability, metadata, and the
/// type as Arrow displays it.
#[derive(Debug)]
pub struct Field {
    pub name: String,
    pub data_type: DataType,
    pub nullable: bool,
    pub metadata: Vec<(String, String)>,
    pub display_type: String,
}

/// The text `str::to_lowercase` gives for `s`.
pub uninterp spec fn lowercase(s: Seq<char>) -> Seq<char>;

/// Calls `str::to_lowercase`, which maps every character to its Unicode
/// lower-case form. The contract names that result and says nothing more.
#[verifier::external_body]
fn to_lowercase(s: &str) -> (r: String)
    ensures
        r@ == lowercase(s@),
{
    s.to_lowercase()
}

/// `lowered` mentions a variant.
pub open spec fn mentions_variant(lowered: Seq<char>) -> bool {
    find_first(lowered, "variant"@) is Some
}

/// Whether already lower-cased metadata text mentions a variant.
pub fn lowered_mentions_variant(lowered: &str) -> (r: bool)
    ensures
        r == mentions_variant(lowered@),
{
    contains(lowered, "variant")
}

/// Some metadata entry of the field marks it as a variant column.
pub open spec fn has_variant_metadata(metadata: Seq<(String, String)>) -> bool {
    exists|i: int|
        0 <= i < metadata.len() && (mentions_variant(lowercase(metadata[i].0@)) || mentions_variant(
            lowercase(metadata[i].1@),
        ))
}

/// The column named in the first union found in `data_type`, searching
/// element types and struct children in order; `column` names the top level.
pub open spec fn first_union(column: Seq<char>, data_type: DataType) -> Option<Seq<char>>
    decreases data_type,
{
    match data_type {
        DataType::Union => Some(column),
        DataType::List(item) => first_union(column, item.data_type),
        DataType::LargeList(item) => first_union(column, item.data_type),
        DataType::ListView(item) => first_union(column, item.data_type),
        DataType::LargeListView(item) => first_union(column, item.data_type),
        DataType::FixedSizeList(item, _) => first_union(column, item.data_type),
        DataType::KeyValueMap(item, _) => first_union(column, item.data_type),
        DataType::Struct(fields) => first_union_in(fields@, 0),
        _ => None,
    }
}

/// The first union found among `fields[i..]`, each searched under its own name.
pub open spec fn first_union_in(fields: Seq<Field>, i: int) -> Option<Seq<char>>
    decreases fields, fields.len() - i,
{
    if i < 0 || i >= fields.len() {
        None
    } else {
        match first_union(fields[i].name@, fields[i].data_type) {
            Some(found) => Some(found),
            None => first_union_in(fields, i + 1),
        }
    }
}

/// Message for a column whose type contains a union.
pub open spec fn union_message(column: Seq<char>) -> Seq<char> {
    "column '"@ + column + "' uses unsupported union/variant data"@
}

/// Message for a column whose metadata marks it as a variant.
pub open spec fn variant_metadata_message(column: Seq<char>) -> Seq<char> {
    "column '"@ + column + "' uses unsupported variant metadata"@
}

/// The first reason, scanning `fields[i..]` in order, why the schema cannot
/// be converted: variant metadata on a column, or a union inside its type.
pub open spec fn schema_error(fields: Seq<Field>, i: int) -> Option<Seq<char>>
    decreases fields.len() - i,
{
    if i < 0 || i >= fields.len() {
        None
    } else if has_variant_metadata(fields[i].metadata@) {
        Some(variant_metadata_message(fields[i].name@))
    } else {
        match first_union(fields[i].name@, fields[i].data_type) {
            Some(column) => Some(union_message(column)),
            None => schema_error(fields, i + 1),
        }
    }
}

/// The column of the first union inside `data_type`, if any.
fn union_column(column: &str, data_type: &DataType) -> (r: Option<String>)
    ensures
        match first_union(column@, *data_type) {
            Some(c) => r matches Some(s) && s@ == c,
            None => r is None,
        },
    decreases data_type,
{
    match data_type {
        DataType::Union => Some(column.to_owned()),
        DataType::List(item) => union_column(column, &item.data_type),
        DataType::LargeList(item) => union_column(column, &item.data_type),
        DataType::ListView(item) => union_column(column, &item.data_type),
        DataType::LargeListView(item) => union_column(column, &item.data_type),
        DataType::FixedSizeList(item, _) => union_column(column, &item.data_type),
        DataType::KeyValueMap(item, _) => union_column(column, &item.data_type),
        DataType::Struct(fields) => {
            let mut i: usize = 0;
            while i < fields.len()
                invariant
                    i <= fields@.len(),
                    first_union(column@, *data_type) == first_union_in(fields@, i as int),
                    *data_type == DataType::Struct(*fields),
                decreases fields.len() - i,
            {
                proof {
                    assert(decreases_to!(*data_type => *fields));
                    assert(decreases_to!(*fields => fields@));
                    assert(decreases_to!(fields@ => fields@[i as int]));
                    assert(decreases_to!(fields@[i as int] => fields@[i as int].data_type));
                }
                let found = union_column(fields[i].name.as_str(), &fields[i].data_type);
                if found.is_some() {
                    return found;
                }
                i = i + 1;
            }
            None
        },
        _ => None,
    }
}

/// Checks that a column's type holds no union, at any depth.
pub fn validate_type(column: &str, data_type: &DataType) -> (r: Result<(), ConversionError>)
    ensures
        match first_union(column@, *data_type) {
            Some(c) => r matches Err(e) && e@ == ConversionErrorView::UnsupportedType(union_message(c)),
            None => r is Ok,
        },
{
    match union_column(column, data_type) {
        Some(found) => Err(
            ConversionError::UnsupportedType(
                concat3("column '", found.as_str(), "' uses unsupported union/variant data"),
            ),
        ),
        None => Ok(()),
    }
}

/// Whether some metadata entry marks a field as a variant column.
pub fn metadata_marks_variant(metadata: &Vec<(String, String)>) -> (r: bool)
    ensures
        r == has_variant_metadata(metadata@),
{
    let mut i: usize = 0;
    while i < metadata.len()
        invariant
            i <= metadata@.len(),
            forall|j: int|
                0 <= j < i ==> !(mentions_variant(lowercase(metadata@[j].0@)) || mentions_variant(
                    lowercase(metadata@[j].1@),
                )),
        decreases metadata.len() - i,
    {
        let key = to_lowercase(metadata[i].0.as_str());
        let value = to_lowercase(metadata[i].1.as_str());
        if lowered_mentions_variant(key.as_str()) || lowered_mentions_variant(value.as_str()) {
            return true;
        }
        i = i + 1;
    }
    false
}

/// Checks that every column of a schema can be converted: no variant
/// metadata and no union types. Reports the first offending column.
pub fn validate_schema(fields: &Vec<Field>) -> (r: Result<(), ConversionError>)
    ensures
        match schema_error(fields@, 0) {
            Some(m) => r matches Err(e) && e@ == ConversionErrorView::UnsupportedType(m),
            None => r is Ok,
        },
{
    let mut i: usize = 0;
    while i < fields.len()
        invariant
            i <= fields@.len(),
            schema_error(fields@, 0) == schema_error(fields@, i as int),
        decreases fields.len() - i,
    {
        if metadata_marks_variant(&fields[i].metadata) {
            return Err(
                ConversionError::UnsupportedType(
                    concat3("column '", fields[i].name.as_str(), "' uses unsupported variant metadata"),
                ),
            );
        }
        validate_type(fields[i].name.as_str(), &fields[i].data_type)?;
        i = i + 1;
    }
    Ok(())
}

/// Blob V2 ingestion accepts string columns; Parquet `Utf8` columns may be
/// presented as `Utf8View`.
pub open spec fn blob_eligible(data_type: DataType) -> bool {
    data_type is Utf8 || data_type is LargeUtf8 || data_type is Utf8View
}

/// Whether a column of this type can be selected for blob ingestion.
pub fn is_blob_eligible(data_type: &DataType) -> (r: bool)
    ensures
        r == blob_eligible(*data_type),
{
    match data_type {
        DataType::Utf8 | DataType::LargeUtf8 | DataType::Utf8View => true,
        _ => false,
    }
}

/// How many of `fields[i..]` are named `name`.
pub open spec fn count_named(fields: Seq<Field>, name: Seq<char>, i: int) -> nat
    decreases fields.len() - i,
{
    if i < 0 || i >= fields.len() {
        0
    } else {
        count_named(fields, name, i + 1) + if fields[i].name@ == name {
            1nat
        } else {
            0nat
        }
    }
}

/// The index of the first of `fields[i..]` named `name`, or the length.
pub open spec fn first_named(fields: Seq<Field>, name: Seq<char>, i: int) -> int
    decreases fields.len() - i,
{
    if i < 0 || i >= fields.len() {
        fields.len() as int
    } else if fields[i].name@ == name {
        i
    } else {
        first_named(fields, name, i + 1)
    }
}

/// Message for a column selected twice.
pub open spec fn selected_twice_message(column: Seq<char>) -> Seq<char> {
    "column '"@ + column + "' is selected more than once"@
}

/// Message for a selected column the schema lacks.
pub open spec fn missing_column_message(column: Seq<char>) -> Seq<char> {
    "selected column '"@ + column + "' does not exist"@
}

/// Message for a selected column the schema holds more than once.
pub open spec fn ambiguous_column_message(column: Seq<char>) -> Seq<char> {
    "selected column '"@ + column + "' is duplicated in the source schema"@
}

/// Message for a selected column that is not a string column.
pub open spec fn ineligible_column_message(column: Seq<char>, found: Seq<char>) -> Seq<char> {
    "selected column '"@ + column + "' must have type Utf8 or LargeUtf8, found "@ + found
}

/// Why the `k`-th selected column is refused, given that the earlier ones
/// were accepted.
pub open spec fn blob_choice_error(fields: Seq<Field>, selected: Seq<Seq<char>>, k: int) -> Option<
    Seq<char>,
> {
    let column = selected[k];
    if selected.subrange(0, k).contains(column) {
        Some(selected_twice_message(column))
    } else if count_named(fields, column, 0) == 0 {
        Some(missing_column_message(column))
    } else if count_named(fields, column, 0) > 1 {
        Some(ambiguous_column_message(column))
    } else if !blob_eligible(fields[first_named(fields, column, 0)].data_type) {
        Some(ineligible_column_message(column, fields[first_named(fields, column, 0)].display_type@))
    } else {
        None
    }
}

/// The first refusal among the selections `selected[k..]`.
pub open spec fn blob_selection_error(fields: Seq<Field>, selected: Seq<Seq<char>>, k: int) -> Option<
    Seq<char>,
>
    decreases selected.len() - k,
{
    if k < 0 || k >= selected.len() {
        None
    } else {
        match blob_choice_error(fields, selected, k) {
            Some(m) => Some(m),
            None => blob_selection_error(fields, selected, k + 1),
        }
    }
}

proof fn lemma_first_named_bounds(fields: Seq<Field>, name: Seq<char>, i: int)
    requires
        0 <= i <= fields.len(),
    ensures
        i <= first_named(fields, name, i) <= fields.len(),
        count_named(fields, name, i) > 0 ==> first_named(fields, name, i) < fields.len(),
    decreases fields.len() - i,
{
    if i < fields.len() {
        lemma_first_named_bounds(fields, name, i + 1);
    }
}

fn count_and_find(fields: &Vec<Field>, name: &str) -> (r: (usize, usize))
    ensures
        r.0 == count_named(fields@, name@, 0),
        r.1 == first_named(fields@, name@, 0),
{
    let mut count: usize = 0;
    let mut first: usize = fields.len();
    let mut i: usize = 0;
    while i < fields.len()
        invariant
            i <= fields@.len(),
            count <= i,
            count_named(fields@, name@, 0) == count + count_named(fields@, name@, i as int),
            first == fields@.len() ==> first_named(fields@, name@, 0) == first_named(fields@, name@, i as int),
            first < fields@.len() ==> first_named(fields@, name@, 0) == first && first < i,
            count == 0 <==> first == fields@.len(),
            first <= fields@.len(),
        decreases fields.len() - i,
    {
        if str_eq(fields[i].name.as_str(), name) {
            if first == fields.len() {
                first = i;
            }
            count = count + 1;
        }
        i = i + 1;
    }
    assert(first_named(fields@, name@, i as int) == fields@.len());
    (count, first)
}

fn already_selected(selected: &Vec<String>, column: &str) -> (r: bool)
    ensures
        r == strings_view(selected@).contains(column@),
{
    let mut i: usize = 0;
    while i < selected.len()
        invariant
            i <= selected@.len(),
            forall|j: int| 0 <= j < i ==> selected@[j]@ != column@,
        decreases selected.len() - i,
    {
        if str_eq(selected[i].as_str(), column) {
            assert(strings_view(selected@)[i as int] == column@);
            return true;
        }
        i = i + 1;
    }
    assert(!strings_view(selected@).contains(column@)) by {
        assert forall|j: int| 0 <= j < strings_view(selected@).len() implies strings_view(
            selected@,
        )[j] != column@ by {
            assert(strings_view(selected@)[j] == selected@[j]@);
        }
    }
    false
}

/// Checks a blob column selection against the source schema and returns the
/// selected column names. Each selected column must be named once, exist
/// exactly once in the schema, and hold strings; the first refused selection
/// is reported.
pub fn validate_blob_columns(fields: &Vec<Field>, blob_columns: &Vec<BlobColumnSpec>) -> (r: Result<
    Vec<String>,
    ConversionError,
>)
    ensures
        match blob_selection_error(fields@, blob_columns_view(blob_columns@), 0) {
            Some(m) => r matches Err(e) && e@ == ConversionErrorView::InvalidBlobSpec(m),
            None => r matches Ok(selected) && strings_view(selected@) == blob_columns_view(
                blob_columns@,
            ),
        },
{
    let ghost wanted = blob_columns_view(blob_columns@);
    let mut selected: Vec<String> = Vec::new();
    let mut k: usize = 0;
    while k < blob_columns.len()
        invariant
            wanted == blob_columns_view(blob_columns@),
            k <= blob_columns@.len(),
            strings_view(selected@) == wanted.subrange(0, k as int),
            blob_selection_error(fields@, wanted, 0) == blob_selection_error(fields@, wanted, k as int),
        decreases blob_columns.len() - k,
    {
        let column = blob_columns[k].column.as_str();
        assert(wanted[k as int] == column@);
        if already_selected(&selected, column) {
            return Err(
                ConversionError::InvalidBlobSpec(
                    concat3("column '", column, "' is selected more than once"),
                ),
            );
        }
        let (count, first) = count_and_find(fields, column);
        proof {
            lemma_first_named_bounds(fields@, column@, 0);
        }
        if count == 0 {
            return Err(
                ConversionError::InvalidBlobSpec(
                    concat3("selected column '", column, "' does not exist"),
                ),
            );
        }
        if count > 1 {
            return Err(
                ConversionError::InvalidBlobSpec(
                    concat3("selected column '", column, "' is duplicated in the source schema"),
                ),
            );
        }
        if !is_blob_eligible(&fields[first].data_type) {
            let mut message = concat3(
                "selected column '",
                column,
                "' must have type Utf8 or LargeUtf8, found ",
            );
            message.append(fields[first].display_type.as_str());
            return Err(ConversionError::InvalidBlobSpec(message));
        }
        let name = blob_columns[k].column.clone();
        let ghost before = selected@;
        selected.push(name);
        proof {
            assert(strings_view(selected@) =~= strings_view(before).push(column@));
            assert(wanted.subrange(0, k + 1) =~= wanted.subrange(0, k as int).push(wanted[k as int]));
        }
        k = k + 1;
    }
    proof {
        assert(wanted.subrange(0, k as int) =~= wanted);
    }
    Ok(selected)
}

/// One top-level column reported by a schema inspection.
#[derive(Debug, PartialEq, Eq)]
pub struct SourceColumn {
    pub name: String,
    pub data_type: String,
    pub nullable: bool,
    pub blob_eligible: bool,
}

/// The columns of a validated source schema.
#[derive(Debug, PartialEq, Eq)]
pub struct SourceSchemaInspection {
    pub columns: Vec<SourceColumn>,
}

/// The report of one field: its name, displayed type, nullability, and
/// whether it can be ingested as a blob.
pub open spec fn column_report(field: Field, column: SourceColumn) -> bool {
    &&& column.name@ == field.name@
    &&& column.data_type@ == field.display_type@
    &&& column.nullable == field.nullable
    &&& column.blob_eligible == blob_eligible(field.data_type)
}

/// Reports each top-level field of a schema, in order.
pub fn inspect_columns(fields: &Vec<Field>) -> (r: SourceSchemaInspection)
    ensures
        r.columns@.len() == fields@.len(),
        forall|i: int| 0 <= i < fields@.len() ==> column_report(fields@[i], r.columns@[i]),
{
    let mut columns: Vec<SourceColumn> = Vec::new();
    let mut i: usize = 0;
    while i < fields.len()
        invariant
            i <= fields@.len(),
            columns@.len() == i,
            forall|j: int| 0 <= j < i ==> column_report(fields@[j], columns@[j]),
        decreases fields.len() - i,
    {
        let field = &fields[i];
        columns.push(
            SourceColumn {
                name: field.name.clone(),
                data_type: field.display_type.clone(),
                nullable: field.nullable,
                blob_eligible: is_blob_eligible(&field.data_type),
            },
        );
        i = i + 1;
    }
    SourceSchemaInspection { columns }
}

} // verus!
