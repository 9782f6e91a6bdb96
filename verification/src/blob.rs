//! Blob V2 ingestion of URL columns: which columns become blobs, which URLs
//! are accepted, and which rows are dropped because their blob is missing.

use vstd::prelude::*;
use vstd::string::*;
use crate::converter::ConversionError;
use crate::job::{BlobColumnSpec, blob_columns_view, strings_view};
use crate::schema::{Field, blob_selection_error, validate_blob_columns};
use crate::text::{decimal, decimal_string, has_prefix, starts_with, str_eq};
use crate::uri::{UrlParts, UrlPartsView, pairs_view, parse_url, parsed_url};

verus! {

/// The model of a URL parse outcome.
pub open spec fn parse_view(parsed: Result<UrlParts, String>) -> Result<UrlPartsView, Seq<char>> {
    match parsed {
        Ok(parts) => Ok(parts@),
        Err(message) => Err(message@),
    }
}

/// `blob column '<column>' row <row>`, the start of every URL refusal.
pub open spec fn row_label(column: Seq<char>, row: usize) -> Seq<char> {
    "blob column '"@ + column + "' row "@ + decimal(row as nat)
}

/// The schemes whose blob values are fetched over HTTP.
pub open spec fn is_http_scheme(scheme: Seq<char>) -> bool {
    scheme == "http"@ || scheme == "https"@
}

/// Which blob URLs are accepted: absolute file URLs, and `s3`, `http`, or
/// `https` URLs with a host. Anything else is refused with a message naming
/// the column and row.
pub open spec fn blob_url_check(parsed: Result<UrlPartsView, Seq<char>>, column: Seq<char>, row: usize) -> Result<
    UrlPartsView,
    Seq<char>,
> {
    match parsed {
        Err(error) => Err(row_label(column, row) + " is not a valid absolute URL: "@ + error),
        Ok(url) => if url.scheme == "file"@ {
            if has_prefix(url.path, "/"@) {
                Ok(url)
            } else {
                Err(row_label(column, row) + " must use an absolute file URL"@)
            }
        } else if (url.scheme == "s3"@ || is_http_scheme(url.scheme)) && url.host is Some {
            Ok(url)
        } else {
            Err(
                row_label(column, row) + " uses unsupported URL scheme '"@ + url.scheme
                    + "'; supported schemes are file, s3, http, and https"@,
            )
        },
    }
}

fn row_label_text(column: &str, row: usize) -> (r: String)
    ensures
        r@ == row_label(column@, row),
{
    let mut label = String::from_str("blob column '");
    label.append(column);
    label.append("' row ");
    label.append(decimal_string(row as u64).as_str());
    label
}

fn is_http(scheme: &str) -> (r: bool)
    ensures
        r == is_http_scheme(scheme@),
{
    str_eq(scheme, "http") || str_eq(scheme, "https")
}

/// Applies the blob URL rules to an already parsed value.
pub fn check_blob_url(parsed: Result<UrlParts, String>, column: &str, row: usize) -> (r: Result<
    UrlParts,
    String,
>)
    ensures
        match blob_url_check(parse_view(parsed), column@, row) {
            Ok(url) => r matches Ok(p) && p@ == url,
            Err(message) => r matches Err(m) && m@ == message,
        },
{
    match parsed {
        Err(error) => {
            let mut message = row_label_text(column, row);
            message.append(" is not a valid absolute URL: ");
            message.append(error.as_str());
            Err(message)
        },
        Ok(url) => {
            if str_eq(url.scheme.as_str(), "file") {
                if starts_with(url.path.as_str(), "/") {
                    Ok(url)
                } else {
                    let mut message = row_label_text(column, row);
                    message.append(" must use an absolute file URL");
                    Err(message)
                }
            } else if (str_eq(url.scheme.as_str(), "s3") || is_http(url.scheme.as_str()))
                && url.host.is_some() {
                Ok(url)
            } else {
                let mut message = row_label_text(column, row);
                message.append(" uses unsupported URL scheme '");
                message.append(url.scheme.as_str());
                message.append("'; supported schemes are file, s3, http, and https");
                Err(message)
            }
        },
    }
}

/// Parses a blob value as a URL and applies the blob URL rules.
pub fn validate_blob_uri(value: &str, column: &str, row: usize) -> (r: Result<UrlParts, String>)
    ensures
        match blob_url_check(parsed_url(value@), column@, row) {
            Ok(url) => r matches Ok(p) && p@ == url,
            Err(message) => r matches Err(m) && m@ == message,
        },
{
    check_blob_url(parse_url(value), column, row)
}

/// The value a blob column holds for one row while a batch is converted.
/// `Missing` marks an HTTP blob that is still to be fetched, or that the
/// server no longer has.
#[derive(Debug, PartialEq, Eq)]
pub enum BlobValue {
    Null,
    Bytes(Vec<u8>),
    Uri(String),
    Missing,
}

/// Classifies one source value of a blob column.
pub fn classify_blob_value(value: Option<&str>, column: &str, row: usize) -> (r: Result<
    BlobValue,
    String,
>)
    ensures
        value is None ==> r == Ok::<BlobValue, String>(BlobValue::Null),
        value matches Some(text) ==> match blob_url_check(parsed_url(text@), column@, row) {
            Err(message) => r matches Err(m) && m@ == message,
            Ok(url) => if is_http_scheme(url.scheme) {
                r == Ok::<BlobValue, String>(BlobValue::Missing)
            } else {
                r matches Ok(BlobValue::Uri(u)) && u@ == text@
            },
        },
{
    match value {
        None => Ok(BlobValue::Null),
        Some(text) => {
            let url = validate_blob_uri(text, column, row)?;
            if is_http(url.scheme.as_str()) {
                Ok(BlobValue::Missing)
            } else {
                Ok(BlobValue::Uri(text.to_owned()))
            }
        },
    }
}

/// How an HTTP blob fetch ended, by response status.
#[derive(Debug, Clone, Copy, PartialEq, Eq, Structural)]
pub enum FetchOutcome {
    /// 404 or 410: the blob is gone and its row is dropped.
    Gone,
    /// Any other status outside 2xx: the conversion fails.
    Failed,
    /// A 2xx status: the body is the blob.
    Fetched,
}

/// The outcome of a blob fetch answered with `status`.
pub open spec fn fetch_outcome_of(status: u16) -> FetchOutcome {
    if status == 404 || status == 410 {
        FetchOutcome::Gone
    } else if status < 200 || status > 299 {
        FetchOutcome::Failed
    } else {
        FetchOutcome::Fetched
    }
}

/// Only 404 and 410 mark a blob as gone: a fetch is gone exactly when
/// the status is 404 or 410, fetched exactly when it is a 2xx status, and a
/// failure for every other status.
pub proof fn lemma_only_missing_blobs_are_gone(status: u16)
    ensures
        fetch_outcome_of(status) == FetchOutcome::Gone <==> (status == 404 || status == 410),
        fetch_outcome_of(status) == FetchOutcome::Fetched <==> (200 <= status && status <= 299),
        fetch_outcome_of(status) == FetchOutcome::Failed <==> !(status == 404 || status == 410 || (200 <= status
            && status <= 299)),
{
}

/// Classifies the response status of a blob fetch.
pub fn fetch_outcome(status: u16) -> (r: FetchOutcome)
    ensures
        r == fetch_outcome_of(status),
{
    if status == 404 || status == 410 {
        FetchOutcome::Gone
    } else if status < 200 || status > 299 {
        FetchOutcome::Failed
    } else {
        FetchOutcome::Fetched
    }
}

/// Stores fetched bytes for one row of one blob column; a gone blob stays
/// missing.
pub fn record_fetched(values: &mut Vec<Vec<BlobValue>>, slot: usize, row: usize, bytes: Option<Vec<u8>>)
    requires
        slot < old(values)@.len(),
        row < old(values)@[slot as int]@.len(),
    ensures
        final(values)@.len() == old(values)@.len(),
        forall|s: int| 0 <= s < old(values)@.len() && s != slot ==> final(values)@[s] == old(values)@[s],
        final(values)@[slot as int]@.len() == old(values)@[slot as int]@.len(),
        forall|i: int|
            0 <= i < old(values)@[slot as int]@.len() && i != row ==> final(values)@[slot as int]@[i]
                == old(values)@[slot as int]@[i],
        match bytes {
            Some(b) => final(values)@[slot as int]@[row as int] == BlobValue::Bytes(b),
            None => final(values)@[slot as int]@[row as int] == old(values)@[slot as int]@[row as int],
        },
{
    if let Some(b) = bytes {
        let mut column: Vec<BlobValue> = Vec::new();
        std::mem::swap(&mut column, &mut values[slot]);
        column.set(row, BlobValue::Bytes(b));
        values.set(slot, column);
    }
}

/// Row `row` is kept: no blob column is missing its value there.
pub open spec fn row_kept(values: Seq<Vec<BlobValue>>, row: int) -> bool {
    forall|s: int| 0 <= s < values.len() ==> !(#[trigger] values[s]@[row] is Missing)
}

/// How many of the first `rows` rows are dropped.
pub open spec fn dropped_rows(values: Seq<Vec<BlobValue>>, rows: int) -> nat
    decreases rows,
{
    if rows <= 0 {
        0
    } else {
        dropped_rows(values, rows - 1) + if row_kept(values, rows - 1) {
            0nat
        } else {
            1nat
        }
    }
}

proof fn lemma_dropped_rows_bound(values: Seq<Vec<BlobValue>>, rows: int)
    requires
        rows >= 0,
    ensures
        dropped_rows(values, rows) <= rows,
    decreases rows,
{
    if rows > 0 {
        lemma_dropped_rows_bound(values, rows - 1);
    }
}

/// Which rows of a batch are kept, and how many are dropped because some
/// blob column is missing its value.
pub fn keep_rows(values: &Vec<Vec<BlobValue>>, rows: usize) -> (r: (Vec<bool>, usize))
    requires
        forall|s: int| 0 <= s < values@.len() ==> #[trigger] values@[s]@.len() == rows,
    ensures
        r.0@.len() == rows,
        forall|row: int| 0 <= row < rows ==> r.0@[row] == row_kept(values@, row),
        r.1 == dropped_rows(values@, rows as int),
{
    let mut keep: Vec<bool> = Vec::new();
    let mut missing: usize = 0;
    let mut row: usize = 0;
    while row < rows
        invariant
            row <= rows,
            keep@.len() == row,
            forall|j: int| 0 <= j < row ==> keep@[j] == row_kept(values@, j),
            missing == dropped_rows(values@, row as int),
            forall|s: int| 0 <= s < values@.len() ==> #[trigger] values@[s]@.len() == rows,
        decreases rows - row,
    {
        let mut kept = true;
        let mut s: usize = 0;
        while s < values.len()
            invariant
                row < rows,
                s <= values@.len(),
                kept == (forall|t: int| 0 <= t < s ==> !(#[trigger] values@[t]@[row as int] is Missing)),
                forall|t: int| 0 <= t < values@.len() ==> #[trigger] values@[t]@.len() == rows,
            decreases values.len() - s,
        {
            if let BlobValue::Missing = values[s][row] {
                kept = false;
            }
            s = s + 1;
        }
        proof {
            lemma_dropped_rows_bound(values@, row as int);
        }
        keep.push(kept);
        if !kept {
            missing = missing + 1;
        }
        row = row + 1;
    }
    (keep, missing)
}

/// How many of `fields[..i]` are selected blob columns.
pub open spec fn slots_before(fields: Seq<Field>, selected: Seq<Seq<char>>, i: int) -> nat
    decreases i,
{
    if i <= 0 || i > fields.len() {
        0
    } else {
        slots_before(fields, selected, i - 1) + if selected.contains(fields[i - 1].name@) {
            1nat
        } else {
            0nat
        }
    }
}

/// The blob slot of field `i`: selected fields are numbered in schema order,
/// other fields have none.
pub open spec fn slot_of(fields: Seq<Field>, selected: Seq<Seq<char>>, i: int) -> Option<usize> {
    if selected.contains(fields[i].name@) {
        Some(slots_before(fields, selected, i) as usize)
    } else {
        None
    }
}

/// The batch-independent part of blob conversion: for each source column,
/// the slot of its blob values, or `None` for columns kept as they are.
#[derive(Debug)]
pub struct BlobPlan {
    pub slots: Vec<Option<usize>>,
    pub blob_count: usize,
}

fn is_selected(selected: &Vec<String>, name: &str) -> (r: bool)
    ensures
        r == strings_view(selected@).contains(name@),
{
    let mut i: usize = 0;
    while i < selected.len()
        invariant
            i <= selected@.len(),
            forall|j: int| 0 <= j < i ==> selected@[j]@ != name@,
        decreases selected.len() - i,
    {
        if str_eq(selected[i].as_str(), name) {
            assert(strings_view(selected@)[i as int] == name@);
            return true;
        }
        i = i + 1;
    }
    assert(!strings_view(selected@).contains(name@)) by {
        assert forall|j: int| 0 <= j < strings_view(selected@).len() implies strings_view(
            selected@,
        )[j] != name@ by {
            assert(strings_view(selected@)[j] == selected@[j]@);
        }
    }
    false
}

proof fn lemma_slots_before_bound(fields: Seq<Field>, selected: Seq<Seq<char>>, i: int)
    requires
        0 <= i <= fields.len(),
    ensures
        slots_before(fields, selected, i) <= i,
    decreases i,
{
    if i > 0 {
        lemma_slots_before_bound(fields, selected, i - 1);
    }
}

impl BlobPlan {
    /// Validates the blob selection against the schema and numbers the
    /// selected columns in schema order.
    pub fn new(fields: &Vec<Field>, blob_columns: &Vec<BlobColumnSpec>) -> (r: Result<
        BlobPlan,
        ConversionError,
    >)
        ensures
            match blob_selection_error(fields@, blob_columns_view(blob_columns@), 0) {
                Some(m) => r matches Err(e) && e@ == crate::converter::ConversionErrorView::InvalidBlobSpec(m),
                None => r matches Ok(plan) && plan.slots@.len() == fields@.len() && (forall|i: int|
                    0 <= i < fields@.len() ==> #[trigger] plan.slots@[i] == slot_of(
                        fields@,
                        blob_columns_view(blob_columns@),
                        i,
                    )) && plan.blob_count == slots_before(
                    fields@,
                    blob_columns_view(blob_columns@),
                    fields@.len() as int,
                ),
            },
    {
        let selected = validate_blob_columns(fields, blob_columns)?;
        let ghost names = blob_columns_view(blob_columns@);
        let mut slots: Vec<Option<usize>> = Vec::new();
        let mut next: usize = 0;
        let mut i: usize = 0;
        while i < fields.len()
            invariant
                strings_view(selected@) == names,
                i <= fields@.len(),
                slots@.len() == i,
                next == slots_before(fields@, names, i as int),
                forall|j: int| 0 <= j < i ==> #[trigger] slots@[j] == slot_of(fields@, names, j),
            decreases fields.len() - i,
        {
            proof {
                lemma_slots_before_bound(fields@, names, i as int);
            }
            if is_selected(&selected, fields[i].name.as_str()) {
                slots.push(Some(next));
                next = next + 1;
            } else {
                slots.push(None);
            }
            i = i + 1;
        }
        Ok(BlobPlan { slots, blob_count: next })
    }
}

/// The index of the first entry at or after `i` whose key is `key`.
pub open spec fn first_key_from(metadata: Seq<(Seq<char>, Seq<char>)>, key: Seq<char>, i: int) -> Option<int>
    decreases metadata.len() - i,
{
    if i < 0 || i >= metadata.len() {
        None
    } else if metadata[i].0 == key {
        Some(i)
    } else {
        first_key_from(metadata, key, i + 1)
    }
}

/// The metadata after setting `key` to `value` as a map insert does: the
/// entry of that key takes the new value, or the entry is appended.
pub open spec fn with_entry(metadata: Seq<(Seq<char>, Seq<char>)>, key: Seq<char>, value: Seq<char>) -> Seq<
    (Seq<char>, Seq<char>),
> {
    match first_key_from(metadata, key, 0) {
        Some(i) => metadata.update(i, (key, value)),
        None => metadata.push((key, value)),
    }
}

/// The metadata marks its field as a Lance Blob V2 field.
pub open spec fn is_blob_v2(metadata: Seq<(Seq<char>, Seq<char>)>) -> bool {
    exists|i: int| 0 <= i < metadata.len() && #[trigger] metadata[i] == ("ARROW:extension:name"@, "lance.blob.v2"@)
}

/// Whether some entry is `key: value`.
fn has_entry(metadata: &Vec<(String, String)>, key: &str, value: &str) -> (r: bool)
    ensures
        r == exists|i: int| 0 <= i < metadata@.len() && #[trigger] pairs_view(metadata@)[i] == (key@, value@),
{
    let mut i: usize = 0;
    while i < metadata.len()
        invariant
            i <= metadata@.len(),
            forall|j: int| 0 <= j < i ==> pairs_view(metadata@)[j] != (key@, value@),
        decreases metadata.len() - i,
    {
        if str_eq(metadata[i].0.as_str(), key) && str_eq(metadata[i].1.as_str(), value) {
            assert(pairs_view(metadata@)[i as int] == (key@, value@));
            return true;
        }
        i = i + 1;
    }
    false
}

/// Sets `key` to `value` as a map insert does.
fn set_entry(metadata: &mut Vec<(String, String)>, key: String, value: String)
    ensures
        pairs_view(final(metadata)@) == with_entry(pairs_view(old(metadata)@), key@, value@),
{
    let ghost m = pairs_view(metadata@);
    let mut i: usize = 0;
    while i < metadata.len()
        invariant
            i <= metadata@.len(),
            m == pairs_view(metadata@),
            m == pairs_view(old(metadata)@),
            first_key_from(m, key@, 0) == first_key_from(m, key@, i as int),
        decreases metadata.len() - i,
    {
        if str_eq(metadata[i].0.as_str(), key.as_str()) {
            assert(first_key_from(m, key@, i as int) == Some(i as int));
            let ghost kv = (key@, value@);
            assert(with_entry(m, kv.0, kv.1) == m.update(i as int, kv));
            metadata.set(i, (key, value));
            assert(pairs_view(metadata@) =~= m.update(i as int, kv));
            return;
        }
        i = i + 1;
    }
    metadata.push((key, value));
    assert(pairs_view(metadata@) =~= m.push((key@, value@)));
}

/// The metadata of a field that is not selected as a blob column: a field
/// already marked as Blob V2 gets the converter's inline and dedicated size
/// thresholds in decimal, replacing earlier values; any other field keeps its
/// metadata.
pub fn blob_v2_metadata(metadata: &Vec<(String, String)>, inline_threshold: usize, dedicated_threshold: usize) -> (r:
    Vec<(String, String)>)
    requires
        dedicated_threshold > 0,
    ensures
        !is_blob_v2(pairs_view(metadata@)) ==> pairs_view(r@) == pairs_view(metadata@),
        is_blob_v2(pairs_view(metadata@)) ==> pairs_view(r@) == with_entry(
            with_entry(pairs_view(metadata@), "lance-encoding:blob-inline-size-threshold"@, decimal(inline_threshold as nat)),
            "lance-encoding:blob-dedicated-size-threshold"@,
            decimal(dedicated_threshold as nat),
        ),
{
    let mut out: Vec<(String, String)> = Vec::new();
    let mut i: usize = 0;
    while i < metadata.len()
        invariant
            i <= metadata@.len(),
            out@.len() == i,
            forall|j: int| 0 <= j < i ==> pairs_view(out@)[j] == pairs_view(metadata@)[j],
        decreases metadata.len() - i,
    {
        let (k, v) = &metadata[i];
        out.push((k.clone(), v.clone()));
        i = i + 1;
    }
    assert(pairs_view(out@) =~= pairs_view(metadata@));
    let marked = has_entry(metadata, "ARROW:extension:name", "lance.blob.v2");
    if marked {
        set_entry(&mut out, String::from_str("lance-encoding:blob-inline-size-threshold"), decimal_string(inline_threshold as u64));
        set_entry(&mut out, String::from_str("lance-encoding:blob-dedicated-size-threshold"), decimal_string(dedicated_threshold as u64));
    }
    out
}

} // verus!
