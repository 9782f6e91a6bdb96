//! Rules of the command-line client: index arguments, the API base URL,
//! listing query parameters, and error messages read from API responses.

use vstd::prelude::*;
use vstd::string::*;
use vstd::utf8::encode_utf8;
use crate::job::{BlobColumnSpec, IndexSpec, IndexType, invalid_value_message, strings_view, blob_columns_view};
use crate::text::{str_eq, chars_of, concat, concat3, decimal, decimal_string, find, split_once, substring, trim, trim_end_char, trimmed, trimmed_end};
use crate::web::{encode_path_segment, encoded_bytes};

verus! {

/// Message for an index argument without a colon.
pub open spec fn index_format_message(value: Seq<char>) -> Seq<char> {
    "expected COLUMN:TYPE, got '"@ + value + "'; type is scalar, text, or vector"@
}

/// Message for an index argument with an empty column.
pub open spec fn empty_index_column_message() -> Seq<char> {
    "index column must not be empty"@
}

/// The index type an index argument names: `scalar`, `text` (a full-text,
/// inverted index) or `vector`.
pub open spec fn argument_index_type(name: Seq<char>) -> Option<IndexType> {
    if name == "scalar"@ {
        Some(IndexType::Scalar)
    } else if name == "text"@ {
        Some(IndexType::Inverted)
    } else if name == "vector"@ {
        Some(IndexType::Vector)
    } else {
        None
    }
}

/// What an index argument `column:type` denotes.
pub open spec fn index_argument(value: Seq<char>) -> Result<(Seq<char>, IndexType), Seq<char>> {
    match split_once(value, ":"@) {
        None => Err(index_format_message(value)),
        Some((column, index_type)) => if column.len() == 0 {
            Err(empty_index_column_message())
        } else {
            match argument_index_type(index_type) {
                Some(t) => Ok((column, t)),
                None => Err(invalid_value_message("IndexType"@, index_type)),
            }
        },
    }
}

/// Parses a `column:type` index argument, splitting at the first colon.
pub fn parse_index_spec(value: &str) -> (r: Result<IndexSpec, String>)
    ensures
        match index_argument(value@) {
            Ok((column, index_type)) => r matches Ok(spec) && strings_view(spec.columns@) == seq![column]
                && spec.index_type == index_type,
            Err(message) => r matches Err(m) && m@ == message,
        },
{
    proof {
        reveal_strlit(":");
    }
    let chars = chars_of(value);
    let colon = chars_of(":");
    assert(colon@.len() == 1);
    let at = match find(&chars, &colon) {
        Some(i) => i,
        None => {
            return Err(concat3("expected COLUMN:TYPE, got '", value, "'; type is scalar, text, or vector"));
        },
    };
    assert(at + 1 <= chars@.len());
    assert(at < chars.len());
    let column = substring(value, 0, at);
    let index_type = substring(value, at + 1, chars.len());
    if column.unicode_len() == 0 {
        return Err(String::from_str("index column must not be empty"));
    }
    let parsed = if str_eq(index_type.as_str(), "scalar") {
        IndexType::Scalar
    } else if str_eq(index_type.as_str(), "text") {
        IndexType::Inverted
    } else if str_eq(index_type.as_str(), "vector") {
        IndexType::Vector
    } else {
        proof {
            reveal_strlit("invalid IndexType value: ");
            reveal_strlit("invalid ");
            reveal_strlit("IndexType");
            reveal_strlit(" value: ");
            assert("invalid IndexType value: "@ =~= "invalid "@ + "IndexType"@ + " value: "@);
        }
        return Err(concat("invalid IndexType value: ", index_type.as_str()));
    };
    let mut columns: Vec<String> = Vec::new();
    columns.push(column);
    proof {
        assert(strings_view(columns@) =~= seq![columns@[0]@]);
    }
    Ok(IndexSpec { columns, index_type: parsed })
}

/// The API base URL: the argument without surrounding white space and
/// trailing slashes, when anything is left.
pub open spec fn base_url_of(base_url: Seq<char>) -> Option<Seq<char>> {
    let normalized = trimmed_end(trimmed(base_url), '/');
    if normalized.len() == 0 {
        None
    } else {
        Some(normalized)
    }
}

/// Normalizes the API base URL; `None` means it is unusable.
pub fn normalize_base_url(base_url: &str) -> (r: Option<String>)
    ensures
        crate::uri::opt_view(r) == base_url_of(base_url@),
{
    let trimmed = trim(base_url);
    let normalized = trim_end_char(trimmed.as_str(), '/');
    if normalized.unicode_len() == 0 {
        None
    } else {
        Some(normalized)
    }
}

/// The URL of an API path.
pub fn endpoint(base_url: &str, path: &str) -> (r: String)
    ensures
        r@ == base_url@ + path@,
{
    concat(base_url, path)
}

/// The API path of one job, keyed by its destination.
pub fn job_path(destination_uri: &str) -> (r: String)
    ensures
        r@ == "/v1/jobs/"@ + encoded_bytes(encode_utf8(destination_uri@)),
{
    concat("/v1/jobs/", encode_path_segment(destination_uri).as_str())
}

/// The query parameters of a listing, in order: the creator, the failed and
/// ongoing flags when set, and the limit.
pub open spec fn listing_params(
    creator: Option<Seq<char>>,
    failed_only: bool,
    ongoing_only: bool,
    limit: Option<usize>,
) -> Seq<(Seq<char>, Seq<char>)> {
    (match creator {
        Some(c) => seq![("creator"@, c)],
        None => Seq::empty(),
    }) + (if failed_only {
        seq![("failed_only"@, "true"@)]
    } else {
        Seq::empty()
    }) + (if ongoing_only {
        seq![("ongoing_only"@, "true"@)]
    } else {
        Seq::empty()
    }) + (match limit {
        Some(l) => seq![("limit"@, decimal(l as nat))],
        None => Seq::empty(),
    })
}

/// Builds the query parameters of a listing.
pub fn list_query_pairs(creator: Option<&str>, failed_only: bool, ongoing_only: bool, limit: Option<usize>) -> (r:
    Vec<(String, String)>)
    ensures
        crate::uri::pairs_view(r@) == listing_params(
            match creator {
                Some(c) => Some(c@),
                None => None,
            },
            failed_only,
            ongoing_only,
            limit,
        ),
{
    let mut query: Vec<(String, String)> = Vec::new();
    let ghost mut expected: Seq<(Seq<char>, Seq<char>)> = Seq::empty();
    if let Some(c) = creator {
        query.push((String::from_str("creator"), c.to_owned()));
        proof {
            expected = expected.push(("creator"@, c@));
        }
    }
    assert(crate::uri::pairs_view(query@) =~= expected);
    if failed_only {
        query.push((String::from_str("failed_only"), String::from_str("true")));
        proof {
            expected = expected.push(("failed_only"@, "true"@));
        }
    }
    assert(crate::uri::pairs_view(query@) =~= expected);
    if ongoing_only {
        query.push((String::from_str("ongoing_only"), String::from_str("true")));
        proof {
            expected = expected.push(("ongoing_only"@, "true"@));
        }
    }
    assert(crate::uri::pairs_view(query@) =~= expected);
    if let Some(l) = limit {
        query.push((String::from_str("limit"), decimal_string(l as u64)));
        proof {
            expected = expected.push(("limit"@, decimal(l as nat)));
        }
    }
    assert(crate::uri::pairs_view(query@) =~= expected);
    assert(expected =~= listing_params(
        match creator {
            Some(c) => Some(c@),
            None => None,
        },
        failed_only,
        ongoing_only,
        limit,
    ));
    query
}

/// The blob column selections of a submission, one per named column.
pub fn blob_column_specs(columns: Vec<String>) -> (r: Vec<BlobColumnSpec>)
    ensures
        blob_columns_view(r@) == strings_view(columns@),
{
    let mut specs: Vec<BlobColumnSpec> = Vec::new();
    let mut i: usize = 0;
    while i < columns.len()
        invariant
            i <= columns@.len(),
            blob_columns_view(specs@) == strings_view(columns@).subrange(0, i as int),
        decreases columns.len() - i,
    {
        let ghost before = specs@;
        specs.push(BlobColumnSpec { column: columns[i].clone() });
        proof {
            assert(blob_columns_view(specs@) =~= blob_columns_view(before).push(columns@[i as int]@));
            assert(strings_view(columns@).subrange(0, i + 1) =~= strings_view(columns@).subrange(
                0,
                i as int,
            ).push(columns@[i as int]@));
        }
        i = i + 1;
    }
    assert(strings_view(columns@).subrange(0, i as int) =~= strings_view(columns@));
    specs
}

/// The message of a failed API response: the `error` field of its JSON
/// body, or else its trimmed text, or else the status text when that is
/// empty.
pub open spec fn response_error_message(status_text: Seq<char>, body_error: Option<Seq<char>>, body_text: Seq<char>) -> Seq<
    char,
> {
    let message = match body_error {
        Some(e) => e,
        None => trimmed(body_text),
    };
    if message.len() == 0 {
        status_text
    } else {
        message
    }
}

/// Chooses the message of a failed API response.
pub fn api_error_message(status_text: &str, body_error: Option<String>, body_text: &str) -> (r: String)
    ensures
        r@ == response_error_message(status_text@, crate::uri::opt_view(body_error), body_text@),
{
    let message = match body_error {
        Some(e) => e,
        None => trim(body_text),
    };
    if message.unicode_len() == 0 {
        String::from_str(status_text)
    } else {
        message
    }
}

} // verus!
