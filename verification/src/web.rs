//! Request rules of the web control plane: job listing queries, job
//! submissions, error responses, job URLs, and asset cache tokens.

use vstd::prelude::*;
use vstd::string::*;
use vstd::utf8::encode_utf8;
use vstd::std_specs::hash::DefaultHasherAdditionalSpecFns;
use std::collections::hash_map::DefaultHasher;
use std::hash::Hasher;
use crate::clock::now_ms;
use crate::job::{BlobColumnSpec, IndexSpec, JobKind, NewJob};
use crate::lifecycle::{StoreError, StoreErrorView, store_error_message};
use crate::location::{DatasetLocation, LocationError, location_error_message, spec_parse_kind};
use crate::ordering::JobOrderField;
use crate::store::JobQuery;
use crate::text::{digit_char, chars_of, concat, concat3, lower_hex, lower_hex_string, matches_at, occurs_at, push_char, str_eq, trim, trimmed};
use crate::uri::opt_view;

verus! {

/// The most jobs one listing returns.
pub const DEFAULT_JOB_LIST_LIMIT: usize = 100;

/// An error answered by the web API.
#[derive(Debug, PartialEq, Eq)]
pub enum ApiError {
    BadRequest(String),
    Store(StoreError),
}

/// The model of an API error.
pub enum ApiErrorView {
    BadRequest(Seq<char>),
    Store(StoreErrorView),
}

impl View for ApiError {
    type V = ApiErrorView;

    open spec fn view(&self) -> ApiErrorView {
        match self {
            ApiError::BadRequest(m) => ApiErrorView::BadRequest(m@),
            ApiError::Store(e) => ApiErrorView::Store(e@),
        }
    }
}

/// The HTTP status of an API error: bad input is 400, a missing job 404, a
/// conflict 409, and every other store failure 500.
pub open spec fn api_status(error: ApiErrorView) -> u16 {
    match error {
        ApiErrorView::BadRequest(_) => 400,
        ApiErrorView::Store(StoreErrorView::InvalidInput(_)) => 400,
        ApiErrorView::Store(StoreErrorView::NotFound) => 404,
        ApiErrorView::Store(StoreErrorView::Conflict(_)) => 409,
        ApiErrorView::Store(_) => 500,
    }
}

/// The text of an API error.
pub open spec fn api_error_text(error: ApiErrorView) -> Seq<char> {
    match error {
        ApiErrorView::BadRequest(m) => m,
        ApiErrorView::Store(e) => store_error_message(e),
    }
}

/// The `error` field of the response body: the error's text, except that
/// internal failures are not disclosed.
pub open spec fn api_error_body(error: ApiErrorView) -> Seq<char> {
    if api_status(error) == 500 {
        "internal server error"@
    } else {
        api_error_text(error)
    }
}

impl ApiError {
    /// The HTTP status answered for this error.
    pub fn status_code(&self) -> (r: u16)
        ensures
            r == api_status(self@),
    {
        match self {
            ApiError::BadRequest(_) => 400,
            ApiError::Store(StoreError::InvalidInput(_)) => 400,
            ApiError::Store(StoreError::NotFound) => 404,
            ApiError::Store(StoreError::Conflict(_)) => 409,
            ApiError::Store(_) => 500,
        }
    }

    /// The text of this error.
    pub fn message(&self) -> (r: String)
        ensures
            r@ == api_error_text(self@),
    {
        match self {
            ApiError::BadRequest(m) => m.clone(),
            ApiError::Store(e) => e.message(),
        }
    }

    /// The `error` field of the response body.
    pub fn body_message(&self) -> (r: String)
        ensures
            r@ == api_error_body(self@),
    {
        if self.status_code() == 500 {
            String::from_str("internal server error")
        } else {
            self.message()
        }
    }
}

/// Internal failures are never disclosed: every 500 answer carries the same
/// body, whatever the failure said.
pub proof fn lemma_internal_errors_are_not_disclosed(error: ApiErrorView)
    ensures
        api_status(error) == 500 ==> api_error_body(error) == "internal server error"@,
        api_status(error) == 500 <==> (error matches ApiErrorView::Store(e) && (e is LeaseLost
            || e is Database || e is Worker)),
{
}

/// The query string of a job listing.
#[derive(Debug)]
pub struct ListJobsQuery {
    pub creator: Option<String>,
    pub failed_only: Option<bool>,
    pub ongoing_only: Option<bool>,
    pub creation_timestamp_ms_from: Option<i64>,
    pub creation_timestamp_ms_to: Option<i64>,
    pub order_by: Option<String>,
    pub order: Option<String>,
    pub limit: Option<usize>,
}

/// Message for an unknown sort field.
pub open spec fn order_field_message(field: Seq<char>) -> Seq<char> {
    "unsupported order field '"@ + field + "'; expected 'creation' or 'update'"@
}

/// Message for an unknown sort direction.
pub open spec fn order_message(order: Seq<char>) -> Seq<char> {
    "unsupported order '"@ + order + "'; expected 'asc' or 'desc'"@
}

/// The sort field a listing asks for.
pub open spec fn order_field_of(order_by: Option<Seq<char>>) -> Result<JobOrderField, Seq<char>> {
    match order_by {
        None => Ok(JobOrderField::CreationTimestamp),
        Some(f) => if f == "creation"@ {
            Ok(JobOrderField::CreationTimestamp)
        } else if f == "update"@ {
            Ok(JobOrderField::UpdateTimestamp)
        } else {
            Err(order_field_message(f))
        },
    }
}

/// Whether a listing sorts newest first.
pub open spec fn descending_of(order: Option<Seq<char>>) -> Result<bool, Seq<char>> {
    match order {
        None => Ok(true),
        Some(o) => if o == "desc"@ {
            Ok(true)
        } else if o == "asc"@ {
            Ok(false)
        } else {
            Err(order_message(o))
        },
    }
}

/// The creator filter: the trimmed name, or none when it is blank.
pub open spec fn creator_filter(creator: Option<Seq<char>>) -> Option<Seq<char>> {
    match creator {
        Some(c) => if trimmed(c).len() > 0 {
            Some(trimmed(c))
        } else {
            None
        },
        None => None,
    }
}

/// The number of jobs a listing returns: the request, or 100, and never more
/// than 100.
pub open spec fn listing_limit(limit: Option<usize>) -> usize {
    match limit {
        Some(l) => if l < DEFAULT_JOB_LIST_LIMIT {
            l
        } else {
            DEFAULT_JOB_LIST_LIMIT
        },
        None => DEFAULT_JOB_LIST_LIMIT,
    }
}

/// The store query a listing request becomes, when its order is understood.
pub open spec fn listing_query(query: ListJobsQuery, result: JobQuery) -> bool {
    &&& opt_view(result.creator) == creator_filter(opt_view(query.creator))
    &&& result.failed_only == (query.failed_only == Some(true))
    &&& result.ongoing_only == (query.ongoing_only == Some(true))
    &&& result.creation_timestamp_ms_from == query.creation_timestamp_ms_from
    &&& result.creation_timestamp_ms_to == query.creation_timestamp_ms_to
    &&& order_field_of(opt_view(query.order_by)) == Ok::<JobOrderField, Seq<char>>(result.order_by)
    &&& descending_of(opt_view(query.order)) == Ok::<bool, Seq<char>>(result.descending)
    &&& result.limit == listing_limit(query.limit)
}

/// Turns a listing request into a store query. An unknown sort field or
/// direction is a bad request, the field checked first.
pub fn job_query_from(query: ListJobsQuery) -> (r: Result<JobQuery, ApiError>)
    ensures
        match order_field_of(opt_view(query.order_by)) {
            Err(m) => r matches Err(e) && e@ == ApiErrorView::BadRequest(m),
            Ok(_) => match descending_of(opt_view(query.order)) {
                Err(m) => r matches Err(e) && e@ == ApiErrorView::BadRequest(m),
                Ok(_) => r matches Ok(q) && listing_query(query, q),
            },
        },
{
    let creator = match &query.creator {
        Some(c) => {
            let t = trim(c.as_str());
            if t.unicode_len() > 0 {
                Some(t)
            } else {
                None
            }
        },
        None => None,
    };
    let limit = match query.limit {
        Some(l) => if l < DEFAULT_JOB_LIST_LIMIT {
            l
        } else {
            DEFAULT_JOB_LIST_LIMIT
        },
        None => DEFAULT_JOB_LIST_LIMIT,
    };
    let order_by = match &query.order_by {
        None => JobOrderField::CreationTimestamp,
        Some(f) => {
            if str_eq(f.as_str(), "creation") {
                JobOrderField::CreationTimestamp
            } else if str_eq(f.as_str(), "update") {
                JobOrderField::UpdateTimestamp
            } else {
                return Err(
                    ApiError::BadRequest(
                        concat3(
                            "unsupported order field '",
                            f.as_str(),
                            "'; expected 'creation' or 'update'",
                        ),
                    ),
                );
            }
        },
    };
    let descending = match &query.order {
        None => true,
        Some(o) => {
            if str_eq(o.as_str(), "desc") {
                true
            } else if str_eq(o.as_str(), "asc") {
                false
            } else {
                return Err(
                    ApiError::BadRequest(
                        concat3("unsupported order '", o.as_str(), "'; expected 'asc' or 'desc'"),
                    ),
                );
            }
        },
    };
    let failed_only = match query.failed_only {
        Some(b) => b,
        None => false,
    };
    let ongoing_only = match query.ongoing_only {
        Some(b) => b,
        None => false,
    };
    Ok(
        JobQuery {
            creator,
            failed_only,
            ongoing_only,
            creation_timestamp_ms_from: query.creation_timestamp_ms_from,
            creation_timestamp_ms_to: query.creation_timestamp_ms_to,
            order_by,
            descending,
            limit,
        },
    )
}

/// A job submission.
#[derive(Debug)]
pub struct CreateJobRequest {
    pub creator: String,
    pub kind: JobKind,
    pub source_uri: String,
    pub destination_uri: String,
    pub blob_columns: Vec<BlobColumnSpec>,
    pub indices: Vec<IndexSpec>,
}

/// Message for a submission without a creator.
pub open spec fn empty_creator_message() -> Seq<char> {
    "creator must not be empty"@
}

fn location_refusal(error: LocationError) -> (r: ApiError)
    ensures
        error matches LocationError::UnsupportedScheme(s) && r@ == ApiErrorView::BadRequest(
            location_error_message(s@),
        ),
{
    ApiError::BadRequest(error.message())
}

/// Why a submission is refused before anything is stored, if it is: a blank
/// creator, then an unsupported source, then an unsupported destination.
pub open spec fn submission_refusal(request: CreateJobRequest) -> Option<Seq<char>> {
    if trimmed(request.creator@).len() == 0 {
        Some(empty_creator_message())
    } else {
        match spec_parse_kind(request.source_uri@) {
            Err(s) => Some(location_error_message(s)),
            Ok(_) => match spec_parse_kind(request.destination_uri@) {
                Err(s) => Some(location_error_message(s)),
                Ok(_) => None,
            },
        }
    }
}

/// The job a valid submission creates at `now_ms`: the trimmed creator, the
/// parsed locations, and the requested blob columns and indexes.
pub open spec fn submitted_job(request: CreateJobRequest, now_ms: i64, job: NewJob) -> bool {
    &&& job.creator@ == trimmed(request.creator@)
    &&& job.kind == request.kind
    &&& job.source@.uri == request.source_uri@
    &&& job.destination@.uri == request.destination_uri@
    &&& job.blob_columns == request.blob_columns
    &&& job.indices == request.indices
    &&& job.creation_timestamp_ms == now_ms
}

/// Builds the job of a submission, given the clock reading taken for it.
pub fn new_job_from(request: CreateJobRequest, now: Result<i64, StoreError>) -> (r: Result<NewJob, ApiError>)
    ensures
        match submission_refusal(request) {
            Some(m) => r matches Err(e) && e@ == ApiErrorView::BadRequest(m),
            None => match now {
                Err(e) => r matches Err(err) && err@ == ApiErrorView::Store(e@),
                Ok(ms) => r matches Ok(job) && submitted_job(request, ms, job),
            },
        },
{
    let creator = trim(request.creator.as_str());
    if creator.unicode_len() == 0 {
        return Err(ApiError::BadRequest(String::from_str("creator must not be empty")));
    }
    let source = match DatasetLocation::parse_location(request.source_uri.as_str()) {
        Ok(l) => l,
        Err(e) => {
            return Err(location_refusal(e));
        },
    };
    let destination = match DatasetLocation::parse_location(request.destination_uri.as_str()) {
        Ok(l) => l,
        Err(e) => {
            return Err(location_refusal(e));
        },
    };
    let creation_timestamp_ms = match now {
        Ok(ms) => ms,
        Err(e) => {
            return Err(ApiError::Store(e));
        },
    };
    Ok(
        NewJob {
            creator,
            kind: request.kind,
            source,
            destination,
            blob_columns: request.blob_columns,
            indices: request.indices,
            creation_timestamp_ms,
        },
    )
}

/// Builds the job of a submission stamped with the current time.
pub fn prepare_new_job(request: CreateJobRequest) -> (r: Result<NewJob, ApiError>)
    ensures
        submission_refusal(request) matches Some(m) ==> r matches Err(e) && e@ == ApiErrorView::BadRequest(m),
        submission_refusal(request) is None ==> match r {
            Ok(job) => submitted_job(request, job.creation_timestamp_ms, job),
            Err(e) => e@ matches ApiErrorView::Store(StoreErrorView::Worker(_)),
        },
{
    let now = now_ms();
    new_job_from(request, now)
}

/// The upper-case hexadecimal digit of `d`.
pub open spec fn upper_hex_digit(d: int) -> char {
    if d < 10 {
        ((d + 48) as u32) as char
    } else {
        ((d + 55) as u32) as char
    }
}

/// A byte that stays as it is in a path segment: an ASCII letter or digit,
/// or one of `-._~`.
pub open spec fn unreserved_byte(b: u8) -> bool {
    (48 <= b <= 57) || (65 <= b <= 90) || (97 <= b <= 122) || b == 45 || b == 46 || b == 95 || b == 126
}

/// The text of one byte in a path segment.
pub open spec fn encoded_byte(b: u8) -> Seq<char> {
    if unreserved_byte(b) {
        seq![(b as u32) as char]
    } else {
        seq!['%', upper_hex_digit((b / 16) as int), upper_hex_digit((b % 16) as int)]
    }
}

/// The percent-encoded text of a byte string.
pub open spec fn encoded_bytes(bytes: Seq<u8>) -> Seq<char>
    decreases bytes.len(),
{
    if bytes.len() == 0 {
        Seq::empty()
    } else {
        encoded_bytes(bytes.drop_last()) + encoded_byte(bytes.last())
    }
}

/// `percent_encoding::percent_encode_byte` gives `%` followed by the byte in
/// two upper-case hexadecimal digits, as its lookup table spells out.
pub assume_specification[ percent_encoding::percent_encode_byte ](byte: u8) -> (r: &'static str)
    ensures
        r@ == seq!['%', upper_hex_digit((byte / 16) as int), upper_hex_digit((byte % 16) as int)],
;

/// Percent-encodes `s` as one URL path segment: its UTF-8 bytes, with every
/// byte other than ASCII letters, digits, and `-._~` written as `%XX`.
pub fn encode_path_segment(s: &str) -> (r: String)
    ensures
        r@ == encoded_bytes(encode_utf8(s@)),
{
    let bytes = s.as_bytes();
    let mut out = String::new();
    let mut i: usize = 0;
    while i < bytes.len()
        invariant
            bytes@ == encode_utf8(s@),
            i <= bytes@.len(),
            out@ == encoded_bytes(bytes@.subrange(0, i as int)),
        decreases bytes.len() - i,
    {
        let b = bytes[i];
        let keep = (48 <= b && b <= 57) || (65 <= b && b <= 90) || (97 <= b && b <= 122) || b == 45
            || b == 46 || b == 95 || b == 126;
        if keep {
            push_char(&mut out, b as char);
        } else {
            out.append(percent_encoding::percent_encode_byte(b));
        }
        proof {
            assert(bytes@.subrange(0, i + 1).drop_last() =~= bytes@.subrange(0, i as int));
            assert(bytes@.subrange(0, i + 1).last() == b);
        }
        i = i + 1;
    }
    assert(bytes@.subrange(0, bytes@.len() as int) =~= bytes@);
    out
}

/// Percent-encoding never produces a slash, so an encoded destination is
/// exactly one path segment.
pub proof fn lemma_encoded_segment_has_no_slash(bytes: Seq<u8>)
    ensures
        forall|i: int| 0 <= i < encoded_bytes(bytes).len() ==> encoded_bytes(bytes)[i] != '/',
    decreases bytes.len(),
{
    if bytes.len() > 0 {
        lemma_encoded_segment_has_no_slash(bytes.drop_last());
        let b = bytes.last();
        let prefix = encoded_bytes(bytes.drop_last());
        let tail = encoded_byte(b);
        assert forall|i: int| 0 <= i < tail.len() implies tail[i] != '/' by {
            if unreserved_byte(b) {
                assert(((b as u32) as char) as u32 == b as u32);
            } else {
                let hi = (b / 16) as int;
                let lo = (b % 16) as int;
                assert(upper_hex_digit(hi) as u32 != 47);
                assert(upper_hex_digit(lo) as u32 != 47);
            }
        }
        assert forall|i: int| 0 <= i < encoded_bytes(bytes).len() implies encoded_bytes(bytes)[i] != '/' by {
            assert(encoded_bytes(bytes) == prefix + tail);
            if i >= prefix.len() {
                assert(encoded_bytes(bytes)[i] == tail[i - prefix.len()]);
            } else {
                assert(encoded_bytes(bytes)[i] == prefix[i]);
            }
        }
    }
}

/// The API path of the job for a destination: `/v1/jobs/` followed by the
/// destination as one encoded path segment.
pub fn job_location(destination_uri: &str) -> (r: String)
    ensures
        r@ == "/v1/jobs/"@ + encoded_bytes(encode_utf8(destination_uri@)),
{
    concat("/v1/jobs/", encode_path_segment(destination_uri).as_str())
}

/// `s[i..]` with every non-overlapping occurrence of `from`, scanning left
/// to right, replaced by `to`, as `str::replace` does for a non-empty
/// pattern.
pub open spec fn replaced_from(s: Seq<char>, from: Seq<char>, to: Seq<char>, i: int) -> Seq<char>
    decreases s.len() - i,
{
    if i < 0 || i >= s.len() {
        Seq::empty()
    } else if from.len() > 0 && occurs_at(s, from, i) {
        to + replaced_from(s, from, to, i + from.len())
    } else {
        seq![s[i]] + replaced_from(s, from, to, i + 1)
    }
}

/// `s` with every occurrence of `from` replaced by `to`.
pub open spec fn replaced(s: Seq<char>, from: Seq<char>, to: Seq<char>) -> Seq<char> {
    replaced_from(s, from, to, 0)
}

/// Replaces every occurrence of a non-empty pattern.
pub fn replace_all(s: &str, from: &str, to: &str) -> (r: String)
    requires
        from@.len() > 0,
    ensures
        r@ == replaced(s@, from@, to@),
{
    let chars = chars_of(s);
    let pat = chars_of(from);
    let mut out = String::new();
    let mut i: usize = 0;
    while i < chars.len()
        invariant
            chars@ == s@,
            pat@ == from@,
            pat@.len() > 0,
            i <= chars@.len(),
            out@ + replaced_from(s@, from@, to@, i as int) == replaced(s@, from@, to@),
        decreases chars.len() - i,
    {
        if matches_at(&chars, &pat, i) {
            let ghost rest = replaced_from(s@, from@, to@, i + pat@.len());
            assert(out@ + to@ + rest == out@ + (to@ + rest));
            out.append(to);
            i = i + pat.len();
        } else {
            let ghost rest = replaced_from(s@, from@, to@, i + 1);
            assert(out@.push(chars@[i as int]) + rest == out@ + (seq![chars@[i as int]] + rest));
            push_char(&mut out, chars[i]);
            i = i + 1;
        }
    }
    assert(out@ + Seq::<char>::empty() == out@);
    out
}

/// The first index at or after `i` where `from` occurs in `s`, or the
/// length of `s` when there is none.
pub open spec fn next_match(s: Seq<char>, from: Seq<char>, i: int) -> int
    decreases s.len() - i,
{
    if i < 0 || i >= s.len() {
        s.len() as int
    } else if occurs_at(s, from, i) {
        i
    } else {
        next_match(s, from, i + 1)
    }
}

/// The replacement copies `s` unchanged up to the next occurrence of the
/// pattern, and writes `to` in its place.
proof fn lemma_replaced_up_to_next_match(s: Seq<char>, from: Seq<char>, to: Seq<char>, i: int)
    requires
        from.len() > 0,
        0 <= i <= s.len(),
    ensures
        i <= next_match(s, from, i) <= s.len(),
        replaced_from(s, from, to, i) == s.subrange(i, next_match(s, from, i)) + replaced_from(
            s,
            from,
            to,
            next_match(s, from, i),
        ),
        next_match(s, from, i) < s.len() ==> occurs_at(s, from, next_match(s, from, i)),
        forall|j: int| i <= j < next_match(s, from, i) ==> !occurs_at(s, from, j),
    decreases s.len() - i,
{
    if i < s.len() && !occurs_at(s, from, i) {
        lemma_replaced_up_to_next_match(s, from, to, i + 1);
        let j = next_match(s, from, i);
        assert(s.subrange(i, j) =~= seq![s[i]] + s.subrange(i + 1, j));
    } else {
        assert(s.subrange(i, i) =~= Seq::<char>::empty());
    }
}

/// A replacement changes nothing where the pattern does not occur.
proof fn lemma_replaced_without_match(s: Seq<char>, from: Seq<char>, to: Seq<char>, i: int)
    requires
        from.len() > 0,
        0 <= i <= s.len(),
        forall|j: int| i <= j < s.len() ==> !occurs_at(s, from, j),
    ensures
        replaced_from(s, from, to, i) == s.subrange(i, s.len() as int),
    decreases s.len() - i,
{
    if i < s.len() {
        lemma_replaced_without_match(s, from, to, i + 1);
        assert(s.subrange(i, s.len() as int) =~= seq![s[i]] + s.subrange(i + 1, s.len() as int));
    } else {
        assert(s.subrange(i, i) =~= Seq::<char>::empty());
    }
}

/// A character that starts an attribute name of an asset link.
pub open spec fn link_lead(c: char) -> bool {
    c == 'h' || c == 's'
}

/// `x` starts with a lead character followed by `r`, as `href` and `src` do.
pub open spec fn starts_link_name(x: Seq<char>) -> bool {
    x.len() >= 2 && link_lead(x[0]) && x[1] == 'r'
}

/// Past its first character, `x` holds no lead character followed by `r`,
/// and does not end with a lead character.
pub open spec fn no_inner_link_name(x: Seq<char>) -> bool {
    forall|e: int| 1 <= e < x.len() && link_lead(#[trigger] x[e]) ==> e + 1 < x.len() && x[e + 1] != 'r'
}

/// When `to` neither starts with `pat` nor lets `pat` start inside it or
/// run into it, replacing `from` by `to` leaves no occurrence of `pat`
/// except where `s` held one that was not also an occurrence of `from`.
proof fn lemma_replaced_leaves_no_occurrence(s: Seq<char>, from: Seq<char>, to: Seq<char>, pat: Seq<char>, i: int)
    requires
        from.len() > 0,
        0 <= i <= s.len(),
        starts_link_name(pat),
        no_inner_link_name(pat),
        starts_link_name(to),
        no_inner_link_name(to),
        pat.len() <= to.len(),
        to.subrange(0, pat.len() as int) != pat,
        forall|j: int| i <= j && #[trigger] occurs_at(s, pat, j) ==> occurs_at(s, from, j),
    ensures
        forall|p: int| !#[trigger] occurs_at(replaced_from(s, from, to, i), pat, p),
    decreases s.len() - i,
{
    let o = replaced_from(s, from, to, i);
    if i >= s.len() {
        return;
    }
    if occurs_at(s, from, i) {
        let next = i + from.len();
        if next <= s.len() {
            lemma_replaced_leaves_no_occurrence(s, from, to, pat, next);
        }
        let rest = replaced_from(s, from, to, next);
        assert(o == to + rest);
        assert forall|p: int| !#[trigger] occurs_at(o, pat, p) by {
            if occurs_at(o, pat, p) {
                if p >= to.len() {
                    assert(rest.subrange(p - to.len(), p - to.len() + pat.len()) =~= o.subrange(p, p + pat.len()));
                    assert(occurs_at(rest, pat, p - to.len()));
                } else if p == 0 {
                    assert(o.subrange(0, pat.len() as int) =~= to.subrange(0, pat.len() as int));
                } else {
                    assert(pat[0] == o.subrange(p, p + pat.len())[0]);
                    assert(o[p] == to[p]);
                    assert(link_lead(to[p]));
                    assert(pat[1] == o.subrange(p, p + pat.len())[1]);
                    assert(o[p + 1] == to[p + 1]);
                }
            }
        }
    } else {
        lemma_replaced_leaves_no_occurrence(s, from, to, pat, i + 1);
        let rest = replaced_from(s, from, to, i + 1);
        assert(o == seq![s[i]] + rest);
        lemma_replaced_up_to_next_match(s, from, to, i);
        let j = next_match(s, from, i);
        assert(j > i);
        assert forall|p: int| !#[trigger] occurs_at(o, pat, p) by {
            if occurs_at(o, pat, p) {
                if p >= 1 {
                    assert(rest.subrange(p - 1, p - 1 + pat.len()) =~= o.subrange(p, p + pat.len()));
                    assert(occurs_at(rest, pat, p - 1));
                } else {
                    let tail = replaced_from(s, from, to, j);
                    assert(o == s.subrange(i, j) + tail);
                    if j - i >= pat.len() {
                        assert(s.subrange(i, i + pat.len()) =~= o.subrange(0, pat.len() as int));
                        assert(occurs_at(s, pat, i));
                    } else {
                        let e = j - i;
                        assert(j < s.len());
                        assert(tail == to + replaced_from(s, from, to, j + from.len()));
                        assert(pat[e] == o.subrange(0, pat.len() as int)[e]);
                        assert(o[e] == to[0]);
                        assert(link_lead(pat[e]));
                        assert(pat[e + 1] == o.subrange(0, pat.len() as int)[e + 1]);
                        assert(o[e + 1] == to[1]);
                    }
                }
            }
        }
    }
}

/// The page with its stylesheet and script links pinned to the assets'
/// content tokens, so browsers refetch them when they change.
pub open spec fn tokened_page(html: Seq<char>, css_token: Seq<char>, js_token: Seq<char>) -> Seq<char> {
    let css = "href=\"/app.css?v="@ + css_token + "\""@;
    let js = "src=\"/app.js?v="@ + js_token + "\""@;
    replaced(
        replaced(
            replaced(replaced(html, "href=\"/app.css\""@, css), "href=\"app.css\""@, css),
            "src=\"/app.js\""@,
            js,
        ),
        "src=\"app.js\""@,
        js,
    )
}

/// Rewrites the asset links of a page to carry the assets' content tokens.
pub fn with_asset_tokens(html: &str, css_token: &str, js_token: &str) -> (r: String)
    ensures
        r@ == tokened_page(html@, css_token@, js_token@),
{
    proof {
        reveal_strlit("href=\"/app.css\"");
        reveal_strlit("href=\"app.css\"");
        reveal_strlit("src=\"/app.js\"");
        reveal_strlit("src=\"app.js\"");
    }
    let css = concat3("href=\"/app.css?v=", css_token, "\"");
    let js = concat3("src=\"/app.js?v=", js_token, "\"");
    let step1 = replace_all(html, "href=\"/app.css\"", css.as_str());
    let step2 = replace_all(step1.as_str(), "href=\"app.css\"", css.as_str());
    let step3 = replace_all(step2.as_str(), "src=\"/app.js\"", js.as_str());
    replace_all(step3.as_str(), "src=\"app.js\"", js.as_str())
}

/// A content token made of lower-case hexadecimal digits, as
/// `content_token` writes it.
pub open spec fn hex_token(t: Seq<char>) -> bool {
    forall|k: int| 0 <= k < t.len() ==> ('0' <= #[trigger] t[k] <= '9') || ('a' <= t[k] <= 'f')
}

/// Every content token is made of lower-case hexadecimal digits.
pub proof fn lemma_content_tokens_are_hex(n: nat)
    ensures
        hex_token(lower_hex(n)),
    decreases n,
{
    let t = lower_hex(n);
    if n >= 16 {
        lemma_content_tokens_are_hex(n / 16);
        assert(t == lower_hex(n / 16).push(digit_char((n % 16) as int)));
    }
    assert forall|k: int| 0 <= k < t.len() implies ('0' <= #[trigger] t[k] <= '9') || ('a' <= t[k] <= 'f') by {
        if k == t.len() - 1 {
            let d = (n % 16) as int;
            assert(t[k] == digit_char(d));
            assert(0 <= d < 16);
        } else {
            assert(t[k] == lower_hex(n / 16)[k]);
        }
    }
}

/// The shapes of the four plain asset links and of the tokened links that
/// replace them.
proof fn lemma_asset_link_shapes(css_token: Seq<char>, js_token: Seq<char>)
    requires
        hex_token(css_token),
        hex_token(js_token),
    ensures
        ({
            let css = "href=\"/app.css?v="@ + css_token + "\""@;
            let js = "src=\"/app.js?v="@ + js_token + "\""@;
            let links = seq!["href=\"/app.css\""@, "href=\"app.css\""@, "src=\"/app.js\""@, "src=\"app.js\""@];
            &&& starts_link_name(css) && no_inner_link_name(css)
            &&& starts_link_name(js) && no_inner_link_name(js)
            &&& forall|k: int| 0 <= k < 4 ==> {
                &&& starts_link_name(#[trigger] links[k])
                &&& no_inner_link_name(links[k])
                &&& links[k].len() <= css.len() && css.subrange(0, links[k].len() as int) != links[k]
                &&& links[k].len() <= js.len() && js.subrange(0, links[k].len() as int) != links[k]
            }
        }),
{
    reveal_strlit("href=\"/app.css?v=");
    reveal_strlit("src=\"/app.js?v=");
    reveal_strlit("\"");
    reveal_strlit("href=\"/app.css\"");
    reveal_strlit("href=\"app.css\"");
    reveal_strlit("src=\"/app.js\"");
    reveal_strlit("src=\"app.js\"");
    let css = "href=\"/app.css?v="@ + css_token + "\""@;
    let js = "src=\"/app.js?v="@ + js_token + "\""@;
    let links = seq!["href=\"/app.css\""@, "href=\"app.css\""@, "src=\"/app.js\""@, "src=\"app.js\""@];
    assert forall|e: int| 1 <= e < css.len() && link_lead(#[trigger] css[e]) implies e + 1 < css.len() && css[e + 1] != 'r' by {
        if e >= 17 && e < 17 + css_token.len() {
            assert(css[e] == css_token[e - 17]);
        }
        assert(e == 12 || e == 13);
    }
    assert forall|e: int| 1 <= e < js.len() && link_lead(#[trigger] js[e]) implies e + 1 < js.len() && js[e + 1] != 'r' by {
        if e >= 15 && e < 15 + js_token.len() {
            assert(js[e] == js_token[e - 15]);
        }
        assert(e == 11);
    }
    assert forall|k: int| 0 <= k < 4 implies {
        &&& starts_link_name(#[trigger] links[k])
        &&& no_inner_link_name(links[k])
        &&& links[k].len() <= css.len() && css.subrange(0, links[k].len() as int) != links[k]
        &&& links[k].len() <= js.len() && js.subrange(0, links[k].len() as int) != links[k]
    } by {
        let l = links[k];
        assert(k == 0 || k == 1 || k == 2 || k == 3);
        if k == 0 {
            assert(css.subrange(0, l.len() as int)[14] != l[14]);
            assert(js.subrange(0, l.len() as int)[0] != l[0]);
        } else if k == 1 {
            assert(css.subrange(0, l.len() as int)[6] != l[6]);
            assert(js.subrange(0, l.len() as int)[0] != l[0]);
        } else if k == 2 {
            assert(css.subrange(0, l.len() as int)[0] != l[0]);
            assert(js.subrange(0, l.len() as int)[12] != l[12]);
        } else {
            assert(css.subrange(0, l.len() as int)[0] != l[0]);
            assert(js.subrange(0, l.len() as int)[5] != l[5]);
        }
        assert forall|e: int| 1 <= e < l.len() && link_lead(#[trigger] l[e]) implies e + 1 < l.len() && l[e + 1] != 'r' by {
            if k == 0 {
                assert(e == 12 || e == 13);
            } else if k == 1 {
                assert(e == 11 || e == 12);
            } else if k == 2 {
                assert(e == 11);
            } else {
                assert(e == 10);
            }
        }
    }
}

/// Pinning asset links leaves no plain asset link on the page, pins a page
/// a second time to the same text, and leaves a page without plain asset
/// links as it was, for tokens of lower-case hexadecimal digits.
pub proof fn lemma_asset_links_are_pinned(html: Seq<char>, css_token: Seq<char>, js_token: Seq<char>)
    requires
        hex_token(css_token),
        hex_token(js_token),
    ensures
        forall|p: int| !#[trigger] occurs_at(tokened_page(html, css_token, js_token), "href=\"/app.css\""@, p),
        forall|p: int| !#[trigger] occurs_at(tokened_page(html, css_token, js_token), "href=\"app.css\""@, p),
        forall|p: int| !#[trigger] occurs_at(tokened_page(html, css_token, js_token), "src=\"/app.js\""@, p),
        forall|p: int| !#[trigger] occurs_at(tokened_page(html, css_token, js_token), "src=\"app.js\""@, p),
        tokened_page(tokened_page(html, css_token, js_token), css_token, js_token) == tokened_page(
            html,
            css_token,
            js_token,
        ),
        (forall|p: int|
            !#[trigger] occurs_at(html, "href=\"/app.css\""@, p) && !occurs_at(html, "href=\"app.css\""@, p)
                && !occurs_at(html, "src=\"/app.js\""@, p) && !occurs_at(html, "src=\"app.js\""@, p))
            ==> tokened_page(html, css_token, js_token) == html,
{
    lemma_asset_link_shapes(css_token, js_token);
    let css = "href=\"/app.css?v="@ + css_token + "\""@;
    let js = "src=\"/app.js?v="@ + js_token + "\""@;
    let links = seq!["href=\"/app.css\""@, "href=\"app.css\""@, "src=\"/app.js\""@, "src=\"app.js\""@];
    let q1 = links[0];
    let q2 = links[1];
    let q3 = links[2];
    let q4 = links[3];
    assert(starts_link_name(q1) && starts_link_name(q2) && starts_link_name(q3) && starts_link_name(q4));
    let o1 = replaced(html, q1, css);
    let o2 = replaced(o1, q2, css);
    let o3 = replaced(o2, q3, js);
    let o4 = replaced(o3, q4, js);
    assert(o4 == tokened_page(html, css_token, js_token));
    lemma_replaced_leaves_no_occurrence(html, q1, css, q1, 0);
    lemma_replaced_leaves_no_occurrence(o1, q2, css, q1, 0);
    lemma_replaced_leaves_no_occurrence(o1, q2, css, q2, 0);
    lemma_replaced_leaves_no_occurrence(o2, q3, js, q1, 0);
    lemma_replaced_leaves_no_occurrence(o2, q3, js, q2, 0);
    lemma_replaced_leaves_no_occurrence(o2, q3, js, q3, 0);
    lemma_replaced_leaves_no_occurrence(o3, q4, js, q1, 0);
    lemma_replaced_leaves_no_occurrence(o3, q4, js, q2, 0);
    lemma_replaced_leaves_no_occurrence(o3, q4, js, q3, 0);
    lemma_replaced_leaves_no_occurrence(o3, q4, js, q4, 0);
    lemma_pin_without_links(o4, css, js, q1, q2, q3, q4);
    lemma_pin_without_links(html, css, js, q1, q2, q3, q4);
}

/// Pinning changes nothing on a page without plain asset links.
proof fn lemma_pin_without_links(
    page: Seq<char>,
    css: Seq<char>,
    js: Seq<char>,
    q1: Seq<char>,
    q2: Seq<char>,
    q3: Seq<char>,
    q4: Seq<char>,
)
    requires
        q1.len() > 0 && q2.len() > 0 && q3.len() > 0 && q4.len() > 0,
    ensures
        (forall|p: int|
            !#[trigger] occurs_at(page, q1, p) && !occurs_at(page, q2, p) && !occurs_at(page, q3, p)
                && !occurs_at(page, q4, p))
            ==> replaced(replaced(replaced(replaced(page, q1, css), q2, css), q3, js), q4, js) == page,
{
    if forall|p: int|
        !#[trigger] occurs_at(page, q1, p) && !occurs_at(page, q2, p) && !occurs_at(page, q3, p)
            && !occurs_at(page, q4, p) {
        assert(page.subrange(0, page.len() as int) =~= page);
        assert forall|j: int| 0 <= j < page.len() implies !#[trigger] occurs_at(page, q1, j) by {}
        lemma_replaced_without_match(page, q1, css, 0);
        assert forall|j: int| 0 <= j < page.len() implies !#[trigger] occurs_at(page, q2, j) by {
            assert(!occurs_at(page, q1, j));
        }
        lemma_replaced_without_match(page, q2, css, 0);
        assert forall|j: int| 0 <= j < page.len() implies !#[trigger] occurs_at(page, q3, j) by {
            assert(!occurs_at(page, q1, j));
        }
        lemma_replaced_without_match(page, q3, js, 0);
        assert forall|j: int| 0 <= j < page.len() implies !#[trigger] occurs_at(page, q4, j) by {
            assert(!occurs_at(page, q1, j));
        }
        lemma_replaced_without_match(page, q4, js, 0);
    }
}

/// The cache token of an asset: the std hash of its text in lower-case
/// hexadecimal. The text is fed to a fresh `DefaultHasher` as `Hash for
/// str` feeds it: its UTF-8 bytes, then the byte `0xff`.
pub fn content_token(body: &str) -> (r: String)
    ensures
        r@ == lower_hex(DefaultHasher::spec_finish(seq![encode_utf8(body@), seq![0xffu8]]) as nat),
{
    let mut hasher = DefaultHasher::new();
    let bytes = body.as_bytes();
    hasher.write(bytes);
    let terminator: [u8; 1] = [0xff];
    let tail = terminator.as_slice();
    hasher.write(tail);
    proof {
        assert(tail@ =~= seq![0xffu8]);
        assert(hasher@ =~= seq![encode_utf8(body@), seq![0xffu8]]);
    }
    lower_hex_string(hasher.finish())
}

} // verus!
