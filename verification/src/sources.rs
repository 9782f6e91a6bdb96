//! Reading source locations: S3 buckets and prefixes, Hugging Face dataset
//! URIs, and which local files are Parquet files.

use vstd::prelude::*;
use vstd::string::*;
use crate::converter::{ConversionError, ConversionErrorView};
use crate::location::{DatasetLocation, DatasetLocationView, LocationError, LocationKind, location_error_message, spec_parse_kind};
use crate::ordering::{chars_lt, lemma_chars_lt_total, lemma_chars_lt_transitive, lemma_chars_lt_irreflexive, str_lt};
use crate::text::{decimal, decimal_string};
use crate::text::{chars_of, matches_at, concat, str_eq, substring, trim_char, trimmed_both};
use crate::uri::{UrlParts, UrlPartsView, pairs_view, parse_url, parsed_url};
use crate::blob::parse_view;

verus! {

/// Message for an S3 URI without a bucket.
pub open spec fn missing_bucket_message() -> Seq<char> {
    "S3 bucket is missing"@
}

/// The URL and bucket of an S3 source, from the outcome of parsing its URI.
pub open spec fn s3_location(parsed: Result<UrlPartsView, Seq<char>>) -> Result<
    (UrlPartsView, Seq<char>),
    Seq<char>,
> {
    match parsed {
        Err(error) => Err(error),
        Ok(url) => match url.host {
            Some(bucket) => if bucket.len() > 0 {
                Ok((url, bucket))
            } else {
                Err(missing_bucket_message())
            },
            None => Err(missing_bucket_message()),
        },
    }
}

/// Splits a parsed S3 URI into its URL and bucket; a missing or empty host
/// is an invalid source.
pub fn s3_bucket(parsed: Result<UrlParts, String>) -> (r: Result<(UrlParts, String), ConversionError>)
    ensures
        match s3_location(parse_view(parsed)) {
            Ok((url, bucket)) => r matches Ok((u, b)) && u@ == url && b@ == bucket,
            Err(message) => r matches Err(e) && e@ == ConversionErrorView::InvalidSource(message),
        },
{
    match parsed {
        Err(error) => Err(ConversionError::InvalidSource(error)),
        Ok(url) => {
            let bucket = match &url.host {
                Some(host) => {
                    if host.unicode_len() > 0 {
                        Some(host.clone())
                    } else {
                        None
                    }
                },
                None => None,
            };
            match bucket {
                Some(b) => Ok((url, b)),
                None => Err(ConversionError::InvalidSource(String::from_str("S3 bucket is missing"))),
            }
        },
    }
}

/// Parses an S3 source URI into its URL and bucket.
pub fn parse_s3_location(source_uri: &str) -> (r: Result<(UrlParts, String), ConversionError>)
    ensures
        match s3_location(parsed_url(source_uri@)) {
            Ok((url, bucket)) => r matches Ok((u, b)) && u@ == url && b@ == bucket,
            Err(message) => r matches Err(e) && e@ == ConversionErrorView::InvalidSource(message),
        },
{
    s3_bucket(parse_url(source_uri))
}

/// The text of the `object_store` path built from `raw`: its `/`-separated
/// parts without empty ones, each encoded as an object path part.
pub uninterp spec fn object_path(raw: Seq<char>) -> Seq<char>;

/// Calls `object_store::path::Path::from(String)` and returns the path's
/// text. The contract names that text and states nothing of the encoding.
#[verifier::external_body]
fn object_path_text(raw: String) -> (r: String)
    ensures
        r@ == object_path(raw@),
{
    object_store::path::Path::from(raw).as_ref().to_owned()
}

/// The object prefix that lists an S3 source directory: the URL path without
/// surrounding slashes, followed by one slash, as an object path.
pub fn directory_prefix(url_path: &str) -> (r: String)
    ensures
        r@ == object_path(trimmed_both(url_path@, '/') + "/"@),
{
    let trimmed = trim_char(url_path, '/');
    object_path_text(concat(trimmed.as_str(), "/"))
}

/// Message for a Hugging Face URI of the wrong shape.
pub open spec fn expected_hf_message() -> Seq<char> {
    "expected hf://datasets/owner/name@revision"@
}

/// The index of the last `c` in `s[..j]`, or `-1`.
pub open spec fn last_index_before(s: Seq<char>, c: char, j: int) -> int
    decreases j,
{
    if j <= 0 || j > s.len() {
        -1
    } else if s[j - 1] == c {
        j - 1
    } else {
        last_index_before(s, c, j - 1)
    }
}

/// The number of non-empty `/`-separated segments of `s[..j]`.
pub open spec fn segment_count(s: Seq<char>, j: int) -> nat
    decreases j,
{
    if j <= 0 || j > s.len() {
        0
    } else {
        segment_count(s, j - 1) + if s[j - 1] != '/' && (j == 1 || s[j - 2] == '/') {
            1nat
        } else {
            0nat
        }
    }
}

/// The value of the first query pair named `key`.
pub open spec fn query_value(pairs: Seq<(Seq<char>, Seq<char>)>, key: Seq<char>, i: int) -> Option<Seq<char>>
    decreases pairs.len() - i,
{
    if i < 0 || i >= pairs.len() {
        None
    } else if pairs[i].0 == key {
        Some(pairs[i].1)
    } else {
        query_value(pairs, key, i + 1)
    }
}

/// A Hugging Face dataset reference: `owner/name`, the revision, and the
/// optional config and split.
#[derive(Debug, PartialEq, Eq)]
pub struct HuggingFaceLocation {
    pub dataset: String,
    pub revision: String,
    pub config: Option<String>,
    pub split: Option<String>,
}

/// The model of a Hugging Face dataset reference.
pub struct HuggingFaceLocationView {
    pub dataset: Seq<char>,
    pub revision: Seq<char>,
    pub config: Option<Seq<char>>,
    pub split: Option<Seq<char>>,
}

impl View for HuggingFaceLocation {
    type V = HuggingFaceLocationView;

    open spec fn view(&self) -> HuggingFaceLocationView {
        HuggingFaceLocationView {
            dataset: self.dataset@,
            revision: self.revision@,
            config: crate::uri::opt_view(self.config),
            split: crate::uri::opt_view(self.split),
        }
    }
}

/// The dataset and revision of a trimmed `hf://datasets/` path: split at the
/// last `@`, with revision `main` when there is none.
pub open spec fn dataset_and_revision(path: Seq<char>) -> (Seq<char>, Seq<char>) {
    let at = last_index_before(path, '@', path.len() as int);
    if at < 0 {
        (path, "main"@)
    } else {
        (path.subrange(0, at), path.subrange(at + 1, path.len() as int))
    }
}

/// What a parsed `hf://datasets/owner/name@revision?config=..&split=..` URI
/// denotes.
pub open spec fn hf_location(parsed: Result<UrlPartsView, Seq<char>>) -> Result<
    HuggingFaceLocationView,
    Seq<char>,
> {
    match parsed {
        Err(error) => Err(error),
        Ok(url) => if url.scheme != "hf"@ || url.host != Some("datasets"@) {
            Err(expected_hf_message())
        } else {
            let path = trimmed_both(url.path, '/');
            let (dataset, revision) = dataset_and_revision(path);
            if segment_count(dataset, dataset.len() as int) != 2 || revision.len() == 0 {
                Err(expected_hf_message())
            } else {
                Ok(
                    HuggingFaceLocationView {
                        dataset,
                        revision,
                        config: query_value(url.query_pairs, "config"@, 0),
                        split: query_value(url.query_pairs, "split"@, 0),
                    },
                )
            }
        },
    }
}

fn last_index_of(chars: &Vec<char>, c: char) -> (r: Option<usize>)
    ensures
        match r {
            Some(i) => i == last_index_before(chars@, c, chars@.len() as int) && i < chars@.len(),
            None => last_index_before(chars@, c, chars@.len() as int) == -1,
        },
{
    let mut j: usize = chars.len();
    while j > 0
        invariant
            j <= chars@.len(),
            last_index_before(chars@, c, chars@.len() as int) == last_index_before(chars@, c, j as int),
        decreases j,
    {
        if chars[j - 1] == c {
            return Some(j - 1);
        }
        j = j - 1;
    }
    None
}

fn count_segments(s: &str) -> (r: usize)
    ensures
        r == segment_count(s@, s@.len() as int),
{
    let chars = chars_of(s);
    let mut count: usize = 0;
    let mut j: usize = 0;
    while j < chars.len()
        invariant
            chars@ == s@,
            j <= chars@.len(),
            count == segment_count(s@, j as int),
            count <= j,
        decreases chars.len() - j,
    {
        if chars[j] != '/' && (j == 0 || chars[j - 1] == '/') {
            count = count + 1;
        }
        j = j + 1;
    }
    count
}

/// The value of the first query pair named `key`.
pub fn query_param(pairs: &Vec<(String, String)>, key: &str) -> (r: Option<String>)
    ensures
        crate::uri::opt_view(r) == query_value(pairs_view(pairs@), key@, 0),
{
    let ghost view = pairs_view(pairs@);
    let mut i: usize = 0;
    while i < pairs.len()
        invariant
            view == pairs_view(pairs@),
            i <= pairs@.len(),
            query_value(view, key@, 0) == query_value(view, key@, i as int),
        decreases pairs.len() - i,
    {
        assert(view[i as int] == (pairs@[i as int].0@, pairs@[i as int].1@));
        if str_eq(pairs[i].0.as_str(), key) {
            return Some(pairs[i].1.clone());
        }
        i = i + 1;
    }
    None
}

impl HuggingFaceLocation {
    /// Reads a parsed Hugging Face URI: scheme `hf`, host `datasets`, a path
    /// of exactly two non-empty segments with an optional `@revision`, and
    /// optional `config` and `split` query values.
    pub fn from_url(parsed: Result<UrlParts, String>) -> (r: Result<HuggingFaceLocation, ConversionError>)
        ensures
            match hf_location(parse_view(parsed)) {
                Ok(location) => r matches Ok(l) && l@ == location,
                Err(message) => r matches Err(e) && e@ == ConversionErrorView::InvalidSource(message),
            },
    {
        let url = match parsed {
            Err(error) => {
                return Err(ConversionError::InvalidSource(error));
            },
            Ok(url) => url,
        };
        let host_ok = match &url.host {
            Some(host) => str_eq(host.as_str(), "datasets"),
            None => false,
        };
        if !str_eq(url.scheme.as_str(), "hf") || !host_ok {
            return Err(ConversionError::InvalidSource(String::from_str("expected hf://datasets/owner/name@revision")));
        }
        let path = trim_char(url.path.as_str(), '/');
        let chars = chars_of(path.as_str());
        let (dataset, revision) = match last_index_of(&chars, '@') {
            Some(at) => {
                assert(at < chars@.len());
                assert(at < chars.len());
                let after = at + 1;
                (substring(path.as_str(), 0, at), substring(path.as_str(), after, chars.len()))
            },
            None => (path.clone(), String::from_str("main")),
        };
        if count_segments(dataset.as_str()) != 2 || revision.unicode_len() == 0 {
            return Err(ConversionError::InvalidSource(String::from_str("expected hf://datasets/owner/name@revision")));
        }
        let config = query_param(&url.query_pairs, "config");
        let split = query_param(&url.query_pairs, "split");
        Ok(HuggingFaceLocation { dataset, revision, config, split })
    }

    /// Parses a Hugging Face dataset URI.
    pub fn parse(source_uri: &str) -> (r: Result<HuggingFaceLocation, ConversionError>)
        ensures
            match hf_location(parsed_url(source_uri@)) {
                Ok(location) => r matches Ok(l) && l@ == location,
                Err(message) => r matches Err(e) && e@ == ConversionErrorView::InvalidSource(message),
            },
    {
        HuggingFaceLocation::from_url(parse_url(source_uri))
    }
}

/// The query of a Hugging Face Parquet listing: the dataset and revision,
/// then the config and the split when they are given.
pub open spec fn hf_listing_query(location: HuggingFaceLocationView) -> Seq<(Seq<char>, Seq<char>)> {
    let base = seq![("dataset"@, location.dataset), ("revision"@, location.revision)];
    let with_config = match location.config {
        Some(c) => base.push(("config"@, c)),
        None => base,
    };
    match location.split {
        Some(split) => with_config.push(("split"@, split)),
        None => with_config,
    }
}

impl HuggingFaceLocation {
    /// The query parameters that list this dataset's Parquet files.
    pub fn listing_query(&self) -> (r: Vec<(String, String)>)
        ensures
            pairs_view(r@) == hf_listing_query(self@),
    {
        let mut query: Vec<(String, String)> = Vec::new();
        query.push((String::from_str("dataset"), self.dataset.clone()));
        query.push((String::from_str("revision"), self.revision.clone()));
        if let Some(config) = &self.config {
            query.push((String::from_str("config"), config.clone()));
        }
        if let Some(split) = &self.split {
            query.push((String::from_str("split"), split.clone()));
        }
        assert(pairs_view(query@) =~= hf_listing_query(self@));
        query
    }
}

/// The files a listing keeps: the first `limit` of them, or all of them
/// when there is no limit.
pub open spec fn limited<T>(files: Seq<T>, limit: Option<usize>) -> Seq<T> {
    match limit {
        Some(l) => if l < files.len() {
            files.take(l as int)
        } else {
            files
        },
        None => files,
    }
}

/// Keeps the first `limit` listed files.
pub fn keep_first<T>(files: &mut Vec<T>, limit: Option<usize>)
    ensures
        final(files)@ == limited(old(files)@, limit),
{
    if let Some(l) = limit {
        files.truncate(l);
        proof {
            if l < old(files)@.len() {
                assert(old(files)@.subrange(0, l as int) =~= old(files)@.take(l as int));
            }
        }
    }
}

/// A listing that stops after `limit` files has reached it at `count` files.
pub fn reached_limit(count: usize, limit: Option<usize>) -> (r: bool)
    ensures
        r == (limit matches Some(l) && count >= l),
{
    match limit {
        Some(l) => count >= l,
        None => false,
    }
}

/// The last component of a slash-separated path, ignoring empty and `.`
/// components, as `Path::file_name` reads it (before excluding `..`).
pub open spec fn last_component(s: Seq<char>) -> Seq<char>
    decreases s.len(),
{
    if s.len() == 0 {
        Seq::empty()
    } else if s.last() == '/' {
        last_component(s.drop_last())
    } else {
        let start = last_index_before(s, '/', s.len() as int) + 1;
        proof {
            lemma_last_index_bounds(s, '/', s.len() as int);
        }
        if s.subrange(start, s.len() as int) == "."@ {
            last_component(s.subrange(0, start))
        } else {
            s.subrange(start, s.len() as int)
        }
    }
}

/// The file name has the extension `parquet`: it ends in `.parquet` and
/// something precedes that dot.
pub open spec fn parquet_file_name(name: Seq<char>) -> bool {
    &&& name.len() > 8
    &&& name.subrange(name.len() - 8, name.len() as int) == ".parquet"@
}

/// The last `c` before `j` lies before `j` and is a `c`.
pub proof fn lemma_last_index_bounds(s: Seq<char>, c: char, j: int)
    requires
        0 <= j <= s.len(),
    ensures
        -1 <= last_index_before(s, c, j) < j,
        last_index_before(s, c, j) >= 0 ==> s[last_index_before(s, c, j)] == c,
    decreases j,
{
    if j > 0 && s[j - 1] != c {
        lemma_last_index_bounds(s, c, j - 1);
    }
}

proof fn lemma_last_index_prefix(s: Seq<char>, c: char, j: int, k: int)
    requires
        0 <= j <= k <= s.len(),
    ensures
        last_index_before(s.subrange(0, k), c, j) == last_index_before(s, c, j),
    decreases j,
{
    if j > 0 {
        lemma_last_index_prefix(s, c, j - 1, k);
    }
}

/// An object key names a Parquet file: it ends in `.parquet`.
pub open spec fn parquet_object_key(key: Seq<char>) -> bool {
    key.len() >= 8 && key.subrange(key.len() - 8, key.len() as int) == ".parquet"@
}

/// Whether an object-store key names a Parquet file.
pub fn is_parquet_object(key: &str) -> (r: bool)
    ensures
        r == parquet_object_key(key@),
{
    proof {
        reveal_strlit(".parquet");
    }
    let chars = chars_of(key);
    let suffix = chars_of(".parquet");
    if chars.len() < suffix.len() {
        return false;
    }
    matches_at(&chars, &suffix, chars.len() - suffix.len())
}

/// Whether a local path names a Parquet file by its extension.
pub fn is_parquet(path: &str) -> (r: bool)
    ensures
        r == parquet_file_name(last_component(path@)),
{
    let chars = chars_of(path);
    let mut end: usize = chars.len();
    assert(path@.subrange(0, path@.len() as int) =~= path@);
    loop
        invariant
            chars@ == path@,
            end <= chars@.len(),
            last_component(path@) == last_component(path@.subrange(0, end as int)),
        decreases end,
    {
        let ghost s = path@.subrange(0, end as int);
        if end == 0 {
            proof {
                reveal_strlit(".parquet");
            }
            return false;
        }
        if chars[end - 1] == '/' {
            assert(s.drop_last() =~= path@.subrange(0, end - 1));
            end = end - 1;
        } else {
            let mut start: usize = end;
            while start > 0 && chars[start - 1] != '/'
                invariant
                    chars@ == path@,
                    start <= end <= chars@.len(),
                    s == path@.subrange(0, end as int),
                    last_index_before(s, '/', s.len() as int) == last_index_before(s, '/', start as int),
                decreases start,
            {
                start = start - 1;
            }
            proof {
                lemma_last_index_bounds(s, '/', start as int);
                assert(last_index_before(s, '/', s.len() as int) + 1 == start);
                reveal_strlit(".");
                reveal_strlit(".parquet");
            }
            let is_dot = end - start == 1 && chars[start] == '.';
            if is_dot {
                assert(s.subrange(start as int, s.len() as int) =~= "."@);
            } else if end - start == 1 {
                assert(s.subrange(start as int, s.len() as int)[0] != "."@[0]);
            } else {
                assert(s.subrange(start as int, s.len() as int).len() != "."@.len());
            }
            if is_dot {
                assert(s.subrange(0, start as int) =~= path@.subrange(0, start as int));
                end = start;
            } else {
                let ghost name = s.subrange(start as int, end as int);
                if end - start <= 8 {
                    return false;
                }
                let tail = substring(path, end - 8, end);
                assert(name.subrange(name.len() - 8, name.len() as int) =~= path@.subrange(
                    end - 8,
                    end as int,
                ));
                return str_eq(tail.as_str(), ".parquet");
            }
        }
    }
}

/// The kind of listing a source location is read with.
#[derive(Debug, Clone, Copy, PartialEq, Eq, Structural)]
pub enum StorageBackendKind {
    /// A directory of a mounted file system.
    Nfs,
    /// An S3 bucket prefix.
    ObjectStorage,
    /// A Hugging Face dataset, listed through its Parquet API.
    HuggingFace,
}

/// The backend each location kind is read with.
pub open spec fn backend_for(kind: LocationKind) -> StorageBackendKind {
    match kind {
        LocationKind::Nfs => StorageBackendKind::Nfs,
        LocationKind::S3 => StorageBackendKind::ObjectStorage,
        LocationKind::HuggingFace => StorageBackendKind::HuggingFace,
    }
}

/// Selects the backend for a location kind.
pub fn storage_backend(kind: LocationKind) -> (r: StorageBackendKind)
    ensures
        r == backend_for(kind),
{
    match kind {
        LocationKind::Nfs => StorageBackendKind::Nfs,
        LocationKind::S3 => StorageBackendKind::ObjectStorage,
        LocationKind::HuggingFace => StorageBackendKind::HuggingFace,
    }
}

/// Classifies a source or destination URI for reading or writing; an
/// unsupported scheme is an invalid source.
pub fn source_location(uri: &str) -> (r: Result<DatasetLocation, ConversionError>)
    ensures
        match spec_parse_kind(uri@) {
            Ok(kind) => r matches Ok(l) && l@ == (DatasetLocationView { uri: uri@, kind }),
            Err(scheme) => r matches Err(e) && e@ == ConversionErrorView::InvalidSource(
                location_error_message(scheme),
            ),
        },
{
    match DatasetLocation::parse_location(uri) {
        Ok(location) => Ok(location),
        Err(error) => Err(ConversionError::InvalidSource(error.message())),
    }
}

/// Message for a source without Parquet files.
pub open spec fn no_parquet_message() -> Seq<char> {
    "source contains no Parquet files"@
}

/// Message for an NFS source that is not a directory.
pub open spec fn nfs_directory_message() -> Seq<char> {
    "NFS source must be a directory of Parquet files"@
}

/// An NFS source must be a directory.
pub fn check_nfs_directory(is_dir: bool) -> (r: Result<(), ConversionError>)
    ensures
        is_dir ==> r is Ok,
        !is_dir ==> (r matches Err(e) && e@ == ConversionErrorView::InvalidSource(nfs_directory_message())),
{
    if is_dir {
        Ok(())
    } else {
        Err(ConversionError::InvalidSource(String::from_str("NFS source must be a directory of Parquet files")))
    }
}

/// The schema of a source is read from exactly one listed file; a listing
/// with no file means the source has no Parquet files.
pub fn check_schema_sample(files_listed: usize) -> (r: Result<(), ConversionError>)
    ensures
        files_listed == 1 ==> r is Ok,
        files_listed != 1 ==> (r matches Err(e) && e@ == ConversionErrorView::InvalidSource(no_parquet_message())),
{
    if files_listed == 1 {
        Ok(())
    } else {
        Err(ConversionError::InvalidSource(String::from_str("source contains no Parquet files")))
    }
}

/// Index `j` occurs in `order`.
pub open spec fn index_listed(order: Seq<usize>, j: int) -> bool {
    exists|k: int| 0 <= k < order.len() && order[k] == j
}

/// `order` lists every index below `n` exactly once.
pub open spec fn is_index_order(order: Seq<usize>, n: nat) -> bool {
    &&& order.len() == n
    &&& forall|k: int| 0 <= k < order.len() ==> #[trigger] order[k] < n
    &&& forall|k: int, m: int| 0 <= k < m < order.len() ==> #[trigger] order[k] != #[trigger] order[m]
}

/// The files in `order` have non-decreasing locations.
pub open spec fn locations_ordered(locations: Seq<Seq<char>>, order: Seq<usize>) -> bool {
    forall|k: int, m: int|
        0 <= k < m < order.len() ==> !chars_lt(
            #[trigger] locations[order[m] as int],
            #[trigger] locations[order[k] as int],
        )
}

/// The order in which the files of a source are read: by location, in
/// character order. Fails when the source has no files.
pub fn file_read_order(locations: &Vec<String>) -> (r: Result<Vec<usize>, ConversionError>)
    ensures
        locations@.len() == 0 ==> (r matches Err(e) && e@ == ConversionErrorView::InvalidSource(
            no_parquet_message(),
        )),
        locations@.len() > 0 ==> (r matches Ok(order) && is_index_order(order@, locations@.len())
            && locations_ordered(crate::job::strings_view(locations@), order@)),
{
    let n = locations.len();
    if n == 0 {
        return Err(ConversionError::InvalidSource(String::from_str("source contains no Parquet files")));
    }
    let ghost locs = crate::job::strings_view(locations@);
    let mut used: Vec<bool> = Vec::new();
    let mut k: usize = 0;
    while k < n
        invariant
            k <= n,
            n == locations@.len(),
            used@.len() == k,
            forall|j: int| 0 <= j < k ==> !used@[j],
        decreases n - k,
    {
        used.push(false);
        k = k + 1;
    }
    let mut order: Vec<usize> = Vec::new();
    while order.len() < n
        invariant
            n == locations@.len(),
            locs == crate::job::strings_view(locations@),
            used@.len() == n,
            order@.len() <= n,
            forall|k: int| 0 <= k < order@.len() ==> #[trigger] order@[k] < n,
            forall|k: int, m: int| 0 <= k < m < order@.len() ==> #[trigger] order@[k] != #[trigger] order@[m],
            forall|j: int| 0 <= j < n ==> (#[trigger] used@[j] <==> index_listed(order@, j)),
            locations_ordered(locs, order@),
            forall|k: int, j: int|
                0 <= k < order@.len() && 0 <= j < n && !used@[j] ==> !chars_lt(
                    #[trigger] locs[j],
                    #[trigger] locs[order@[k] as int],
                ),
        decreases n - order@.len(),
    {
        proof {
            if forall|j: int| 0 <= j < n ==> #[trigger] used@[j] {
                assert forall|j: int| 0 <= j < n implies #[trigger] index_listed(order@, j) by {
                    assert(used@[j]);
                }
                lemma_injective_cover(order@, n as nat);
                assert(false);
            }
        }
        let mut best: usize = n;
        let mut j: usize = 0;
        while j < n
            invariant
                n == locations@.len(),
                locs == crate::job::strings_view(locations@),
                used@.len() == n,
                j <= n,
                best == n || (best < j && !used@[best as int]),
                best == n ==> forall|i: int| 0 <= i < j ==> used@[i],
                best < n ==> forall|i: int| 0 <= i < j && !used@[i] ==> !chars_lt(#[trigger] locs[i], locs[best as int]),
            decreases n - j,
        {
            if !used[j] {
                if best == n || str_lt(locations[j].as_str(), locations[best].as_str()) {
                    proof {
                        if best < n {
                            assert forall|i: int| 0 <= i < j && !used@[i] implies !chars_lt(#[trigger] locs[i], locs[j as int]) by {
                                if chars_lt(locs[i], locs[j as int]) {
                                    lemma_chars_lt_transitive(locs[i], locs[j as int], locs[best as int]);
                                }
                            }
                        }
                    }
                    best = j;
                    proof {
                        lemma_chars_lt_irreflexive(locs[j as int]);
                    }
                } else {
                    proof {
                        assert(!chars_lt(locs[j as int], locs[best as int]));
                    }
                }
            }
            j = j + 1;
        }
        assert(best < n);
        let ghost before = order@;
        let ghost used_before = used@;
        order.push(best);
        used.set(best, true);
        proof {
            assert forall|k: int, m: int| 0 <= k < m < order@.len() implies !chars_lt(
                #[trigger] locs[order@[m] as int],
                #[trigger] locs[order@[k] as int],
            ) by {
                if m == order@.len() - 1 {
                    assert(!used_before[best as int]);
                } else {
                    assert(before[k] == order@[k] && before[m] == order@[m]);
                }
            }
            assert forall|k: int, i: int|
                0 <= k < order@.len() && 0 <= i < n && !used@[i] implies !chars_lt(
                    #[trigger] locs[i],
                    #[trigger] locs[order@[k] as int],
                ) by {
                if k == order@.len() - 1 {
                    assert(!used_before[i]);
                } else {
                    assert(before[k] == order@[k]);
                    assert(!used_before[i]);
                }
            }
            assert forall|k: int, m: int| 0 <= k < m < order@.len() implies #[trigger] order@[k] != #[trigger] order@[m] by {
                if m == order@.len() - 1 {
                    if order@[k] == best {
                        assert(used_before[best as int]);
                    }
                }
            }
            assert forall|i: int| 0 <= i < n implies (#[trigger] used@[i] <==> index_listed(order@, i)) by {
                if i == best {
                    assert(order@[order@.len() - 1] == i);
                } else {
                    if used_before[i] {
                        let k = choose|k: int| 0 <= k < before.len() && before[k] == i;
                        assert(order@[k] == i);
                    }
                    if index_listed(order@, i) {
                        let k = choose|k: int| 0 <= k < order@.len() && order@[k] == i;
                        assert(k < before.len());
                        assert(before[k] == i);
                    }
                }
            }
        }
    }
    Ok(order)
}

/// Distinct indices below `n` that cover every index below `n` number `n`.
proof fn lemma_injective_cover(order: Seq<usize>, n: nat)
    requires
        order.len() <= n,
        forall|k: int| 0 <= k < order.len() ==> #[trigger] order[k] < n,
        forall|k: int, m: int| 0 <= k < m < order.len() ==> #[trigger] order[k] != #[trigger] order[m],
        forall|j: int| 0 <= j < n ==> #[trigger] index_listed(order, j),
    ensures
        order.len() == n,
{
    let covered = Set::new(|j: int| 0 <= j < n);
    let image = order.map_values(|x: usize| x as int).to_set();
    assert(covered.subset_of(image)) by {
        assert forall|j: int| covered.contains(j) implies image.contains(j) by {
            assert(index_listed(order, j));
            let k = choose|k: int| 0 <= k < order.len() && order[k] == j;
            assert(order.map_values(|x: usize| x as int)[k] == j);
        }
    }
    vstd::set_lib::lemma_int_range(0, n as int);
    assert(covered =~= vstd::set_lib::set_int_range(0, n as int));
    order.map_values(|x: usize| x as int).lemma_cardinality_of_set();
    vstd::set_lib::lemma_len_subset(covered, image);
}

/// Message for a row count that differs between source and destination.
pub open spec fn row_count_message(expected: u64, actual: u64) -> Seq<char> {
    "source has "@ + decimal(expected as nat) + " rows but destination has "@ + decimal(actual as nat)
}

/// A conversion is valid only when the destination holds every row read.
pub fn check_row_count(expected_rows: u64, actual_rows: u64) -> (r: Result<(), ConversionError>)
    ensures
        expected_rows == actual_rows ==> r is Ok,
        expected_rows != actual_rows ==> (r matches Err(e) && e@ == ConversionErrorView::Validation(
            row_count_message(expected_rows, actual_rows),
        )),
{
    if expected_rows == actual_rows {
        Ok(())
    } else {
        let mut message = String::from_str("source has ");
        message.append(decimal_string(expected_rows).as_str());
        message.append(" rows but destination has ");
        message.append(decimal_string(actual_rows).as_str());
        Err(ConversionError::Validation(message))
    }
}

/// Message for a Parquet file whose schema differs from the source schema,
/// given both schemas as rendered text.
pub open spec fn schema_mismatch_message(location: Seq<char>, file_schema: Seq<char>, expected: Seq<char>) -> Seq<char> {
    "Parquet file '"@ + location + "' has schema "@ + file_schema + ", which does not match the source schema "@
        + expected
}

/// Every Parquet file of a source must have the schema of the first one:
/// the file at `location` passes when its schema `agrees` with the source
/// schema, and otherwise fails validation naming both schemas.
pub fn check_file_schema(location: &str, agrees: bool, file_schema: &str, expected: &str) -> (r: Result<
    (),
    ConversionError,
>)
    ensures
        agrees ==> r is Ok,
        !agrees ==> (r matches Err(e) && e@ == ConversionErrorView::Validation(
            schema_mismatch_message(location@, file_schema@, expected@),
        )),
{
    if agrees {
        Ok(())
    } else {
        let mut message = String::from_str("Parquet file '");
        message.append(location);
        message.append("' has schema ");
        message.append(file_schema);
        message.append(", which does not match the source schema ");
        message.append(expected);
        Err(ConversionError::Validation(message))
    }
}

/// The error of a failed Lance write; blob ingestion failures say so.
pub fn write_failure(has_blob_columns: bool, error: &str) -> (r: ConversionError)
    ensures
        has_blob_columns ==> r@ == ConversionErrorView::Write("blob URL/store ingestion failed: "@ + error@),
        !has_blob_columns ==> r@ == ConversionErrorView::Write(error@),
{
    if has_blob_columns {
        ConversionError::Write(concat("blob URL/store ingestion failed: ", error))
    } else {
        ConversionError::Write(String::from_str(error))
    }
}

/// Message for a Hugging Face file listed without a size.
pub open spec fn hf_size_message(url: Seq<char>) -> Seq<char> {
    "Hugging Face parquet file '"@ + url + "' is missing a size"@
}

/// Checks a Parquet file listed by Hugging Face: it has a size and an
/// absolute URL.
pub fn check_hf_file(url: &str, size: u64) -> (r: Result<(), ConversionError>)
    ensures
        size == 0 ==> (r matches Err(e) && e@ == ConversionErrorView::Read(hf_size_message(url@))),
        size > 0 ==> match parsed_url(url@) {
            Ok(_) => r is Ok,
            Err(m) => r matches Err(e) && e@ == ConversionErrorView::Read(
                "Hugging Face parquet URL is invalid: "@ + m,
            ),
        },
{
    if size == 0 {
        let mut message = String::from_str("Hugging Face parquet file '");
        message.append(url);
        message.append("' is missing a size");
        return Err(ConversionError::Read(message));
    }
    match parse_url(url) {
        Ok(_) => Ok(()),
        Err(m) => Err(ConversionError::Read(concat("Hugging Face parquet URL is invalid: ", m.as_str()))),
    }
}

/// The error of a Hugging Face API answer with a non-success status.
pub fn hf_http_failure(status_text: &str, body: &str) -> (r: ConversionError)
    ensures
        r@ == ConversionErrorView::Read("Hugging Face HTTP "@ + status_text@ + ": "@ + body@),
{
    let mut message = String::from_str("Hugging Face HTTP ");
    message.append(status_text);
    message.append(": ");
    message.append(body);
    ConversionError::Read(message)
}

/// A Lance destination URI.
#[derive(Debug)]
pub struct Destination {
    pub uri: String,
}

/// The root an S3 destination's object store is registered under: the URL
/// without path, query, or fragment. Other destinations use Lance's own
/// store resolution and have none.
pub open spec fn s3_store_root(parsed: Result<UrlPartsView, Seq<char>>) -> Option<Seq<char>> {
    match parsed {
        Ok(url) => if url.scheme == "s3"@ {
            Some(url.scheme + "://"@ + url.authority)
        } else {
            None
        },
        Err(_) => None,
    }
}

impl Destination {
    /// A destination for `uri`.
    pub fn new(uri: &str) -> (r: Destination)
        ensures
            r.uri@ == uri@,
    {
        Destination { uri: String::from_str(uri) }
    }

    /// The object-store root of an S3 destination, when the URI parses as
    /// an S3 URL.
    pub fn store_root(&self) -> (r: Option<String>)
        ensures
            crate::uri::opt_view(r) == s3_store_root(parsed_url(self.uri@)),
    {
        match parse_url(self.uri.as_str()) {
            Ok(url) => {
                if str_eq(url.scheme.as_str(), "s3") {
                    Some(crate::uri::origin_of(&url))
                } else {
                    None
                }
            },
            Err(_) => None,
        }
    }
}

} // verus!
