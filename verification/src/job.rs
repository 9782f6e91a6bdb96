//! The conversion job model: kinds, statuses, index types, progress counters,
//! attempt errors, and the updates a worker sends for a running attempt.

use vstd::prelude::*;
use vstd::string::*;
use crate::location::{DatasetLocation, DatasetLocationView};
use crate::text::str_eq;

verus! {

/// The number of attempts after which a job is no longer retried.
pub const MAX_JOB_ATTEMPTS: u32 = 16;

/// Whether a conversion keeps (`Copy`) or deletes (`Move`) its source.
#[derive(Debug, Clone, Copy, PartialEq, Eq, Structural)]
pub enum JobKind {
    Copy,
    Move,
}

/// The lifecycle state of a job.
#[derive(Debug, Clone, Copy, PartialEq, Eq, Structural)]
pub enum JobStatus {
    Queuing,
    Running,
    Succeeded,
    Failed,
}

/// The index kinds a job may request after conversion.
#[derive(Debug, Clone, Copy, PartialEq, Eq, Structural)]
pub enum IndexType {
    Scalar,
    BTree,
    Bitmap,
    LabelList,
    Inverted,
    NGram,
    ZoneMap,
    BloomFilter,
    RTree,
    Fm,
    Vector,
    IvfFlat,
    IvfSq,
    IvfPq,
    IvfHnswSq,
    IvfHnswPq,
    IvfHnswFlat,
    IvfRq,
}

/// The wire name of a job kind.
pub open spec fn job_kind_name(kind: JobKind) -> Seq<char> {
    match kind {
        JobKind::Copy => "copy"@,
        JobKind::Move => "move"@,
    }
}

/// The wire name of a job status.
pub open spec fn job_status_name(status: JobStatus) -> Seq<char> {
    match status {
        JobStatus::Queuing => "queuing"@,
        JobStatus::Running => "running"@,
        JobStatus::Succeeded => "succeeded"@,
        JobStatus::Failed => "failed"@,
    }
}

/// The wire name of an index type.
pub open spec fn index_type_name(index_type: IndexType) -> Seq<char> {
    match index_type {
        IndexType::Scalar => "scalar"@,
        IndexType::BTree => "b_tree"@,
        IndexType::Bitmap => "bitmap"@,
        IndexType::LabelList => "label_list"@,
        IndexType::Inverted => "inverted"@,
        IndexType::NGram => "n_gram"@,
        IndexType::ZoneMap => "zone_map"@,
        IndexType::BloomFilter => "bloom_filter"@,
        IndexType::RTree => "r_tree"@,
        IndexType::Fm => "fm"@,
        IndexType::Vector => "vector"@,
        IndexType::IvfFlat => "ivf_flat"@,
        IndexType::IvfSq => "ivf_sq"@,
        IndexType::IvfPq => "ivf_pq"@,
        IndexType::IvfHnswSq => "ivf_hnsw_sq"@,
        IndexType::IvfHnswPq => "ivf_hnsw_pq"@,
        IndexType::IvfHnswFlat => "ivf_hnsw_flat"@,
        IndexType::IvfRq => "ivf_rq"@,
    }
}

/// The job kind named `name`, if any.
pub open spec fn job_kind_from_name(name: Seq<char>) -> Option<JobKind> {
    if name == "copy"@ {
        Some(JobKind::Copy)
    } else if name == "move"@ {
        Some(JobKind::Move)
    } else {
        None
    }
}

/// The job status named `name`, if any.
pub open spec fn job_status_from_name(name: Seq<char>) -> Option<JobStatus> {
    if name == "queuing"@ {
        Some(JobStatus::Queuing)
    } else if name == "running"@ {
        Some(JobStatus::Running)
    } else if name == "succeeded"@ {
        Some(JobStatus::Succeeded)
    } else if name == "failed"@ {
        Some(JobStatus::Failed)
    } else {
        None
    }
}

/// The index type named `name`, if any.
pub open spec fn index_type_from_name(name: Seq<char>) -> Option<IndexType> {
    if name == "scalar"@ {
        Some(IndexType::Scalar)
    } else if name == "b_tree"@ {
        Some(IndexType::BTree)
    } else if name == "bitmap"@ {
        Some(IndexType::Bitmap)
    } else if name == "label_list"@ {
        Some(IndexType::LabelList)
    } else if name == "inverted"@ {
        Some(IndexType::Inverted)
    } else if name == "n_gram"@ {
        Some(IndexType::NGram)
    } else if name == "zone_map"@ {
        Some(IndexType::ZoneMap)
    } else if name == "bloom_filter"@ {
        Some(IndexType::BloomFilter)
    } else if name == "r_tree"@ {
        Some(IndexType::RTree)
    } else if name == "fm"@ {
        Some(IndexType::Fm)
    } else if name == "vector"@ {
        Some(IndexType::Vector)
    } else if name == "ivf_flat"@ {
        Some(IndexType::IvfFlat)
    } else if name == "ivf_sq"@ {
        Some(IndexType::IvfSq)
    } else if name == "ivf_pq"@ {
        Some(IndexType::IvfPq)
    } else if name == "ivf_hnsw_sq"@ {
        Some(IndexType::IvfHnswSq)
    } else if name == "ivf_hnsw_pq"@ {
        Some(IndexType::IvfHnswPq)
    } else if name == "ivf_hnsw_flat"@ {
        Some(IndexType::IvfHnswFlat)
    } else if name == "ivf_rq"@ {
        Some(IndexType::IvfRq)
    } else {
        None
    }
}

/// The message of a rejected name: `invalid <type> value: <name>`.
pub open spec fn invalid_value_message(kind_label: Seq<char>, value: Seq<char>) -> Seq<char> {
    "invalid "@ + kind_label + " value: "@ + value
}

fn invalid_value(kind_label: &str, value: &str) -> (r: String)
    ensures
        r@ == invalid_value_message(kind_label@, value@),
{
    let mut message = String::from_str("invalid ");
    message.append(kind_label);
    message.append(" value: ");
    message.append(value);
    message
}

impl JobKind {
    /// The wire name of this kind.
    pub fn as_str(&self) -> (r: &'static str)
        ensures
            r@ == job_kind_name(*self),
    {
        match self {
            JobKind::Copy => "copy",
            JobKind::Move => "move",
        }
    }

    /// Parses a wire name.
    pub fn from_name(value: &str) -> (r: Result<JobKind, String>)
        ensures
            match job_kind_from_name(value@) {
                Some(kind) => r == Ok::<JobKind, String>(kind),
                None => r matches Err(message) && message@ == invalid_value_message("JobKind"@, value@),
            },
    {
        if str_eq(value, "copy") {
            Ok(JobKind::Copy)
        } else if str_eq(value, "move") {
            Ok(JobKind::Move)
        } else {
            Err(invalid_value("JobKind", value))
        }
    }
}

impl JobStatus {
    /// The wire name of this status.
    pub fn as_str(&self) -> (r: &'static str)
        ensures
            r@ == job_status_name(*self),
    {
        match self {
            JobStatus::Queuing => "queuing",
            JobStatus::Running => "running",
            JobStatus::Succeeded => "succeeded",
            JobStatus::Failed => "failed",
        }
    }

    /// Parses a wire name.
    pub fn from_name(value: &str) -> (r: Result<JobStatus, String>)
        ensures
            match job_status_from_name(value@) {
                Some(status) => r == Ok::<JobStatus, String>(status),
                None => r matches Err(message) && message@ == invalid_value_message("JobStatus"@, value@),
            },
    {
        if str_eq(value, "queuing") {
            Ok(JobStatus::Queuing)
        } else if str_eq(value, "running") {
            Ok(JobStatus::Running)
        } else if str_eq(value, "succeeded") {
            Ok(JobStatus::Succeeded)
        } else if str_eq(value, "failed") {
            Ok(JobStatus::Failed)
        } else {
            Err(invalid_value("JobStatus", value))
        }
    }
}

impl IndexType {
    /// The wire name of this index type.
    pub fn as_str(&self) -> (r: &'static str)
        ensures
            r@ == index_type_name(*self),
    {
        match self {
            IndexType::Scalar => "scalar",
            IndexType::BTree => "b_tree",
            IndexType::Bitmap => "bitmap",
            IndexType::LabelList => "label_list",
            IndexType::Inverted => "inverted",
            IndexType::NGram => "n_gram",
            IndexType::ZoneMap => "zone_map",
            IndexType::BloomFilter => "bloom_filter",
            IndexType::RTree => "r_tree",
            IndexType::Fm => "fm",
            IndexType::Vector => "vector",
            IndexType::IvfFlat => "ivf_flat",
            IndexType::IvfSq => "ivf_sq",
            IndexType::IvfPq => "ivf_pq",
            IndexType::IvfHnswSq => "ivf_hnsw_sq",
            IndexType::IvfHnswPq => "ivf_hnsw_pq",
            IndexType::IvfHnswFlat => "ivf_hnsw_flat",
            IndexType::IvfRq => "ivf_rq",
        }
    }

    /// Parses a wire name.
    pub fn from_name(value: &str) -> (r: Result<IndexType, String>)
        ensures
            match index_type_from_name(value@) {
                Some(index_type) => r == Ok::<IndexType, String>(index_type),
                None => r matches Err(message) && message@ == invalid_value_message("IndexType"@, value@),
            },
    {
        if str_eq(value, "scalar") {
            Ok(IndexType::Scalar)
        } else if str_eq(value, "b_tree") {
            Ok(IndexType::BTree)
        } else if str_eq(value, "bitmap") {
            Ok(IndexType::Bitmap)
        } else if str_eq(value, "label_list") {
            Ok(IndexType::LabelList)
        } else if str_eq(value, "inverted") {
            Ok(IndexType::Inverted)
        } else if str_eq(value, "n_gram") {
            Ok(IndexType::NGram)
        } else if str_eq(value, "zone_map") {
            Ok(IndexType::ZoneMap)
        } else if str_eq(value, "bloom_filter") {
            Ok(IndexType::BloomFilter)
        } else if str_eq(value, "r_tree") {
            Ok(IndexType::RTree)
        } else if str_eq(value, "fm") {
            Ok(IndexType::Fm)
        } else if str_eq(value, "vector") {
            Ok(IndexType::Vector)
        } else if str_eq(value, "ivf_flat") {
            Ok(IndexType::IvfFlat)
        } else if str_eq(value, "ivf_sq") {
            Ok(IndexType::IvfSq)
        } else if str_eq(value, "ivf_pq") {
            Ok(IndexType::IvfPq)
        } else if str_eq(value, "ivf_hnsw_sq") {
            Ok(IndexType::IvfHnswSq)
        } else if str_eq(value, "ivf_hnsw_pq") {
            Ok(IndexType::IvfHnswPq)
        } else if str_eq(value, "ivf_hnsw_flat") {
            Ok(IndexType::IvfHnswFlat)
        } else if str_eq(value, "ivf_rq") {
            Ok(IndexType::IvfRq)
        } else {
            Err(invalid_value("IndexType", value))
        }
    }
}

/// Parsing a kind's wire name gives that kind back.
pub proof fn lemma_job_kind_name_round_trip(kind: JobKind)
    ensures
        job_kind_from_name(job_kind_name(kind)) == Some(kind),
{
    reveal_strlit("copy");
    reveal_strlit("move");
    match kind {
        JobKind::Copy => {
        },
        JobKind::Move => {
            assert("move"@[0] != "copy"@[0]);
        },
    }
}

/// Parsing a status's wire name gives that status back.
pub proof fn lemma_job_status_name_round_trip(status: JobStatus)
    ensures
        job_status_from_name(job_status_name(status)) == Some(status),
{
    reveal_strlit("queuing");
    reveal_strlit("running");
    reveal_strlit("succeeded");
    reveal_strlit("failed");
    match status {
        JobStatus::Queuing => {
        },
        JobStatus::Running => {
            assert("running"@[0] != "queuing"@[0]);
        },
        JobStatus::Succeeded => {
            assert("succeeded"@.len() != "queuing"@.len());
            assert("succeeded"@.len() != "running"@.len());
        },
        JobStatus::Failed => {
            assert("failed"@.len() != "queuing"@.len());
            assert("failed"@.len() != "running"@.len());
            assert("failed"@.len() != "succeeded"@.len());
        },
    }
}

/// Parsing an index type's wire name gives that index type back.
pub proof fn lemma_index_type_name_round_trip(index_type: IndexType)
    ensures
        index_type_from_name(index_type_name(index_type)) == Some(index_type),
{
    reveal_strlit("scalar");
    reveal_strlit("b_tree");
    reveal_strlit("bitmap");
    reveal_strlit("label_list");
    reveal_strlit("inverted");
    reveal_strlit("n_gram");
    reveal_strlit("zone_map");
    reveal_strlit("bloom_filter");
    reveal_strlit("r_tree");
    reveal_strlit("fm");
    reveal_strlit("vector");
    reveal_strlit("ivf_flat");
    reveal_strlit("ivf_sq");
    reveal_strlit("ivf_pq");
    reveal_strlit("ivf_hnsw_sq");
    reveal_strlit("ivf_hnsw_pq");
    reveal_strlit("ivf_hnsw_flat");
    reveal_strlit("ivf_rq");
    match index_type {
        IndexType::Scalar => {
        },
        IndexType::BTree => {
            assert("b_tree"@[0] != "scalar"@[0]);
        },
        IndexType::Bitmap => {
            assert("bitmap"@[0] != "scalar"@[0]);
            assert("bitmap"@[1] != "b_tree"@[1]);
        },
        IndexType::LabelList => {
            assert("label_list"@.len() != "scalar"@.len());
            assert("label_list"@.len() != "b_tree"@.len());
            assert("label_list"@.len() != "bitmap"@.len());
        },
        IndexType::Inverted => {
            assert("inverted"@.len() != "scalar"@.len());
            assert("inverted"@.len() != "b_tree"@.len());
            assert("inverted"@.len() != "bitmap"@.len());
            assert("inverted"@.len() != "label_list"@.len());
        },
        IndexType::NGram => {
            assert("n_gram"@[0] != "scalar"@[0]);
            assert("n_gram"@[0] != "b_tree"@[0]);
            assert("n_gram"@[0] != "bitmap"@[0]);
            assert("n_gram"@.len() != "label_list"@.len());
            assert("n_gram"@.len() != "inverted"@.len());
        },
        IndexType::ZoneMap => {
            assert("zone_map"@.len() != "scalar"@.len());
            assert("zone_map"@.len() != "b_tree"@.len());
            assert("zone_map"@.len() != "bitmap"@.len());
            assert("zone_map"@.len() != "label_list"@.len());
            assert("zone_map"@[0] != "inverted"@[0]);
            assert("zone_map"@.len() != "n_gram"@.len());
        },
        IndexType::BloomFilter => {
            assert("bloom_filter"@.len() != "scalar"@.len());
            assert("bloom_filter"@.len() != "b_tree"@.len());
            assert("bloom_filter"@.len() != "bitmap"@.len());
            assert("bloom_filter"@.len() != "label_list"@.len());
            assert("bloom_filter"@.len() != "inverted"@.len());
            assert("bloom_filter"@.len() != "n_gram"@.len());
            assert("bloom_filter"@.len() != "zone_map"@.len());
        },
        IndexType::RTree => {
            assert("r_tree"@[0] != "scalar"@[0]);
            assert("r_tree"@[0] != "b_tree"@[0]);
            assert("r_tree"@[0] != "bitmap"@[0]);
            assert("r_tree"@.len() != "label_list"@.len());
            assert("r_tree"@.len() != "inverted"@.len());
            assert("r_tree"@[0] != "n_gram"@[0]);
            assert("r_tree"@.len() != "zone_map"@.len());
            assert("r_tree"@.len() != "bloom_filter"@.len());
        },
        IndexType::Fm => {
            assert("fm"@.len() != "scalar"@.len());
            assert("fm"@.len() != "b_tree"@.len());
            assert("fm"@.len() != "bitmap"@.len());
            assert("fm"@.len() != "label_list"@.len());
            assert("fm"@.len() != "inverted"@.len());
            assert("fm"@.len() != "n_gram"@.len());
            assert("fm"@.len() != "zone_map"@.len());
            assert("fm"@.len() != "bloom_filter"@.len());
            assert("fm"@.len() != "r_tree"@.len());
        },
        IndexType::Vector => {
            assert("vector"@[0] != "scalar"@[0]);
            assert("vector"@[0] != "b_tree"@[0]);
            assert("vector"@[0] != "bitmap"@[0]);
            assert("vector"@.len() != "label_list"@.len());
            assert("vector"@.len() != "inverted"@.len());
            assert("vector"@[0] != "n_gram"@[0]);
            assert("vector"@.len() != "zone_map"@.len());
            assert("vector"@.len() != "bloom_filter"@.len());
            assert("vector"@[0] != "r_tree"@[0]);
            assert("vector"@.len() != "fm"@.len());
        },
        IndexType::IvfFlat => {
            assert("ivf_flat"@.len() != "scalar"@.len());
            assert("ivf_flat"@.len() != "b_tree"@.len());
            assert("ivf_flat"@.len() != "bitmap"@.len());
            assert("ivf_flat"@.len() != "label_list"@.len());
            assert("ivf_flat"@[1] != "inverted"@[1]);
            assert("ivf_flat"@.len() != "n_gram"@.len());
            assert("ivf_flat"@[0] != "zone_map"@[0]);
            assert("ivf_flat"@.len() != "bloom_filter"@.len());
            assert("ivf_flat"@.len() != "r_tree"@.len());
            assert("ivf_flat"@.len() != "fm"@.len());
            assert("ivf_flat"@.len() != "vector"@.len());
        },
        IndexType::IvfSq => {
            assert("ivf_sq"@[0] != "scalar"@[0]);
            assert("ivf_sq"@[0] != "b_tree"@[0]);
            assert("ivf_sq"@[0] != "bitmap"@[0]);
            assert("ivf_sq"@.len() != "label_list"@.len());
            assert("ivf_sq"@.len() != "inverted"@.len());
            assert("ivf_sq"@[0] != "n_gram"@[0]);
            assert("ivf_sq"@.len() != "zone_map"@.len());
            assert("ivf_sq"@.len() != "bloom_filter"@.len());
            assert("ivf_sq"@[0] != "r_tree"@[0]);
            assert("ivf_sq"@.len() != "fm"@.len());
            assert("ivf_sq"@[0] != "vector"@[0]);
            assert("ivf_sq"@.len() != "ivf_flat"@.len());
        },
        IndexType::IvfPq => {
            assert("ivf_pq"@[0] != "scalar"@[0]);
            assert("ivf_pq"@[0] != "b_tree"@[0]);
            assert("ivf_pq"@[0] != "bitmap"@[0]);
            assert("ivf_pq"@.len() != "label_list"@.len());
            assert("ivf_pq"@.len() != "inverted"@.len());
            assert("ivf_pq"@[0] != "n_gram"@[0]);
            assert("ivf_pq"@.len() != "zone_map"@.len());
            assert("ivf_pq"@.len() != "bloom_filter"@.len());
            assert("ivf_pq"@[0] != "r_tree"@[0]);
            assert("ivf_pq"@.len() != "fm"@.len());
            assert("ivf_pq"@[0] != "vector"@[0]);
            assert("ivf_pq"@.len() != "ivf_flat"@.len());
            assert("ivf_pq"@[4] != "ivf_sq"@[4]);
        },
        IndexType::IvfHnswSq => {
            assert("ivf_hnsw_sq"@.len() != "scalar"@.len());
            assert("ivf_hnsw_sq"@.len() != "b_tree"@.len());
            assert("ivf_hnsw_sq"@.len() != "bitmap"@.len());
            assert("ivf_hnsw_sq"@.len() != "label_list"@.len());
            assert("ivf_hnsw_sq"@.len() != "inverted"@.len());
            assert("ivf_hnsw_sq"@.len() != "n_gram"@.len());
            assert("ivf_hnsw_sq"@.len() != "zone_map"@.len());
            assert("ivf_hnsw_sq"@.len() != "bloom_filter"@.len());
            assert("ivf_hnsw_sq"@.len() != "r_tree"@.len());
            assert("ivf_hnsw_sq"@.len() != "fm"@.len());
            assert("ivf_hnsw_sq"@.len() != "vector"@.len());
            assert("ivf_hnsw_sq"@.len() != "ivf_flat"@.len());
            assert("ivf_hnsw_sq"@.len() != "ivf_sq"@.len());
            assert("ivf_hnsw_sq"@.len() != "ivf_pq"@.len());
        },
        IndexType::IvfHnswPq => {
            assert("ivf_hnsw_pq"@.len() != "scalar"@.len());
            assert("ivf_hnsw_pq"@.len() != "b_tree"@.len());
            assert("ivf_hnsw_pq"@.len() != "bitmap"@.len());
            assert("ivf_hnsw_pq"@.len() != "label_list"@.len());
            assert("ivf_hnsw_pq"@.len() != "inverted"@.len());
            assert("ivf_hnsw_pq"@.len() != "n_gram"@.len());
            assert("ivf_hnsw_pq"@.len() != "zone_map"@.len());
            assert("ivf_hnsw_pq"@.len() != "bloom_filter"@.len());
            assert("ivf_hnsw_pq"@.len() != "r_tree"@.len());
            assert("ivf_hnsw_pq"@.len() != "fm"@.len());
            assert("ivf_hnsw_pq"@.len() != "vector"@.len());
            assert("ivf_hnsw_pq"@.len() != "ivf_flat"@.len());
            assert("ivf_hnsw_pq"@.len() != "ivf_sq"@.len());
            assert("ivf_hnsw_pq"@.len() != "ivf_pq"@.len());
            assert("ivf_hnsw_pq"@[9] != "ivf_hnsw_sq"@[9]);
        },
        IndexType::IvfHnswFlat => {
            assert("ivf_hnsw_flat"@.len() != "scalar"@.len());
            assert("ivf_hnsw_flat"@.len() != "b_tree"@.len());
            assert("ivf_hnsw_flat"@.len() != "bitmap"@.len());
            assert("ivf_hnsw_flat"@.len() != "label_list"@.len());
            assert("ivf_hnsw_flat"@.len() != "inverted"@.len());
            assert("ivf_hnsw_flat"@.len() != "n_gram"@.len());
            assert("ivf_hnsw_flat"@.len() != "zone_map"@.len());
            assert("ivf_hnsw_flat"@.len() != "bloom_filter"@.len());
            assert("ivf_hnsw_flat"@.len() != "r_tree"@.len());
            assert("ivf_hnsw_flat"@.len() != "fm"@.len());
            assert("ivf_hnsw_flat"@.len() != "vector"@.len());
            assert("ivf_hnsw_flat"@.len() != "ivf_flat"@.len());
            assert("ivf_hnsw_flat"@.len() != "ivf_sq"@.len());
            assert("ivf_hnsw_flat"@.len() != "ivf_pq"@.len());
            assert("ivf_hnsw_flat"@.len() != "ivf_hnsw_sq"@.len());
            assert("ivf_hnsw_flat"@.len() != "ivf_hnsw_pq"@.len());
        },
        IndexType::IvfRq => {
            assert("ivf_rq"@[0] != "scalar"@[0]);
            assert("ivf_rq"@[0] != "b_tree"@[0]);
            assert("ivf_rq"@[0] != "bitmap"@[0]);
            assert("ivf_rq"@.len() != "label_list"@.len());
            assert("ivf_rq"@.len() != "inverted"@.len());
            assert("ivf_rq"@[0] != "n_gram"@[0]);
            assert("ivf_rq"@.len() != "zone_map"@.len());
            assert("ivf_rq"@.len() != "bloom_filter"@.len());
            assert("ivf_rq"@[0] != "r_tree"@[0]);
            assert("ivf_rq"@.len() != "fm"@.len());
            assert("ivf_rq"@[0] != "vector"@[0]);
            assert("ivf_rq"@.len() != "ivf_flat"@.len());
            assert("ivf_rq"@[4] != "ivf_sq"@[4]);
            assert("ivf_rq"@[4] != "ivf_pq"@[4]);
            assert("ivf_rq"@.len() != "ivf_hnsw_sq"@.len());
            assert("ivf_rq"@.len() != "ivf_hnsw_pq"@.len());
            assert("ivf_rq"@.len() != "ivf_hnsw_flat"@.len());
        },
    }
}

/// A source column whose URL values are ingested as Lance blobs.
#[derive(Debug, PartialEq, Eq)]
pub struct BlobColumnSpec {
    pub column: String,
}

/// An index to build after conversion.
#[derive(Debug, PartialEq, Eq)]
pub struct IndexSpec {
    pub columns: Vec<String>,
    pub index_type: IndexType,
}

/// The model of an index specification.
pub struct IndexSpecView {
    pub columns: Seq<Seq<char>>,
    pub index_type: IndexType,
}

/// The model of a list of strings.
pub open spec fn strings_view(strings: Seq<String>) -> Seq<Seq<char>> {
    strings.map_values(|s: String| s@)
}

impl View for IndexSpec {
    type V = IndexSpecView;

    open spec fn view(&self) -> IndexSpecView {
        IndexSpecView { columns: strings_view(self.columns@), index_type: self.index_type }
    }
}

/// One failed attempt recorded on a job.
#[derive(Debug, PartialEq, Eq)]
pub struct JobError {
    pub attempt: u32,
    pub error_timestamp_ms: i64,
    pub reason: String,
}

/// The model of a recorded attempt error.
pub struct JobErrorView {
    pub attempt: u32,
    pub error_timestamp_ms: i64,
    pub reason: Seq<char>,
}

impl View for JobError {
    type V = JobErrorView;

    open spec fn view(&self) -> JobErrorView {
        JobErrorView {
            attempt: self.attempt,
            error_timestamp_ms: self.error_timestamp_ms,
            reason: self.reason@,
        }
    }
}

/// Row counters of a conversion attempt.
#[derive(Debug, Clone, Copy, PartialEq, Eq, Structural)]
pub struct JobProgress {
    pub rows_read: u64,
    pub rows_written: u64,
    pub rows_total: u64,
    pub rows_missing_blobs: u64,
}

/// All counters zero.
pub open spec fn zero_progress() -> JobProgress {
    JobProgress { rows_read: 0, rows_written: 0, rows_total: 0, rows_missing_blobs: 0 }
}

impl Default for JobProgress {
    fn default() -> (r: JobProgress)
        ensures
            r == zero_progress(),
    {
        JobProgress { rows_read: 0, rows_written: 0, rows_total: 0, rows_missing_blobs: 0 }
    }
}

/// A persisted conversion job, keyed by its destination URI.
#[derive(Debug, PartialEq, Eq)]
pub struct Job {
    pub creator: String,
    pub kind: JobKind,
    pub source_uri: String,
    pub destination_uri: String,
    pub blob_columns: Vec<BlobColumnSpec>,
    pub indices: Vec<IndexSpec>,
    pub status: JobStatus,
    pub creation_timestamp_ms: i64,
    pub update_timestamp_ms: i64,
    pub attempt: u32,
    pub error_reasons: Vec<JobError>,
    pub lease_expiration_timestamp_ms: Option<i64>,
    pub progress: JobProgress,
}

/// The model of a job.
pub struct JobView {
    pub creator: Seq<char>,
    pub kind: JobKind,
    pub source_uri: Seq<char>,
    pub destination_uri: Seq<char>,
    pub blob_columns: Seq<Seq<char>>,
    pub indices: Seq<IndexSpecView>,
    pub status: JobStatus,
    pub creation_timestamp_ms: i64,
    pub update_timestamp_ms: i64,
    pub attempt: u32,
    pub error_reasons: Seq<JobErrorView>,
    pub lease_expiration_timestamp_ms: Option<i64>,
    pub progress: JobProgress,
}

/// The model of a list of blob column specifications: the column names.
pub open spec fn blob_columns_view(specs: Seq<BlobColumnSpec>) -> Seq<Seq<char>> {
    specs.map_values(|spec: BlobColumnSpec| spec.column@)
}

/// The model of a list of index specifications.
pub open spec fn indices_view(specs: Seq<IndexSpec>) -> Seq<IndexSpecView> {
    specs.map_values(|spec: IndexSpec| spec@)
}

/// The model of a list of attempt errors.
pub open spec fn errors_view(errors: Seq<JobError>) -> Seq<JobErrorView> {
    errors.map_values(|error: JobError| error@)
}

impl View for Job {
    type V = JobView;

    open spec fn view(&self) -> JobView {
        JobView {
            creator: self.creator@,
            kind: self.kind,
            source_uri: self.source_uri@,
            destination_uri: self.destination_uri@,
            blob_columns: blob_columns_view(self.blob_columns@),
            indices: indices_view(self.indices@),
            status: self.status,
            creation_timestamp_ms: self.creation_timestamp_ms,
            update_timestamp_ms: self.update_timestamp_ms,
            attempt: self.attempt,
            error_reasons: errors_view(self.error_reasons@),
            lease_expiration_timestamp_ms: self.lease_expiration_timestamp_ms,
            progress: self.progress,
        }
    }
}

/// A request to persist a new job.
#[derive(Debug)]
pub struct NewJob {
    pub creator: String,
    pub source: DatasetLocation,
    pub kind: JobKind,
    pub destination: DatasetLocation,
    pub blob_columns: Vec<BlobColumnSpec>,
    pub indices: Vec<IndexSpec>,
    pub creation_timestamp_ms: i64,
}

/// A job handed to a worker by a claim.
#[derive(Debug)]
pub struct ClaimedJob {
    pub job: Job,
}

/// A lease renewal carrying the latest progress snapshot.
#[derive(Debug)]
pub struct LeaseUpdate {
    pub destination_uri: String,
    pub attempt: u32,
    pub convert_lease_duration_ms: i64,
    pub progress: JobProgress,
}

/// A progress checkpoint that leaves the lease unchanged.
#[derive(Debug)]
pub struct ProgressUpdate {
    pub destination_uri: String,
    pub attempt: u32,
    pub progress: JobProgress,
}

/// The successful end of an attempt.
#[derive(Debug)]
pub struct CompletionUpdate {
    pub destination_uri: String,
    pub attempt: u32,
    pub progress: JobProgress,
}

/// The failed end of an attempt, with its reason.
#[derive(Debug)]
pub struct FailureUpdate {
    pub destination_uri: String,
    pub attempt: u32,
    pub progress: JobProgress,
    pub reason: String,
}

/// A copy of a list of strings.
pub fn copy_strings(strings: &Vec<String>) -> (r: Vec<String>)
    ensures
        strings_view(r@) == strings_view(strings@),
{
    let mut r: Vec<String> = Vec::new();
    let mut i: usize = 0;
    while i < strings.len()
        invariant
            i <= strings@.len(),
            r@.len() == i,
            forall|j: int| 0 <= j < i ==> r@[j]@ == strings@[j]@,
        decreases strings.len() - i,
    {
        r.push(strings[i].clone());
        i = i + 1;
    }
    proof {
        assert(strings_view(r@) =~= strings_view(strings@));
    }
    r
}

impl BlobColumnSpec {
    /// A copy of this specification.
    pub fn duplicate(&self) -> (r: BlobColumnSpec)
        ensures
            r.column@ == self.column@,
    {
        BlobColumnSpec { column: self.column.clone() }
    }
}

impl IndexSpec {
    /// A copy of this specification.
    pub fn duplicate(&self) -> (r: IndexSpec)
        ensures
            r@ == self@,
    {
        IndexSpec { columns: copy_strings(&self.columns), index_type: self.index_type }
    }
}

impl JobError {
    /// A copy of this error.
    pub fn duplicate(&self) -> (r: JobError)
        ensures
            r@ == self@,
    {
        JobError {
            attempt: self.attempt,
            error_timestamp_ms: self.error_timestamp_ms,
            reason: self.reason.clone(),
        }
    }
}

/// A copy of a list of blob column specifications.
pub fn copy_blob_columns(specs: &Vec<BlobColumnSpec>) -> (r: Vec<BlobColumnSpec>)
    ensures
        blob_columns_view(r@) == blob_columns_view(specs@),
{
    let mut r: Vec<BlobColumnSpec> = Vec::new();
    let mut i: usize = 0;
    while i < specs.len()
        invariant
            i <= specs@.len(),
            r@.len() == i,
            forall|j: int| 0 <= j < i ==> r@[j].column@ == specs@[j].column@,
        decreases specs.len() - i,
    {
        r.push(specs[i].duplicate());
        i = i + 1;
    }
    proof {
        assert(blob_columns_view(r@) =~= blob_columns_view(specs@));
    }
    r
}

/// A copy of a list of index specifications.
pub fn copy_indices(specs: &Vec<IndexSpec>) -> (r: Vec<IndexSpec>)
    ensures
        indices_view(r@) == indices_view(specs@),
{
    let mut r: Vec<IndexSpec> = Vec::new();
    let mut i: usize = 0;
    while i < specs.len()
        invariant
            i <= specs@.len(),
            r@.len() == i,
            forall|j: int| 0 <= j < i ==> r@[j]@ == specs@[j]@,
        decreases specs.len() - i,
    {
        r.push(specs[i].duplicate());
        i = i + 1;
    }
    proof {
        assert(indices_view(r@) =~= indices_view(specs@));
    }
    r
}

/// A copy of a list of attempt errors.
pub fn copy_errors(errors: &Vec<JobError>) -> (r: Vec<JobError>)
    ensures
        errors_view(r@) == errors_view(errors@),
{
    let mut r: Vec<JobError> = Vec::new();
    let mut i: usize = 0;
    while i < errors.len()
        invariant
            i <= errors@.len(),
            r@.len() == i,
            forall|j: int| 0 <= j < i ==> r@[j]@ == errors@[j]@,
        decreases errors.len() - i,
    {
        r.push(errors[i].duplicate());
        i = i + 1;
    }
    proof {
        assert(errors_view(r@) =~= errors_view(errors@));
    }
    r
}

impl Job {
    /// A copy of this job.
    pub fn duplicate(&self) -> (r: Job)
        ensures
            r@ == self@,
    {
        Job {
            creator: self.creator.clone(),
            kind: self.kind,
            source_uri: self.source_uri.clone(),
            destination_uri: self.destination_uri.clone(),
            blob_columns: copy_blob_columns(&self.blob_columns),
            indices: copy_indices(&self.indices),
            status: self.status,
            creation_timestamp_ms: self.creation_timestamp_ms,
            update_timestamp_ms: self.update_timestamp_ms,
            attempt: self.attempt,
            error_reasons: copy_errors(&self.error_reasons),
            lease_expiration_timestamp_ms: self.lease_expiration_timestamp_ms,
            progress: self.progress,
        }
    }
}

} // verus!
