//! The orders in which jobs are listed and claimed, and the selection of the
//! first jobs of a filtered list in such an order.

use vstd::prelude::*;
use crate::job::{Job, JobView};
use crate::text::chars_of;

verus! {

/// Lexicographic order of character sequences by code point, the order of
/// Rust's `String` comparison.
pub open spec fn chars_lt(a: Seq<char>, b: Seq<char>) -> bool
    decreases a.len(),
{
    if a.len() == 0 {
        b.len() > 0
    } else if b.len() == 0 {
        false
    } else if a[0] != b[0] {
        (a[0] as u32) < (b[0] as u32)
    } else {
        chars_lt(a.drop_first(), b.drop_first())
    }
}

/// No sequence precedes itself.
pub proof fn lemma_chars_lt_irreflexive(a: Seq<char>)
    ensures
        !chars_lt(a, a),
    decreases a.len(),
{
    if a.len() > 0 {
        lemma_chars_lt_irreflexive(a.drop_first());
    }
}

/// The order is transitive.
pub proof fn lemma_chars_lt_transitive(a: Seq<char>, b: Seq<char>, c: Seq<char>)
    requires
        chars_lt(a, b),
        chars_lt(b, c),
    ensures
        chars_lt(a, c),
    decreases a.len(),
{
    if a.len() > 0 && b.len() > 0 && c.len() > 0 {
        if a[0] == b[0] && b[0] == c[0] {
            lemma_chars_lt_transitive(a.drop_first(), b.drop_first(), c.drop_first());
        }
    }
}

/// Two distinct sequences are ordered one way or the other.
pub proof fn lemma_chars_lt_total(a: Seq<char>, b: Seq<char>)
    requires
        a != b,
    ensures
        chars_lt(a, b) || chars_lt(b, a),
    decreases a.len(),
{
    if a.len() > 0 && b.len() > 0 {
        if a[0] == b[0] {
            if a.drop_first() == b.drop_first() {
                assert(a =~= seq![a[0]] + a.drop_first());
                assert(b =~= seq![b[0]] + b.drop_first());
            }
            lemma_chars_lt_total(a.drop_first(), b.drop_first());
        } else {
            vstd::utf8::char_u32_cast(a[0], a[0] as u32);
            vstd::utf8::char_u32_cast(b[0], b[0] as u32);
        }
    } else if a.len() == 0 && b.len() == 0 {
        assert(a =~= b);
    }
}

/// The order is asymmetric.
pub proof fn lemma_chars_lt_asymmetric(a: Seq<char>, b: Seq<char>)
    requires
        chars_lt(a, b),
    ensures
        !chars_lt(b, a),
{
    if chars_lt(b, a) {
        lemma_chars_lt_transitive(a, b, a);
        lemma_chars_lt_irreflexive(a);
    }
}

/// Whether `a` precedes `b` in code-point lexicographic order.
pub fn str_lt(a: &str, b: &str) -> (r: bool)
    ensures
        r == chars_lt(a@, b@),
{
    let ca = chars_of(a);
    let cb = chars_of(b);
    let mut i: usize = 0;
    assert(ca@.skip(0) =~= ca@);
    assert(cb@.skip(0) =~= cb@);
    while i < ca.len() && i < cb.len() && ca[i] == cb[i]
        invariant
            i <= ca@.len(),
            i <= cb@.len(),
            chars_lt(a@, b@) == chars_lt(ca@.skip(i as int), cb@.skip(i as int)),
            ca@ == a@,
            cb@ == b@,
        decreases ca.len() - i,
    {
        assert(ca@.skip(i as int).drop_first() =~= ca@.skip(i + 1));
        assert(cb@.skip(i as int).drop_first() =~= cb@.skip(i + 1));
        i = i + 1;
    }
    if i == ca.len() {
        i < cb.len()
    } else if i == cb.len() {
        false
    } else {
        (ca[i] as u32) < (cb[i] as u32)
    }
}

/// The timestamp by which jobs are ordered.
#[derive(Debug, Clone, Copy, PartialEq, Eq, Structural)]
pub enum JobOrderField {
    CreationTimestamp,
    UpdateTimestamp,
}

/// The ordering timestamp of a job.
pub open spec fn order_key(job: JobView, field: JobOrderField) -> i64 {
    match field {
        JobOrderField::CreationTimestamp => job.creation_timestamp_ms,
        JobOrderField::UpdateTimestamp => job.update_timestamp_ms,
    }
}

/// `a` comes before `b` when ordered by `field`, ascending or descending,
/// with the destination URI, in the same direction, breaking ties.
pub open spec fn job_before(a: JobView, b: JobView, field: JobOrderField, descending: bool) -> bool {
    let ka = order_key(a, field);
    let kb = order_key(b, field);
    if descending {
        ka > kb || (ka == kb && chars_lt(b.destination_uri, a.destination_uri))
    } else {
        ka < kb || (ka == kb && chars_lt(a.destination_uri, b.destination_uri))
    }
}

/// No job comes before itself.
pub proof fn lemma_job_before_irreflexive(a: JobView, field: JobOrderField, descending: bool)
    ensures
        !job_before(a, a, field, descending),
{
    lemma_chars_lt_irreflexive(a.destination_uri);
}

/// The job order is transitive.
pub proof fn lemma_job_before_transitive(
    a: JobView,
    b: JobView,
    c: JobView,
    field: JobOrderField,
    descending: bool,
)
    requires
        job_before(a, b, field, descending),
        job_before(b, c, field, descending),
    ensures
        job_before(a, c, field, descending),
{
    if order_key(a, field) == order_key(b, field) && order_key(b, field) == order_key(c, field) {
        if descending {
            lemma_chars_lt_transitive(c.destination_uri, b.destination_uri, a.destination_uri);
        } else {
            lemma_chars_lt_transitive(a.destination_uri, b.destination_uri, c.destination_uri);
        }
    }
}

/// Jobs with distinct destinations are ordered one way or the other.
pub proof fn lemma_job_before_total(a: JobView, b: JobView, field: JobOrderField, descending: bool)
    requires
        a.destination_uri != b.destination_uri,
    ensures
        job_before(a, b, field, descending) || job_before(b, a, field, descending),
{
    lemma_chars_lt_total(a.destination_uri, b.destination_uri);
}

/// The job order is asymmetric.
pub proof fn lemma_job_before_asymmetric(a: JobView, b: JobView, field: JobOrderField, descending: bool)
    requires
        job_before(a, b, field, descending),
    ensures
        !job_before(b, a, field, descending),
{
    if job_before(b, a, field, descending) {
        lemma_job_before_transitive(a, b, a, field, descending);
        lemma_job_before_irreflexive(a, field, descending);
    }
}

/// Whether `a` comes before `b` in the given order.
pub fn precedes(a: &Job, b: &Job, field: JobOrderField, descending: bool) -> (r: bool)
    ensures
        r == job_before(a@, b@, field, descending),
{
    let (ka, kb) = match field {
        JobOrderField::CreationTimestamp => (a.creation_timestamp_ms, b.creation_timestamp_ms),
        JobOrderField::UpdateTimestamp => (a.update_timestamp_ms, b.update_timestamp_ms),
    };
    if descending {
        ka > kb || (ka == kb && str_lt(b.destination_uri.as_str(), a.destination_uri.as_str()))
    } else {
        ka < kb || (ka == kb && str_lt(a.destination_uri.as_str(), b.destination_uri.as_str()))
    }
}

/// No two jobs share a destination URI.
pub open spec fn destinations_unique(jobs: Seq<JobView>) -> bool {
    forall|a: int, b: int|
        0 <= a < jobs.len() && 0 <= b < jobs.len() && a != b ==> jobs[a].destination_uri
            != jobs[b].destination_uri
}

/// `picked` lists, in order, the first at most `limit` jobs among those
/// marked in `marked`: every picked job is marked, picked jobs are in order,
/// every marked job that was left out comes after all picked ones, and fewer
/// than `limit` are picked only when no marked job was left out.
pub open spec fn is_first_in_order(
    jobs: Seq<JobView>,
    marked: Seq<bool>,
    field: JobOrderField,
    descending: bool,
    limit: nat,
    picked: Seq<usize>,
) -> bool {
    &&& picked.len() <= limit
    &&& forall|k: int| 0 <= k < picked.len() ==> picked[k] < jobs.len() && marked[picked[k] as int]
    &&& forall|k1: int, k2: int|
        0 <= k1 < k2 < picked.len() ==> job_before(
            jobs[picked[k1] as int],
            jobs[picked[k2] as int],
            field,
            descending,
        )
    &&& forall|i: int|
        0 <= i < jobs.len() && marked[i] && !picked.contains(i as usize) ==> {
            &&& picked.len() == limit
            &&& forall|k: int|
                0 <= k < picked.len() ==> job_before(jobs[picked[k] as int], jobs[i], field, descending)
        }
}

/// Picks, in order, the first at most `limit` jobs among those marked.
pub fn first_in_order(
    jobs: &Vec<Job>,
    marked: &Vec<bool>,
    field: JobOrderField,
    descending: bool,
    limit: usize,
) -> (picked: Vec<usize>)
    requires
        marked@.len() == jobs@.len(),
        destinations_unique(jobs@.map_values(|job: Job| job@)),
    ensures
        is_first_in_order(jobs@.map_values(|job: Job| job@), marked@, field, descending, limit as nat, picked@),
{
    let ghost views = jobs@.map_values(|job: Job| job@);
    let mut picked: Vec<usize> = Vec::new();
    while picked.len() < limit
        invariant
            views == jobs@.map_values(|job: Job| job@),
            views.len() == jobs@.len(),
            marked@.len() == jobs@.len(),
            destinations_unique(views),
            picked@.len() <= limit,
            forall|k: int| 0 <= k < picked@.len() ==> picked@[k] < jobs@.len() && marked@[picked@[k] as int],
            forall|k1: int, k2: int|
                0 <= k1 < k2 < picked@.len() ==> job_before(
                    views[picked@[k1] as int],
                    views[picked@[k2] as int],
                    field,
                    descending,
                ),
            forall|i: int|
                0 <= i < views.len() && marked@[i] && !picked@.contains(i as usize) ==> forall|k: int|
                    0 <= k < picked@.len() ==> job_before(views[picked@[k] as int], views[i], field, descending),
        ensures
            is_first_in_order(views, marked@, field, descending, limit as nat, picked@),
        decreases limit - picked.len(),
    {
        let mut best: Option<usize> = None;
        let mut i: usize = 0;
        while i < jobs.len()
            invariant
                views == jobs@.map_values(|job: Job| job@),
                views.len() == jobs@.len(),
                marked@.len() == jobs@.len(),
                destinations_unique(views),
                i <= jobs@.len(),
                forall|k: int| 0 <= k < picked@.len() ==> picked@[k] < jobs@.len(),
                best matches Some(b) ==> {
                    &&& b < i
                    &&& marked@[b as int]
                    &&& (picked@.len() == 0 || job_before(
                        views[picked@[picked@.len() - 1] as int],
                        views[b as int],
                        field,
                        descending,
                    ))
                },
                forall|j: int|
                    0 <= j < i && marked@[j] && (picked@.len() == 0 || job_before(
                        views[picked@[picked@.len() - 1] as int],
                        views[j],
                        field,
                        descending,
                    )) ==> best is Some && (j == best->0 || job_before(
                        views[best->0 as int],
                        views[j],
                        field,
                        descending,
                    )),
            decreases jobs.len() - i,
        {
            if marked[i] {
                let after_last = if picked.len() == 0 {
                    true
                } else {
                    precedes(&jobs[picked[picked.len() - 1]], &jobs[i], field, descending)
                };
                if after_last {
                    let better = match best {
                        None => true,
                        Some(b) => precedes(&jobs[i], &jobs[b], field, descending),
                    };
                    if better {
                        proof {
                            if let Some(b) = best {
                                assert forall|j: int|
                                    0 <= j < i && marked@[j] && (picked@.len() == 0 || job_before(
                                        views[picked@[picked@.len() - 1] as int],
                                        views[j],
                                        field,
                                        descending,
                                    )) implies (j == i || job_before(
                                        views[i as int],
                                        views[j],
                                        field,
                                        descending,
                                    )) by {
                                    if j != b {
                                        lemma_job_before_transitive(
                                            views[i as int],
                                            views[b as int],
                                            views[j],
                                            field,
                                            descending,
                                        );
                                    }
                                }
                            }
                        }
                        best = Some(i);
                    } else {
                        proof {
                            let b = best->0;
                            assert(b != i);
                            lemma_job_before_total(views[i as int], views[b as int], field, descending);
                        }
                    }
                }
            }
            i = i + 1;
        }
        match best {
            None => {
                proof {
                    assert forall|i: int|
                        0 <= i < views.len() && marked@[i] && !picked@.contains(i as usize) implies {
                            &&& picked@.len() == limit as nat
                            &&& forall|k: int|
                                0 <= k < picked@.len() ==> job_before(
                                    views[picked@[k] as int],
                                    views[i],
                                    field,
                                    descending,
                                )
                        } by {
                        if picked@.len() > 0 {
                            assert(job_before(views[picked@[picked@.len() - 1] as int], views[i], field, descending));
                        }
                    }
                }
                return picked;
            },
            Some(b) => {
                let ghost old_picked = picked@;
                proof {
                    assert forall|k: int| 0 <= k < old_picked.len() implies old_picked[k] != b by {
                        if k < old_picked.len() - 1 {
                            lemma_job_before_transitive(
                                views[old_picked[k] as int],
                                views[old_picked[old_picked.len() - 1] as int],
                                views[b as int],
                                field,
                                descending,
                            );
                        }
                        lemma_job_before_irreflexive(views[b as int], field, descending);
                    }
                    assert forall|k: int| 0 <= k < old_picked.len() implies job_before(
                        views[old_picked[k] as int],
                        views[b as int],
                        field,
                        descending,
                    ) by {
                        if k < old_picked.len() - 1 {
                            lemma_job_before_transitive(
                                views[old_picked[k] as int],
                                views[old_picked[old_picked.len() - 1] as int],
                                views[b as int],
                                field,
                                descending,
                            );
                        }
                    }
                }
                picked.push(b);
                proof {
                    assert forall|i: int|
                        0 <= i < views.len() && marked@[i] && !picked@.contains(i as usize) implies forall|k: int|
                            0 <= k < picked@.len() ==> job_before(
                                views[picked@[k] as int],
                                views[i],
                                field,
                                descending,
                            ) by {
                        assert(!old_picked.contains(i as usize)) by {
                            if old_picked.contains(i as usize) {
                                let k = choose|k: int| 0 <= k < old_picked.len() && old_picked[k] == i as usize;
                                assert(picked@[k] == i as usize);
                            }
                        }
                        assert(i != b) by {
                            assert(picked@[picked@.len() - 1] == b);
                        }
                        if old_picked.len() > 0 {
                            assert(job_before(views[old_picked[old_picked.len() - 1] as int], views[i], field, descending));
                        }
                        assert(job_before(views[b as int], views[i], field, descending));
                    }
                }
            },
        }
    }
    picked
}

} // verus!
