//! Gallery browsing rules: which files count as images, the thumbnail
//! geometry per size name, and which remote jobs are worth showing — the
//! completed ones that still carry a result, up to the configured limit.

use vstd::prelude::*;

use crate::job::JobSnapshot;
use crate::request::ascii_lower;
use crate::request::to_ascii_lower;
use crate::strutil::str_eq;

verus! {

/// The file extensions browsed as images, compared case-insensitively.
pub open spec fn image_extension(t: Seq<char>) -> bool {
    t == "png"@ || t == "jpg"@ || t == "jpeg"@ || t == "webp"@ || t == "gif"@
}

/// Whether a file extension names an image format.
pub fn is_image_extension(ext: &str) -> (r: bool)
    ensures
        r == image_extension(ascii_lower(ext@)),
{
    let low = to_ascii_lower(ext);
    str_eq(low.as_str(), "png") || str_eq(low.as_str(), "jpg") || str_eq(low.as_str(), "jpeg")
        || str_eq(low.as_str(), "webp") || str_eq(low.as_str(), "gif")
}

/// The thumbnail geometry per size name: `medium` is larger, everything
/// else is small.
pub fn thumbnail_size(size: &str) -> (r: (u32, u32))
    ensures
        size@ == "medium"@ ==> r == (60u32, 15u32),
        size@ != "medium"@ ==> r == (40u32, 10u32),
{
    if str_eq(size, "medium") {
        (60, 15)
    } else {
        (40, 10)
    }
}

/// Whether a job is shown in the gallery: completed, with a result still
/// referenced.
pub open spec fn gallery_pick(j: JobSnapshot) -> bool {
    j.status is Completed && j.result_url is Some
}

/// The indices of the first `k` gallery-worthy jobs, in order.
pub open spec fn picks_limited(s: Seq<JobSnapshot>, k: int) -> Seq<int>
    decreases s.len(),
{
    if s.len() == 0 {
        Seq::<int>::empty()
    } else {
        let prev = picks_limited(s.drop_last(), k);
        if gallery_pick(s.last()) && prev.len() < k {
            prev.push(s.len() - 1)
        } else {
            prev
        }
    }
}

/// Selects the jobs shown in the gallery: the first `limit` completed jobs
/// that still carry a result, by their positions in the listing.
pub fn select_gallery_indices(jobs: &Vec<JobSnapshot>, limit: usize) -> (r: Vec<usize>)
    ensures
        r@.map_values(|x: usize| x as int) == picks_limited(jobs@, limit as int),
{
    let n = jobs.len();
    let mut out: Vec<usize> = Vec::new();
    let mut i: usize = 0;
    proof {
        assert(jobs@.subrange(0, 0) =~= Seq::<JobSnapshot>::empty());
        assert(out@.map_values(|x: usize| x as int) =~= picks_limited(jobs@.subrange(0, 0), limit as int));
    }
    while i < n
        invariant
            n == jobs@.len(),
            i <= n,
            out@.len() <= limit,
            out@.map_values(|x: usize| x as int) == picks_limited(
                jobs@.subrange(0, i as int),
                limit as int,
            ),
        decreases n - i,
    {
        let j = &jobs[i];
        let pick = match j.status {
            crate::job::JobStatus::Completed => j.result_url.is_some(),
            _ => false,
        };
        if pick && out.len() < limit {
            out.push(i);
        }
        i = i + 1;
        proof {
            let post = jobs@.subrange(0, i as int);
            assert(post.drop_last() =~= jobs@.subrange(0, i - 1));
            assert(post.last() == jobs@[i - 1]);
            assert(out@.map_values(|x: usize| x as int) =~= picks_limited(post, limit as int));
        }
    }
    proof {
        assert(jobs@.subrange(0, n as int) =~= jobs@);
    }
    out
}

} // verus!
