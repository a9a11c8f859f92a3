//! The duplicate scan: walking a newest-first listing of already published
//! posts, page by page, to decide whether the scheduled post is already
//! there.
//!
//! The walk is bounded: a page whose newest record predates the target time
//! ends it before collecting anything, and a page whose oldest record
//! predates the target time is the last one collected from. Candidates are
//! the bot's own records published at or after the target time; the final
//! verdict compares their titles with the target title.

use vstd::prelude::*;

verus! {

/// One already published post, as the listing reports it: its title, its
/// publish time as Unix seconds, and the numeric identity of its author.
#[derive(Debug)]
pub struct RemoteRecord {
    /// The title of the published post.
    pub title: String,
    /// When it was published, as Unix seconds.
    pub published: i64,
    /// The numeric identity of the account that published it.
    pub author: i64,
}

/// Whether a record can be the scheduled post: published by the bot itself,
/// at or after the target time.
pub open spec fn is_candidate(record: RemoteRecord, target_time: i64, author_id: i64) -> bool {
    record.author == author_id && record.published >= target_time
}

/// The candidates of a page, in page order.
pub open spec fn page_candidates(
    page: Seq<RemoteRecord>,
    target_time: i64,
    author_id: i64,
) -> Seq<RemoteRecord>
    decreases page.len(),
{
    if page.len() == 0 {
        Seq::empty()
    } else {
        let rest = page_candidates(page.drop_first(), target_time, author_id);
        if is_candidate(page[0], target_time, author_id) {
            seq![page[0]] + rest
        } else {
            rest
        }
    }
}

/// Whether a page, being nonempty and reaching back to the target time with
/// its newest record, asks for the page after it to be fetched as well.
pub open spec fn wants_next_page(page: Seq<RemoteRecord>, target_time: i64) -> bool {
    page.len() > 0 && page[0].published >= target_time && page.last().published >= target_time
}

/// Takes one fetched page into the scan. Candidates of the page are appended
/// to the collected ones, unless the whole page lies past the candidate
/// window; the result says whether another page must be fetched.
pub fn scan_page(
    candidates: &mut Vec<RemoteRecord>,
    page: &Vec<RemoteRecord>,
    target_time: i64,
    author_id: i64,
) -> (fetch_next: bool)
    ensures
        page@.len() == 0 ==> final(candidates)@ == old(candidates)@,
        page@.len() > 0 && page@[0].published < target_time ==> final(candidates)@ == old(
            candidates,
        )@,
        page@.len() > 0 && page@[0].published >= target_time ==> final(candidates)@ == old(
            candidates,
        )@ + page_candidates(page@, target_time, author_id),
        fetch_next == wants_next_page(page@, target_time),
{
    let n = page.len();
    if n == 0 {
        return false;
    }
    if page[0].published < target_time {
        return false;
    }
    let is_last = page[n - 1].published < target_time;

    let mut i: usize = 0;
    proof {
        assert(page@.skip(0) =~= page@);
    }
    while i < n
        invariant
            n == page@.len(),
            i <= n,
            candidates@ + page_candidates(page@.skip(i as int), target_time, author_id) == old(
                candidates,
            )@ + page_candidates(page@, target_time, author_id),
        decreases n - i,
    {
        proof {
            assert(page@.skip(i as int).drop_first() =~= page@.skip(i + 1));
        }
        let record = &page[i];
        if record.author == author_id && record.published >= target_time {
            let copied = RemoteRecord {
                title: record.title.clone(),
                published: record.published,
                author: record.author,
            };
            proof {
                assert(copied == page@[i as int]);
                assert(candidates@.push(page@[i as int]) + page_candidates(
                    page@.skip(i + 1),
                    target_time,
                    author_id,
                ) =~= candidates@ + (seq![page@[i as int]] + page_candidates(
                    page@.skip(i + 1),
                    target_time,
                    author_id,
                )));
            }
            candidates.push(copied);
        }
        i += 1;
    }
    proof {
        assert(page@.skip(n as int) =~= Seq::<RemoteRecord>::empty());
        assert(candidates@ + Seq::<RemoteRecord>::empty() =~= candidates@);
    }
    !is_last
}

/// Whether some collected candidate carries exactly the given title.
pub open spec fn title_found(candidates: Seq<RemoteRecord>, title: Seq<char>) -> bool {
    exists|j: int| 0 <= j < candidates.len() && candidates[j].title@ == title
}

/// The verdict once scanning stopped: the post counts as already published
/// exactly when a candidate's title equals the target title. A post with no
/// title matches nothing.
pub fn scan_conclude(candidates: &Vec<RemoteRecord>, target_title: &Option<String>) -> (r: bool)
    ensures
        r == match *target_title {
            Some(t) => title_found(candidates@, t@),
            None => false,
        },
{
    match target_title {
        None => false,
        Some(title) => {
            let n = candidates.len();
            let mut i: usize = 0;
            while i < n
                invariant
                    n == candidates@.len(),
                    i <= n,
                    *target_title == Some(*title),
                    forall|j: int| 0 <= j < i ==> candidates@[j].title@ != title@,
                decreases n - i,
            {
                if candidates[i].title == *title {
                    proof {
                        assert(title_found(candidates@, title@)) by {
                            assert(0 <= i < candidates@.len() && candidates@[i as int].title@
                                == title@);
                        }
                    }
                    return true;
                }
                i += 1;
            }
            false
        },
    }
}

} // verus!
