//! Choosing the post to act on: among the definitions whose publish time has
//! passed, the one that became due most recently, earliest entry winning a
//! tie.

use vstd::prelude::*;

use crate::post::Post;

verus! {

/// The index the scan settles on after looking at the first `n` definitions:
/// the first entry carrying the largest publish time at or before `now`.
pub open spec fn best_due_upto(posts: Seq<Post>, now: i64, n: int) -> Option<int>
    decreases n,
{
    if n <= 0 {
        None
    } else {
        let prev = best_due_upto(posts, now, n - 1);
        if posts[n - 1].post_at <= now && (prev is None || posts[prev.unwrap()].post_at < posts[n
            - 1].post_at) {
            Some(n - 1)
        } else {
            prev
        }
    }
}

/// The index of the definition to act on, if any is due.
pub open spec fn best_due(posts: Seq<Post>, now: i64) -> Option<int> {
    best_due_upto(posts, now, posts.len() as int)
}

/// What the scan guarantees over any prefix: the chosen definition is due,
/// no due definition has a strictly larger publish time, and no earlier
/// definition ties with it.
proof fn lemma_best_due_upto_props(posts: Seq<Post>, now: i64, n: int)
    requires
        0 <= n <= posts.len(),
    ensures
        match best_due_upto(posts, now, n) {
            None => forall|j: int| 0 <= j < n ==> posts[j].post_at > now,
            Some(i) => {
                &&& 0 <= i < n
                &&& posts[i].post_at <= now
                &&& forall|j: int|
                    0 <= j < n && posts[j].post_at <= now ==> posts[j].post_at <= posts[i].post_at
                &&& forall|j: int| 0 <= j < i ==> posts[j].post_at != posts[i].post_at || posts[j].post_at > now
            },
        },
    decreases n,
{
    if n > 0 {
        lemma_best_due_upto_props(posts, now, n - 1);
    }
}

/// The chosen post, when there is one, is due, and no other due post became
/// due more recently; a tie on the publish time goes to the earliest entry.
pub proof fn lemma_selected_post_is_latest_due(posts: Seq<Post>, now: i64)
    ensures
        match best_due(posts, now) {
            None => forall|j: int| 0 <= j < posts.len() ==> posts[j].post_at > now,
            Some(i) => {
                &&& 0 <= i < posts.len()
                &&& posts[i].post_at <= now
                &&& forall|j: int|
                    0 <= j < posts.len() && posts[j].post_at <= now ==> posts[j].post_at
                        <= posts[i].post_at
                &&& forall|j: int| 0 <= j < i ==> posts[j].post_at != posts[i].post_at || posts[j].post_at > now
            },
        },
{
    lemma_best_due_upto_props(posts, now, posts.len() as int);
}

/// When every definition is scheduled strictly after `now`, nothing is
/// selected.
pub proof fn lemma_nothing_due_selects_none(posts: Seq<Post>, now: i64)
    requires
        forall|j: int| 0 <= j < posts.len() ==> posts[j].post_at > now,
    ensures
        best_due(posts, now) is None,
{
    lemma_selected_post_is_latest_due(posts, now);
    match best_due(posts, now) {
        Some(i) => assert(posts[i].post_at > now),
        None => (),
    }
}

/// Picks the definition whose publish time most recently passed, if any has
/// passed at all.
pub fn select(posts: &Vec<Post>, now: i64) -> (r: Option<usize>)
    ensures
        match r {
            None => best_due(posts@, now) is None,
            Some(i) => i < posts@.len() && best_due(posts@, now) == Some(i as int),
        },
{
    let n = posts.len();
    let mut best: Option<usize> = None;
    let mut i: usize = 0;
    while i < n
        invariant
            n == posts@.len(),
            i <= n,
            match best {
                None => best_due_upto(posts@, now, i as int) is None,
                Some(b) => b < i && best_due_upto(posts@, now, i as int) == Some(b as int),
            },
        decreases n - i,
    {
        if posts[i].post_at <= now {
            let replace = match best {
                None => true,
                Some(b) => posts[b].post_at < posts[i].post_at,
            };
            if replace {
                best = Some(i);
            }
        }
        i += 1;
    }
    best
}

} // verus!
