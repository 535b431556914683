//! How many messages of a watch are shown.

use vstd::prelude::*;

verus! {

/// The messages that may still be shown; all that come where there is no limit.
#[derive(Clone, Copy, Debug, PartialEq, Eq, Structural)]
pub struct WatchLimit {
    pub left: Option<u32>,
}

/// What is left after one more message was asked for.
pub open spec fn left_after_one(left: Option<u32>) -> Option<u32> {
    match left {
        Some(n) => Some(if n > 0 {
            (n - 1) as u32
        } else {
            0
        }),
        None => None,
    }
}

/// What is left after `asked` messages were asked for.
pub open spec fn left_after(limit: Option<u32>, asked: nat) -> Option<u32>
    decreases asked,
{
    if asked == 0 {
        limit
    } else {
        left_after_one(left_after(limit, (asked - 1) as nat))
    }
}

/// Whether one more message is shown.
pub open spec fn one_more(left: Option<u32>) -> bool {
    left matches Some(n) ==> n > 0
}

impl WatchLimit {
    pub fn new(limit: Option<u32>) -> (watch: WatchLimit)
        ensures
            watch.left == limit,
    {
        WatchLimit { left: limit }
    }

    /// Whether one more message is shown, which then counts against the limit.
    pub fn next(&mut self) -> (more: bool)
        ensures
            more == one_more(old(self).left),
            final(self).left == left_after_one(old(self).left),
            more <==> old(self).left != Some(0u32),
            old(self).left is None ==> final(self).left is None,
            old(self).left matches Some(n) ==> (final(self).left matches Some(m) && m == (if n > 0 {
                n - 1
            } else {
                0
            })),
    {
        match self.left {
            Some(n) => {
                if n > 0 {
                    self.left = Some(n - 1);
                    true
                } else {
                    false
                }
            },
            None => true,
        }
    }
}

/// A limit lets exactly that many messages through; without one all of them pass.
pub proof fn law_limit_is_exact(limit: Option<u32>, asked: nat)
    ensures
        one_more(left_after(limit, asked)) <==> (limit matches Some(n) ==> asked < n),
{
    lemma_left_after(limit, asked);
}

proof fn lemma_left_after(limit: Option<u32>, asked: nat)
    ensures
        left_after(limit, asked) == (match limit {
            Some(n) => Some(if asked < n {
                (n - asked) as u32
            } else {
                0
            }),
            None => None,
        }),
    decreases asked,
{
    if asked > 0 {
        lemma_left_after(limit, (asked - 1) as nat);
    }
}

/// What is left counts down with every message that is asked for, and stays unlimited where there
/// is no limit.
pub proof fn law_limit_counts_down(limit: Option<u32>, asked: nat)
    ensures
        limit is None ==> left_after(limit, asked) is None,
        limit matches Some(n) ==> (left_after(limit, asked) matches Some(m) && m == (if asked < n {
            n - asked
        } else {
            0
        })),
{
    lemma_left_after(limit, asked);
}

} // verus!
