//! Summing repository stars across paginated listings.
//!
//! The repository listing comes back in pages of at most one hundred
//! entries, requested in order starting at page one. The aggregation is a
//! small state machine: the caller fetches the page this state asks for,
//! hands over its star counts, and repeats until the state is done — which
//! happens exactly when a page comes back empty, the sole termination
//! condition. The caller performs the requests; every decision is here.

use vstd::prelude::*;

verus! {

/// The sum of a page's star counts, as an unbounded integer.
pub open spec fn seq_sum(s: Seq<u64>) -> int
    decreases s.len(),
{
    if s.len() == 0 {
        0
    } else {
        seq_sum(s.drop_last()) + s.last()
    }
}

/// An unbounded sum clamped to what a counter can hold.
pub open spec fn sat64(x: int) -> u64 {
    if x > u64::MAX {
        u64::MAX
    } else if x < 0 {
        0
    } else {
        x as u64
    }
}

pub proof fn lemma_seq_sum_nonneg(s: Seq<u64>)
    ensures
        seq_sum(s) >= 0,
    decreases s.len(),
{
    if s.len() > 0 {
        lemma_seq_sum_nonneg(s.drop_last());
    }
}

proof fn lemma_seq_sum_push(s: Seq<u64>, x: u64)
    ensures
        seq_sum(s.push(x)) == seq_sum(s) + x,
{
    assert(s.push(x).drop_last() =~= s);
    assert(s.push(x).last() == x);
}

/// Sum one page's star counts, saturating at the counter's maximum.
pub fn page_star_sum(stars: &Vec<u64>) -> (r: u64)
    ensures
        r == sat64(seq_sum(stars@)),
{
    let mut total: u64 = 0;
    let mut i: usize = 0;
    proof {
        assert(stars@.take(0) =~= Seq::<u64>::empty());
    }
    while i < stars.len()
        invariant
            i <= stars@.len(),
            total == sat64(seq_sum(stars@.take(i as int))),
        decreases stars@.len() - i,
    {
        proof {
            assert(stars@.take(i + 1) =~= stars@.take(i as int).push(stars@[i as int]));
            lemma_seq_sum_push(stars@.take(i as int), stars@[i as int]);
            lemma_seq_sum_nonneg(stars@.take(i as int));
        }
        total = total.saturating_add(stars[i]);
        i = i + 1;
    }
    proof {
        assert(stars@.take(stars@.len() as int) =~= stars@);
    }
    total
}

/// The running state of the star aggregation: which page to request next,
/// the stars summed so far, and whether an empty page has ended the walk.
#[derive(Debug, PartialEq, Eq)]
pub struct StarAggregation {
    /// The page number the next request must use.
    pub next_page: u64,
    /// The stars summed over the pages consumed so far.
    pub total: u64,
    /// Whether a page came back empty, ending the aggregation.
    pub done: bool,
}

impl StarAggregation {
    /// The state before any request: page one is next, nothing summed.
    pub fn new() -> (r: StarAggregation)
        ensures
            r.next_page == 1,
            r.total == 0,
            !r.done,
    {
        StarAggregation { next_page: 1, total: 0, done: false }
    }

    /// Fold one fetched page into the state. An empty page ends the
    /// aggregation and changes nothing else; a non-empty page adds its
    /// star counts to the running total (saturating at the counter's
    /// maximum) and moves on to the next page number.
    pub fn consume_page(&mut self, stars: &Vec<u64>)
        requires
            !old(self).done,
        ensures
            stars@.len() == 0 ==> *final(self) == (StarAggregation {
                done: true,
                ..*old(self)
            }),
            stars@.len() > 0 ==> !final(self).done && final(self).total == sat64(
                old(self).total + seq_sum(stars@),
            ) && final(self).next_page == sat64(old(self).next_page + 1),
    {
        if stars.is_empty() {
            self.done = true;
        } else {
            let page_sum: u64 = page_star_sum(stars);
            proof {
                lemma_seq_sum_nonneg(stars@);
            }
            self.total = self.total.saturating_add(page_sum);
            self.next_page = self.next_page.saturating_add(1);
        }
    }
}

} // verus!
