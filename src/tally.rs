use vstd::prelude::*;
use crate::game::NUM_INNINGS_DEFAULT;

verus! {

/// Number of game lengths the tally can hold: innings 10 through 255.
pub const NUM_EXTRA_INNING_LENGTHS: usize = 246;

/// Sum of a sequence of counts.
pub open spec fn seq_sum(s: Seq<usize>) -> int
    decreases s.len(),
{
    if s.len() == 0 {
        0
    } else {
        seq_sum(s.drop_last()) + s.last()
    }
}

proof fn lemma_sum_prefix_bounded(s: Seq<usize>, i: int)
    requires
        0 <= i <= s.len(),
    ensures
        0 <= seq_sum(s.subrange(0, i)) <= seq_sum(s),
    decreases s.len(),
{
    if i < s.len() {
        assert(s.drop_last().subrange(0, i) =~= s.subrange(0, i));
        lemma_sum_prefix_bounded(s.drop_last(), i);
    } else {
        assert(s.subrange(0, i) =~= s);
        if s.len() > 0 {
            lemma_sum_prefix_bounded(s.drop_last(), i - 1);
            assert(s.drop_last().subrange(0, i - 1) =~= s.drop_last());
        }
    }
}

proof fn lemma_sum_element_bounded(s: Seq<usize>, i: int)
    requires
        0 <= i < s.len(),
    ensures
        s[i] <= seq_sum(s),
    decreases s.len(),
{
    lemma_sum_prefix_bounded(s.drop_last(), s.len() - 1);
    assert(s.drop_last().subrange(0, s.len() - 1) =~= s.drop_last());
    if i < s.len() - 1 {
        lemma_sum_element_bounded(s.drop_last(), i);
    }
}

proof fn lemma_sum_update(s: Seq<usize>, i: int, v: usize)
    requires
        0 <= i < s.len(),
    ensures
        seq_sum(s.update(i, v)) == seq_sum(s) - s[i] + v,
    decreases s.len(),
{
    if i < s.len() - 1 {
        assert(s.update(i, v).drop_last() =~= s.drop_last().update(i, v));
        lemma_sum_update(s.drop_last(), i, v);
    } else {
        assert(s.update(i, v).drop_last() =~= s.drop_last());
    }
}

/// How many games ended after each number of innings past regulation.
pub struct InningCounts {
    counts: Vec<usize>,
    total: usize,
}

impl InningCounts {
    /// One count per length 10..=255, and a total that is their sum.
    pub closed spec fn wf(&self) -> bool {
        self.counts@.len() == NUM_EXTRA_INNING_LENGTHS && self.total == seq_sum(self.counts@)
    }

    /// Games counted that lasted `inning` innings; zero for any length within regulation.
    pub closed spec fn count(&self, inning: int) -> nat {
        if NUM_INNINGS_DEFAULT < inning <= 255 {
            self.counts@[inning - 10] as nat
        } else {
            0
        }
    }

    /// Games counted over all lengths.
    pub closed spec fn total_spec(&self) -> nat {
        self.total as nat
    }

    /// A tally holds no game that ended within regulation.
    pub proof fn lemma_no_counts_within_regulation(&self, inning: int)
        requires
            inning <= NUM_INNINGS_DEFAULT,
        ensures
            self.count(inning) == 0,
    {
    }

    /// An empty tally.
    pub fn new() -> (r: Self)
        ensures
            r.wf(),
            r.total_spec() == 0,
            forall|inning: int| r.count(inning) == 0,
    {
        let mut counts: Vec<usize> = Vec::new();
        while counts.len() < NUM_EXTRA_INNING_LENGTHS
            invariant
                counts.len() <= NUM_EXTRA_INNING_LENGTHS,
                forall|j: int| 0 <= j < counts.len() ==> counts@[j] == 0,
                seq_sum(counts@) == 0,
            decreases NUM_EXTRA_INNING_LENGTHS - counts.len(),
        {
            proof {
                assert(counts@.push(0).drop_last() =~= counts@);
            }
            counts.push(0);
        }
        InningCounts { counts, total: 0 }
    }

    /// Counts one more game that lasted `num_innings` innings, past regulation.
    pub fn update_inning_count(&mut self, num_innings: u8)
        requires
            old(self).wf(),
            num_innings > NUM_INNINGS_DEFAULT,
            old(self).total_spec() < usize::MAX,
        ensures
            final(self).wf(),
            final(self).total_spec() == old(self).total_spec() + 1,
            final(self).count(num_innings as int) == old(self).count(num_innings as int) + 1,
            forall|inning: int|
                inning != num_innings ==> #[trigger] final(self).count(inning) == old(self).count(
                    inning,
                ),
    {
        let inning_index = num_innings as usize - 10;
        proof {
            lemma_sum_element_bounded(self.counts@, inning_index as int);
            lemma_sum_update(self.counts@, inning_index as int, (self.counts@[inning_index as int] + 1) as usize);
        }
        let current = self.counts[inning_index];
        self.counts.set(inning_index, current + 1);
        self.total = self.total + 1;
    }

    /// Counts a finished game that lasted `num_innings` innings if it went past
    /// regulation, and says whether it did.
    pub fn record_game(&mut self, num_innings: u8) -> (r: bool)
        requires
            old(self).wf(),
            old(self).total_spec() < usize::MAX,
        ensures
            final(self).wf(),
            r == (num_innings > NUM_INNINGS_DEFAULT),
            final(self).total_spec() == old(self).total_spec() + (if r { 1int } else { 0 }),
            forall|inning: int|
                #[trigger] final(self).count(inning) == old(self).count(inning) + (if r && inning
                    == num_innings { 1int } else { 0 }),
    {
        if num_innings > NUM_INNINGS_DEFAULT {
            self.update_inning_count(num_innings);
            true
        } else {
            false
        }
    }

    /// Adds every count of `other` to this tally.
    pub fn merge(&mut self, other: &InningCounts)
        requires
            old(self).wf(),
            other.wf(),
            old(self).total_spec() + other.total_spec() <= usize::MAX,
        ensures
            final(self).wf(),
            final(self).total_spec() == old(self).total_spec() + other.total_spec(),
            forall|inning: int|
                #[trigger] final(self).count(inning) == old(self).count(inning) + other.count(
                    inning,
                ),
    {
        let ghost start = self.counts@;
        let mut i: usize = 0;
        while i < NUM_EXTRA_INNING_LENGTHS
            invariant
                0 <= i <= NUM_EXTRA_INNING_LENGTHS,
                other.wf(),
                start.len() == NUM_EXTRA_INNING_LENGTHS,
                self.counts@.len() == NUM_EXTRA_INNING_LENGTHS,
                self.total == seq_sum(start),
                self.total + other.total <= usize::MAX,
                forall|j: int| 0 <= j < i ==> self.counts@[j] == start[j] + other.counts@[j],
                forall|j: int| i <= j < NUM_EXTRA_INNING_LENGTHS ==> self.counts@[j] == start[j],
                seq_sum(self.counts@) == seq_sum(start) + seq_sum(other.counts@.subrange(0, i as int)),
            decreases NUM_EXTRA_INNING_LENGTHS - i,
        {
            let add = other.counts[i];
            proof {
                assert(other.counts@.subrange(0, i + 1).drop_last() =~= other.counts@.subrange(0, i as int));
                lemma_sum_prefix_bounded(other.counts@, i + 1);
                lemma_sum_element_bounded(self.counts@, i as int);
                lemma_sum_update(self.counts@, i as int, (self.counts@[i as int] + add) as usize);
            }
            let current = self.counts[i];
            self.counts.set(i, current + add);
            i = i + 1;
        }
        proof {
            assert(other.counts@.subrange(0, NUM_EXTRA_INNING_LENGTHS as int) =~= other.counts@);
        }
        self.total = self.total + other.total;
    }

    /// Games counted over all lengths.
    pub fn total(&self) -> (r: usize)
        ensures
            r == self.total_spec(),
    {
        self.total
    }

    /// Games counted that lasted `inning` innings.
    pub fn count_of(&self, inning: u8) -> (r: usize)
        requires
            self.wf(),
        ensures
            r == self.count(inning as int),
    {
        if inning > NUM_INNINGS_DEFAULT {
            self.counts[inning as usize - 10]
        } else {
            0
        }
    }

    /// Each length with a non-zero count and its count, by increasing length.
    pub fn entries(&self) -> (r: Vec<(u8, usize)>)
        requires
            self.wf(),
        ensures
            forall|k: int|
                0 <= k < r@.len() ==> (#[trigger] r@[k]).0 > NUM_INNINGS_DEFAULT && r@[k].1 > 0
                    && r@[k].1 == self.count(r@[k].0 as int),
            forall|k: int, l: int| 0 <= k < l < r@.len() ==> r@[k].0 < r@[l].0,
            forall|inning: int|
                #[trigger] self.count(inning) > 0 ==> exists|k: int|
                    0 <= k < r@.len() && r@[k].0 == inning,
    {
        let mut r: Vec<(u8, usize)> = Vec::new();
        let mut i: usize = 0;
        while i < NUM_EXTRA_INNING_LENGTHS
            invariant
                self.wf(),
                0 <= i <= NUM_EXTRA_INNING_LENGTHS,
                forall|k: int|
                    0 <= k < r@.len() ==> (#[trigger] r@[k]).0 > NUM_INNINGS_DEFAULT && r@[k].1
                        > 0 && r@[k].1 == self.count(r@[k].0 as int) && r@[k].0 < i + 10,
                forall|k: int, l: int| 0 <= k < l < r@.len() ==> r@[k].0 < r@[l].0,
                forall|inning: int|
                    NUM_INNINGS_DEFAULT < inning < i + 10 && #[trigger] self.count(inning) > 0
                        ==> exists|k: int| 0 <= k < r@.len() && r@[k].0 == inning,
            decreases NUM_EXTRA_INNING_LENGTHS - i,
        {
            let c = self.counts[i];
            let ghost before = r@;
            if c > 0 {
                let inning = (i + 10) as u8;
                r.push((inning, c));
                assert(r@[r@.len() - 1].0 == inning);
            }
            proof {
                assert forall|inning: int|
                    NUM_INNINGS_DEFAULT < inning < i + 11 && #[trigger] self.count(inning) > 0
                        implies exists|k: int| 0 <= k < r@.len() && r@[k].0 == inning by {
                    if inning == i + 10 {
                        assert(r@[r@.len() - 1].0 == inning);
                    } else {
                        let k = choose|k: int| 0 <= k < before.len() && before[k].0 == inning;
                        assert(r@[k] == before[k]);
                    }
                }
            }
            i = i + 1;
        }
        r
    }
}

} // verus!
