use vstd::prelude::*;

use crate::constants::MAX_CONTRIBUTORS;
use crate::identity::Identity;
use crate::state::invoice::Contribution;

verus! {

/// Sum of the amounts of the first `n` entries.
pub open spec fn amount_prefix(s: Seq<Contribution>, n: int) -> int
    decreases n,
{
    if n <= 0 {
        0
    } else {
        amount_prefix(s, n - 1) + s[n - 1].amount
    }
}

/// Sum of all amounts in `s`.
pub open spec fn total_contributed(s: Seq<Contribution>) -> int {
    amount_prefix(s, s.len() as int)
}

/// Some entry of `s` belongs to `who`.
pub open spec fn has_contributor(s: Seq<Contribution>, who: Identity) -> bool {
    exists|i: int| 0 <= i < s.len() && s[i].contributor == who
}

/// No two entries of `s` belong to the same identity.
pub open spec fn contributors_distinct(s: Seq<Contribution>) -> bool {
    forall|i: int, j: int| 0 <= i < j < s.len() ==> s[i].contributor != s[j].contributor
}

/// What a registry may hold: at most `MAX_CONTRIBUTORS` entries, each of a
/// distinct identity and each for a positive amount.
pub open spec fn valid_entries(s: Seq<Contribution>) -> bool {
    &&& s.len() <= MAX_CONTRIBUTORS
    &&& contributors_distinct(s)
    &&& forall|i: int| 0 <= i < s.len() ==> s[i].amount > 0
}

/// Adding an entry at the end leaves the sums of earlier prefixes alone.
pub proof fn lemma_amount_prefix_push(s: Seq<Contribution>, c: Contribution, n: int)
    requires
        0 <= n <= s.len(),
    ensures
        amount_prefix(s.push(c), n) == amount_prefix(s, n),
    decreases n,
{
    if n > 0 {
        lemma_amount_prefix_push(s, c, n - 1);
    }
}

/// The total after adding an entry grows by that entry's amount.
pub proof fn lemma_total_after_push(s: Seq<Contribution>, c: Contribution)
    ensures
        total_contributed(s.push(c)) == total_contributed(s) + c.amount,
{
    lemma_amount_prefix_push(s, c, s.len() as int);
}

/// A longer prefix never sums to less.
pub proof fn lemma_amount_prefix_monotone(s: Seq<Contribution>, m: int, n: int)
    requires
        0 <= m <= n <= s.len(),
    ensures
        0 <= amount_prefix(s, m) <= amount_prefix(s, n),
    decreases n,
{
    if n > m {
        lemma_amount_prefix_monotone(s, m, n - 1);
    } else if m > 0 {
        lemma_amount_prefix_monotone(s, m - 1, m - 1);
    }
}

/// Each single amount is at most the total.
pub proof fn lemma_entry_within_total(s: Seq<Contribution>, i: int)
    requires
        0 <= i < s.len(),
    ensures
        s[i].amount <= total_contributed(s),
{
    lemma_amount_prefix_monotone(s, i, i + 1);
    lemma_amount_prefix_monotone(s, i + 1, s.len() as int);
}

/// A prefix of `n` entries sums to at most `n` times the largest `u64`.
proof fn lemma_amount_prefix_bound(s: Seq<Contribution>, n: int)
    requires
        0 <= n <= s.len(),
    ensures
        amount_prefix(s, n) <= n * 0xFFFF_FFFF_FFFF_FFFF,
    decreases n,
{
    if n > 0 {
        lemma_amount_prefix_bound(s, n - 1);
    }
}

/// The fixed-capacity, order-preserving list of contributions to one invoice.
/// Entries are only ever appended, and an identity appears at most once.
#[derive(Debug)]
pub struct ContributionRegistry {
    entries: Vec<Contribution>,
}

impl View for ContributionRegistry {
    type V = Seq<Contribution>;

    closed spec fn view(&self) -> Seq<Contribution> {
        self.entries@
    }
}

impl ContributionRegistry {
    pub open spec fn wf(&self) -> bool {
        valid_entries(self@)
    }

    pub fn new() -> (r: ContributionRegistry)
        ensures
            r@ == Seq::<Contribution>::empty(),
            r.wf(),
    {
        ContributionRegistry { entries: Vec::new() }
    }

    /// Number of filled slots.
    pub fn len(&self) -> (r: usize)
        ensures
            r == self@.len(),
    {
        self.entries.len()
    }

    pub fn get(&self, i: usize) -> (r: Contribution)
        requires
            i < self@.len(),
        ensures
            r == self@[i as int],
    {
        self.entries[i]
    }

    /// Linear scan for an entry of `who`.
    pub fn contains(&self, who: &Identity) -> (r: bool)
        ensures
            r == has_contributor(self@, *who),
    {
        let mut i: usize = 0;
        while i < self.entries.len()
            invariant
                0 <= i <= self@.len(),
                forall|j: int| 0 <= j < i ==> self@[j].contributor != *who,
            decreases self@.len() - i,
        {
            if self.entries[i].contributor == *who {
                return true;
            }
            i = i + 1;
        }
        false
    }

    /// Every slot is taken.
    pub fn is_full(&self) -> (r: bool)
        ensures
            r == (self@.len() >= MAX_CONTRIBUTORS),
    {
        self.entries.len() >= MAX_CONTRIBUTORS
    }

    /// Appends a contribution at the current count.
    pub fn push(&mut self, c: Contribution)
        requires
            old(self).wf(),
            old(self)@.len() < MAX_CONTRIBUTORS,
            !has_contributor(old(self)@, c.contributor),
            c.amount > 0,
        ensures
            final(self)@ == old(self)@.push(c),
            final(self).wf(),
    {
        self.entries.push(c);
        assert(contributors_distinct(self@)) by {
            assert forall|i: int, j: int| 0 <= i < j < self@.len() implies self@[i].contributor
                != self@[j].contributor by {
                if j == self@.len() - 1 {
                    assert(old(self)@[i] == self@[i]);
                }
            }
        }
    }

    /// Checks the registry's invariant.
    pub fn is_valid(&self) -> (r: bool)
        ensures
            r == self.wf(),
    {
        match ContributionRegistry::from_entries(&self.to_vec()) {
            Some(_) => true,
            None => false,
        }
    }

    /// The entries, in order.
    pub fn to_vec(&self) -> (r: Vec<Contribution>)
        ensures
            r@ == self@,
    {
        let mut out: Vec<Contribution> = Vec::new();
        let mut i: usize = 0;
        while i < self.entries.len()
            invariant
                0 <= i <= self@.len(),
                out@ == self@.take(i as int),
            decreases self@.len() - i,
        {
            out.push(self.entries[i]);
            assert(out@ =~= self@.take(i as int + 1));
            i = i + 1;
        }
        assert(out@ =~= self@);
        out
    }

    /// Sum of all amounts held.
    pub fn total(&self) -> (r: u128)
        requires
            self.wf(),
        ensures
            r == total_contributed(self@),
    {
        let mut sum: u128 = 0;
        let mut i: usize = 0;
        while i < self.entries.len()
            invariant
                self.wf(),
                0 <= i <= self@.len(),
                sum == amount_prefix(self@, i as int),
            decreases self@.len() - i,
        {
            proof {
                lemma_amount_prefix_bound(self@, i as int + 1);
                assert((i + 1) * 0xFFFF_FFFF_FFFF_FFFF <= 64 * 0xFFFF_FFFF_FFFF_FFFF);
            }
            sum = sum + self.entries[i].amount as u128;
            i = i + 1;
        }
        sum
    }

    /// Rebuilds a registry from stored entries, in their order; `None` when
    /// they are more than the capacity, repeat an identity or hold a zero amount.
    pub fn from_entries(entries: &Vec<Contribution>) -> (r: Option<ContributionRegistry>)
        ensures
            match r {
                Some(reg) => reg@ == entries@ && reg.wf(),
                None => !valid_entries(entries@),
            },
    {
        let mut reg = ContributionRegistry::new();
        let mut i: usize = 0;
        while i < entries.len()
            invariant
                0 <= i <= entries@.len(),
                reg.wf(),
                reg@ == entries@.take(i as int),
            decreases entries@.len() - i,
        {
            let c = entries[i];
            if c.amount == 0 {
                return None;
            }
            if reg.contains(&c.contributor) {
                proof {
                    let k = choose|k: int| 0 <= k < reg@.len() && reg@[k].contributor == c.contributor;
                    assert(entries@[k] == reg@[k]);
                }
                return None;
            }
            if reg.is_full() {
                return None;
            }
            reg.push(c);
            assert(reg@ =~= entries@.take(i as int + 1));
            i = i + 1;
        }
        assert(reg@ =~= entries@);
        Some(reg)
    }
}

} // verus!
