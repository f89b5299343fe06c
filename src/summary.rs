use vstd::prelude::*;

verus! {

/// The result of reconciling one record.
#[derive(Clone, Copy, Debug, PartialEq, Eq, Structural)]
pub enum RecordOutcome {
    /// DNS already publishes the WAN address; nothing was written.
    Current,
    /// DNS published another address; the provider accepted the update.
    Updated,
    /// DNS gave no single address; nothing was written.
    Missing,
}

/// Three counters, as mathematical naturals.
pub struct Tally {
    pub current: nat,
    pub updated: nat,
    pub missing: nat,
}

impl Tally {
    /// The identity of `plus`.
    pub open spec fn zero() -> Tally {
        Tally { current: 0, updated: 0, missing: 0 }
    }

    /// Component-wise addition.
    pub open spec fn plus(self, other: Tally) -> Tally {
        Tally {
            current: self.current + other.current,
            updated: self.updated + other.updated,
            missing: self.missing + other.missing,
        }
    }

    /// The tally of a single outcome.
    pub open spec fn of(o: RecordOutcome) -> Tally {
        match o {
            RecordOutcome::Current => Tally { current: 1, updated: 0, missing: 0 },
            RecordOutcome::Updated => Tally { current: 0, updated: 1, missing: 0 },
            RecordOutcome::Missing => Tally { current: 0, updated: 0, missing: 1 },
        }
    }
}

/// The sum of the tallies of a sequence of outcomes.
pub open spec fn tally_all(s: Seq<RecordOutcome>) -> Tally
    decreases s.len(),
{
    if s.len() == 0 {
        Tally::zero()
    } else {
        Tally::of(s[0]).plus(tally_all(s.drop_first()))
    }
}

/// The sum of a sequence of tallies.
pub open spec fn sum_tallies(s: Seq<Tally>) -> Tally
    decreases s.len(),
{
    if s.len() == 0 {
        Tally::zero()
    } else {
        s[0].plus(sum_tallies(s.drop_first()))
    }
}

/// Addition of tallies is associative.
pub proof fn lemma_plus_associative(a: Tally, b: Tally, c: Tally)
    ensures
        a.plus(b).plus(c) == a.plus(b.plus(c)),
{
}

/// Addition of tallies is commutative.
pub proof fn lemma_plus_commutative(a: Tally, b: Tally)
    ensures
        a.plus(b) == b.plus(a),
{
}

/// The all-zero tally is the identity of addition.
pub proof fn lemma_zero_is_identity(a: Tally)
    ensures
        Tally::zero().plus(a) == a,
        a.plus(Tally::zero()) == a,
{
}

/// Tallying two runs of outcomes one after the other equals adding their tallies.
pub proof fn lemma_tally_concat(a: Seq<RecordOutcome>, b: Seq<RecordOutcome>)
    ensures
        tally_all(a + b) == tally_all(a).plus(tally_all(b)),
    decreases a.len(),
{
    if a.len() == 0 {
        assert(a + b == b);
    } else {
        assert((a + b).drop_first() == a.drop_first() + b);
        lemma_tally_concat(a.drop_first(), b);
    }
}

/// Tallying one more outcome adds that outcome's tally.
pub proof fn lemma_tally_push(s: Seq<RecordOutcome>, o: RecordOutcome)
    ensures
        tally_all(s.push(o)) == tally_all(s).plus(Tally::of(o)),
{
    lemma_tally_concat(s, seq![o]);
    assert(s.push(o) == s + seq![o]);
    assert(seq![o].drop_first() == Seq::<RecordOutcome>::empty());
    assert(tally_all(seq![o]) == Tally::of(o).plus(tally_all(seq![o].drop_first())));
    assert(tally_all(Seq::<RecordOutcome>::empty()) == Tally::zero());
}

/// However the outcomes of a run are split into groups (per domain, say), summing
/// the groups' tallies gives the tally of all the outcomes together.
pub proof fn lemma_partition_sum(parts: Seq<Seq<RecordOutcome>>)
    ensures
        tally_all(parts.flatten()) == sum_tallies(parts.map_values(|p: Seq<RecordOutcome>| tally_all(p))),
    decreases parts.len(),
{
    if parts.len() > 0 {
        lemma_tally_concat(parts[0], parts.drop_first().flatten());
        lemma_partition_sum(parts.drop_first());
        assert(parts.map_values(|p: Seq<RecordOutcome>| tally_all(p)).drop_first() == parts.drop_first().map_values(
            |p: Seq<RecordOutcome>| tally_all(p),
        ));
    }
}

/// Counts of record outcomes.
#[derive(Clone, Copy, Debug, PartialEq, Eq, Structural)]
pub struct Updates {
    pub current: u64,
    pub updated: u64,
    pub missing: u64,
}

impl View for Updates {
    type V = Tally;

    open spec fn view(&self) -> Tally {
        Tally {
            current: self.current as nat,
            updated: self.updated as nat,
            missing: self.missing as nat,
        }
    }
}

/// Whether every counter of `t` fits in a `u64`.
pub open spec fn fits(t: Tally) -> bool {
    t.current <= u64::MAX && t.updated <= u64::MAX && t.missing <= u64::MAX
}

impl Default for Updates {
    fn default() -> (r: Updates)
        ensures
            r@ == Tally::zero(),
    {
        Updates { current: 0, updated: 0, missing: 0 }
    }
}

impl Updates {
    /// Whether `self` and `other` can be added without a counter overflowing.
    pub fn can_merge(&self, other: &Updates) -> (r: bool)
        ensures
            r == fits(self@.plus(other@)),
    {
        self.current <= u64::MAX - other.current && self.updated <= u64::MAX - other.updated
            && self.missing <= u64::MAX - other.missing
    }

    /// The component-wise sum of `self` and `other`.
    pub fn merged(&self, other: &Updates) -> (r: Updates)
        requires
            fits(self@.plus(other@)),
        ensures
            r@ == self@.plus(other@),
    {
        Updates {
            current: self.current + other.current,
            updated: self.updated + other.updated,
            missing: self.missing + other.missing,
        }
    }

    /// Counts one more record with outcome `o`.
    pub fn record(&mut self, o: RecordOutcome)
        requires
            fits(old(self)@.plus(Tally::of(o))),
        ensures
            final(self)@ == old(self)@.plus(Tally::of(o)),
    {
        match o {
            RecordOutcome::Current => self.current = self.current + 1,
            RecordOutcome::Updated => self.updated = self.updated + 1,
            RecordOutcome::Missing => self.missing = self.missing + 1,
        }
    }
}

} // verus!
