//! The shared count of pause obligations: the remote UI is resumed when,
//! and only when, the last holder lets go.
use vstd::prelude::*;

verus! {

/// One operation on the count.
#[derive(Clone, Copy, Debug, PartialEq, Eq, Structural)]
pub enum LeaseOp {
    Acquire,
    Release,
}

/// Count after one operation, and whether that operation fires the resume
/// action.
pub open spec fn lease_step(count: nat, op: LeaseOp) -> (nat, bool) {
    match op {
        LeaseOp::Acquire => (count + 1, false),
        LeaseOp::Release => ((count - 1) as nat, count == 1),
    }
}

/// For each operation of `ops`, applied in turn from `count`, whether it
/// fires the resume action.
pub open spec fn fired(count: nat, ops: Seq<LeaseOp>) -> Seq<bool>
    decreases ops.len(),
{
    if ops.len() == 0 {
        seq![]
    } else {
        let (c, f) = lease_step(count, ops[0]);
        seq![f] + fired(c, ops.drop_first())
    }
}

/// Number of pause obligations currently held.
pub struct LeaseCount {
    holders: u64,
}

impl View for LeaseCount {
    type V = nat;

    closed spec fn view(&self) -> nat {
        self.holders as nat
    }
}

impl LeaseCount {
    /// No obligation held.
    pub fn new() -> (r: LeaseCount)
        ensures
            r@ == 0,
    {
        LeaseCount { holders: 0 }
    }

    /// Number of obligations held.
    pub fn holders(&self) -> (r: u64)
        ensures
            r as nat == self@,
    {
        self.holders
    }

    /// Takes one obligation.
    pub fn acquire(&mut self)
        requires
            old(self)@ < u64::MAX,
        ensures
            final(self)@ == lease_step(old(self)@, LeaseOp::Acquire).0,
    {
        self.holders = self.holders + 1;
    }

    /// Gives one obligation back; the result says whether it was the last,
    /// so that the resume action must now run.
    pub fn release(&mut self) -> (resume: bool)
        requires
            old(self)@ > 0,
        ensures
            (final(self)@, resume) == lease_step(old(self)@, LeaseOp::Release),
            final(self)@ == old(self)@ - 1,
            resume == (final(self)@ == 0),
    {
        self.holders = self.holders - 1;
        self.holders == 0
    }
}

proof fn lemma_acquires_fire_nothing(count: nat, n: nat, rest: Seq<LeaseOp>)
    ensures
        fired(count, Seq::new(n, |i: int| LeaseOp::Acquire) + rest) =~= Seq::new(n, |i: int| false)
            + fired(count + n, rest),
    decreases n,
{
    let ops = Seq::new(n, |i: int| LeaseOp::Acquire) + rest;
    if n > 0 {
        let tail = Seq::new((n - 1) as nat, |i: int| LeaseOp::Acquire) + rest;
        assert(ops.drop_first() =~= tail);
        lemma_acquires_fire_nothing(count + 1, (n - 1) as nat, rest);
        assert(Seq::new(n, |i: int| false) =~= seq![false] + Seq::new((n - 1) as nat, |i: int| false));
    } else {
        assert(ops =~= rest);
    }
}

proof fn lemma_releases_fire_last(n: nat)
    requires
        n > 0,
    ensures
        fired(n, Seq::new(n, |i: int| LeaseOp::Release)) =~= Seq::new(n, |i: int| i == n - 1),
    decreases n,
{
    let ops = Seq::new(n, |i: int| LeaseOp::Release);
    if n > 1 {
        assert(ops.drop_first() =~= Seq::new((n - 1) as nat, |i: int| LeaseOp::Release));
        lemma_releases_fire_last((n - 1) as nat);
        let prev = fired((n - 1) as nat, Seq::new((n - 1) as nat, |i: int| LeaseOp::Release));
        assert(fired(n, ops) == seq![false] + prev);
        assert(Seq::new(n, |i: int| i == n - 1) =~= seq![false] + Seq::new((n - 1) as nat, |i: int| i == n - 2));
    } else {
        assert(ops.drop_first() =~= Seq::<LeaseOp>::empty());
        assert(fired(n, ops) == seq![true] + fired(0, Seq::<LeaseOp>::empty()));
    }
}

/// With `n` acquisitions followed by `n` releases, starting from none held,
/// the resume action fires exactly once: at the last release.
pub proof fn lemma_resume_fires_once(n: nat)
    requires
        n > 0,
    ensures
        fired(
            0,
            Seq::new(n, |i: int| LeaseOp::Acquire) + Seq::new(n, |i: int| LeaseOp::Release),
        ) =~= Seq::new(2 * n, |i: int| i == 2 * n - 1),
{
    lemma_acquires_fire_nothing(0, n, Seq::new(n, |i: int| LeaseOp::Release));
    lemma_releases_fire_last(n);
}

} // verus!
