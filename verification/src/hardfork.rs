//! Hardfork activation schedule: named protocol upgrades mapped to the
//! block-number or timestamp rule that brings them into effect.

use vstd::prelude::*;

verus! {

/// The name of a Seismic hardfork.
///
/// When building a list of hardforks for a chain, it is still expected to mix
/// with [`EthereumHardfork`].
#[derive(Clone, Copy, PartialEq, Eq, Structural, Debug)]
pub enum SeismicHardfork {
    /// Mercury
    Mercury,
}

/// The name of an Ethereum protocol upgrade, oldest first.
#[derive(Clone, Copy, PartialEq, Eq, Structural, Debug)]
pub enum EthereumHardfork {
    Frontier,
    Homestead,
    Dao,
    Tangerine,
    SpuriousDragon,
    Byzantium,
    Constantinople,
    Petersburg,
    Istanbul,
    MuirGlacier,
    Berlin,
    London,
    ArrowGlacier,
    GrayGlacier,
    Paris,
    Shanghai,
    Cancun,
    Prague,
    Osaka,
}

impl EthereumHardfork {
    /// Position of the upgrade in chronological order.
    pub open spec fn spec_rank(self) -> int {
        match self {
            EthereumHardfork::Frontier => 0,
            EthereumHardfork::Homestead => 1,
            EthereumHardfork::Dao => 2,
            EthereumHardfork::Tangerine => 3,
            EthereumHardfork::SpuriousDragon => 4,
            EthereumHardfork::Byzantium => 5,
            EthereumHardfork::Constantinople => 6,
            EthereumHardfork::Petersburg => 7,
            EthereumHardfork::Istanbul => 8,
            EthereumHardfork::MuirGlacier => 9,
            EthereumHardfork::Berlin => 10,
            EthereumHardfork::London => 11,
            EthereumHardfork::ArrowGlacier => 12,
            EthereumHardfork::GrayGlacier => 13,
            EthereumHardfork::Paris => 14,
            EthereumHardfork::Shanghai => 15,
            EthereumHardfork::Cancun => 16,
            EthereumHardfork::Prague => 17,
            EthereumHardfork::Osaka => 18,
        }
    }

    /// Position of the upgrade in chronological order.
    pub fn rank(self) -> (r: u32)
        ensures
            r == self.spec_rank(),
    {
        match self {
            EthereumHardfork::Frontier => 0,
            EthereumHardfork::Homestead => 1,
            EthereumHardfork::Dao => 2,
            EthereumHardfork::Tangerine => 3,
            EthereumHardfork::SpuriousDragon => 4,
            EthereumHardfork::Byzantium => 5,
            EthereumHardfork::Constantinople => 6,
            EthereumHardfork::Petersburg => 7,
            EthereumHardfork::Istanbul => 8,
            EthereumHardfork::MuirGlacier => 9,
            EthereumHardfork::Berlin => 10,
            EthereumHardfork::London => 11,
            EthereumHardfork::ArrowGlacier => 12,
            EthereumHardfork::GrayGlacier => 13,
            EthereumHardfork::Paris => 14,
            EthereumHardfork::Shanghai => 15,
            EthereumHardfork::Cancun => 16,
            EthereumHardfork::Prague => 17,
            EthereumHardfork::Osaka => 18,
        }
    }
}

/// The rule deciding from which point a hardfork is in effect.
#[derive(Clone, Copy, PartialEq, Eq, Structural, Debug)]
pub enum ForkCondition {
    /// Active at and after the given block number.
    Block(u64),
    /// Active at and after the given timestamp.
    Timestamp(u64),
    /// Never active.
    Never,
}

impl ForkCondition {
    /// Whether the condition holds in a block with the given number and
    /// timestamp.
    pub open spec fn spec_active_at(self, block_number: u64, timestamp: u64) -> bool {
        match self {
            ForkCondition::Block(b) => block_number >= b,
            ForkCondition::Timestamp(t) => timestamp >= t,
            ForkCondition::Never => false,
        }
    }

    /// Whether the condition holds in a block with the given number and
    /// timestamp.
    pub fn active_at(self, block_number: u64, timestamp: u64) -> (r: bool)
        ensures
            r == self.spec_active_at(block_number, timestamp),
    {
        match self {
            ForkCondition::Block(b) => block_number >= b,
            ForkCondition::Timestamp(t) => timestamp >= t,
            ForkCondition::Never => false,
        }
    }

    /// Sort key for the deterministic schedule order: block conditions come
    /// first, then timestamp conditions, then `Never`, each by value.
    pub open spec fn spec_key(self) -> (int, int) {
        match self {
            ForkCondition::Block(b) => (0, b as int),
            ForkCondition::Timestamp(t) => (1, t as int),
            ForkCondition::Never => (2, 0),
        }
    }
}

/// Activation, once gained at a block, is never lost at a later block of the
/// same chain.
pub proof fn lemma_activation_monotonic(
    c: ForkCondition,
    b1: u64,
    t1: u64,
    b2: u64,
    t2: u64,
)
    requires
        b1 <= b2,
        t1 <= t2,
        c.spec_active_at(b1, t1),
    ensures
        c.spec_active_at(b2, t2),
{
}

/// `(f1, c1)` sorts at or before `(f2, c2)` in a schedule.
pub open spec fn entry_le(
    e1: (SeismicHardfork, ForkCondition),
    e2: (SeismicHardfork, ForkCondition),
) -> bool {
    let (a1, v1) = e1.1.spec_key();
    let (a2, v2) = e2.1.spec_key();
    a1 < a2 || (a1 == a2 && v1 <= v2)
}

/// Compares two schedule entries by [`entry_le`].
fn entry_le_exec(
    e1: &(SeismicHardfork, ForkCondition),
    e2: &(SeismicHardfork, ForkCondition),
) -> (r: bool)
    ensures
        r == entry_le(*e1, *e2),
{
    let k1: (u32, u64) = match e1.1 {
        ForkCondition::Block(b) => (0, b),
        ForkCondition::Timestamp(t) => (1, t),
        ForkCondition::Never => (2, 0),
    };
    let k2: (u32, u64) = match e2.1 {
        ForkCondition::Block(b) => (0, b),
        ForkCondition::Timestamp(t) => (1, t),
        ForkCondition::Never => (2, 0),
    };
    k1.0 < k2.0 || (k1.0 == k2.0 && k1.1 <= k2.1)
}

/// A schedule is sorted when each entry sorts at or before every later one.
pub open spec fn schedule_sorted(s: Seq<(SeismicHardfork, ForkCondition)>) -> bool {
    forall|i: int, j: int| 0 <= i < j < s.len() ==> entry_le(s[i], s[j])
}

/// The condition of the first entry for `fork`, or `Never` when the schedule
/// has none.
pub open spec fn spec_activation(
    s: Seq<(SeismicHardfork, ForkCondition)>,
    fork: SeismicHardfork,
) -> ForkCondition
    decreases s.len(),
{
    if s.len() == 0 {
        ForkCondition::Never
    } else if s[0].0 == fork {
        s[0].1
    } else {
        spec_activation(s.drop_first(), fork)
    }
}

/// A schedule without an entry for `fork` resolves it to `Never`.
pub proof fn lemma_absent_fork_never(
    s: Seq<(SeismicHardfork, ForkCondition)>,
    fork: SeismicHardfork,
)
    requires
        forall|i: int| 0 <= i < s.len() ==> s[i].0 != fork,
    ensures
        spec_activation(s, fork) == ForkCondition::Never,
    decreases s.len(),
{
    if s.len() > 0 {
        assert(s[0].0 != fork);
        lemma_absent_fork_never(s.drop_first(), fork);
    }
}

impl SeismicHardfork {
    /// Seismic hardfork conditions for mainnet.
    pub fn seismic_mainnet() -> (r: Vec<(SeismicHardfork, ForkCondition)>)
        ensures
            r@ == seq![(SeismicHardfork::Mercury, ForkCondition::Block(0))],
    {
        let mut r: Vec<(SeismicHardfork, ForkCondition)> = Vec::new();
        r.push((SeismicHardfork::Mercury, ForkCondition::Block(0)));
        proof {
            assert(r@ =~= seq![(SeismicHardfork::Mercury, ForkCondition::Block(0))]);
        }
        r
    }
}

/// Extends the Ethereum hardfork view with Seismic helper methods.
pub trait SeismicHardforks {
    /// The condition the schedule resolves `fork` to.
    spec fn seismic_activation_spec(&self, fork: SeismicHardfork) -> ForkCondition;

    /// Retrieves the [`ForkCondition`] of a [`SeismicHardfork`]. A fork
    /// absent from the schedule resolves to [`ForkCondition::Never`], not an
    /// error.
    fn seismic_fork_activation(&self, fork: SeismicHardfork) -> (r: ForkCondition)
        ensures
            r == self.seismic_activation_spec(fork),
    ;
}

/// Activation conditions for a given list of [`SeismicHardfork`]s, kept
/// sorted by activation key for deterministic lookup.
#[derive(Clone, Debug)]
pub struct SeismicChainHardforks {
    /// Seismic hardfork activations.
    pub forks: Vec<(SeismicHardfork, ForkCondition)>,
}

impl SeismicChainHardforks {
    /// Creates a schedule from the given list of forks, sorted by activation
    /// key. The entries are a permutation of the input.
    pub fn new(forks: Vec<(SeismicHardfork, ForkCondition)>) -> (r: SeismicChainHardforks)
        ensures
            schedule_sorted(r.forks@),
            r.forks@.to_multiset() == forks@.to_multiset(),
    {
        let mut sorted: Vec<(SeismicHardfork, ForkCondition)> = Vec::new();
        let n: usize = forks.len();
        proof {
            assert(sorted@ =~= forks@.take(0));
        }
        for i in 0..n
            invariant
                n == forks@.len(),
                schedule_sorted(sorted@),
                sorted@.to_multiset() == forks@.take(i as int).to_multiset(),
        {
            let e = forks[i];
            proof {
                forks@.take(i as int).to_multiset_ensures();
                assert(forks@.take(i + 1).drop_last() =~= forks@.take(i as int));
                forks@.take(i + 1).drop_last().to_multiset_ensures();
                assert(forks@.take(i + 1) =~= forks@.take(i + 1).drop_last().push(e));
            }
            insert_sorted(&mut sorted, e);
        }
        proof {
            assert(forks@.take(n as int) =~= forks@);
        }
        SeismicChainHardforks { forks: sorted }
    }

    /// Creates a schedule with the Seismic mainnet configuration: Mercury
    /// active from genesis.
    pub fn seismic_mainnet() -> (r: SeismicChainHardforks)
        ensures
            r.forks@ == seq![(SeismicHardfork::Mercury, ForkCondition::Block(0))],
    {
        let r = SeismicChainHardforks::new(SeismicHardfork::seismic_mainnet());
        proof {
            let want = seq![(SeismicHardfork::Mercury, ForkCondition::Block(0))];
            r.forks@.to_multiset_ensures();
            want.to_multiset_ensures();
            assert(r.forks@.len() == 1);
            assert(want.to_multiset().count(want[0]) > 0);
            assert(r.forks@.to_multiset().count(want[0]) > 0);
            assert(r.forks@.contains(want[0]));
            assert(r.forks@ =~= want);
        }
        r
    }

    /// Copies the schedule.
    pub fn duplicate(&self) -> (r: SeismicChainHardforks)
        ensures
            r.forks@ == self.forks@,
    {
        let mut forks: Vec<(SeismicHardfork, ForkCondition)> = Vec::new();
        let n: usize = self.forks.len();
        for i in 0..n
            invariant
                n == self.forks@.len(),
                forks@ == self.forks@.take(i as int),
        {
            forks.push(self.forks[i]);
            proof {
                assert(forks@ =~= self.forks@.take(i + 1));
            }
        }
        proof {
            assert(self.forks@.take(n as int) =~= self.forks@);
        }
        SeismicChainHardforks { forks }
    }

    /// Retrieves the [`ForkCondition`] of an [`EthereumHardfork`]. Seismic
    /// chains launch with every upgrade before Prague active from genesis and
    /// every later upgrade inactive unless explicitly scheduled.
    pub fn ethereum_fork_activation(&self, fork: EthereumHardfork) -> (r: ForkCondition)
        ensures
            r == (if fork.spec_rank() < EthereumHardfork::Prague.spec_rank() {
                ForkCondition::Block(0)
            } else {
                ForkCondition::Never
            }),
    {
        if fork.rank() < EthereumHardfork::Prague.rank() {
            ForkCondition::Block(0)
        } else {
            ForkCondition::Never
        }
    }
}

impl SeismicHardforks for SeismicChainHardforks {
    open spec fn seismic_activation_spec(&self, fork: SeismicHardfork) -> ForkCondition {
        spec_activation(self.forks@, fork)
    }

    fn seismic_fork_activation(&self, fork: SeismicHardfork) -> (r: ForkCondition) {
        let n: usize = self.forks.len();
        for i in 0..n
            invariant
                n == self.forks@.len(),
                spec_activation(self.forks@, fork)
                    == spec_activation(self.forks@.skip(i as int), fork),
        {
            let (f, c) = self.forks[i];
            proof {
                assert(self.forks@.skip(i as int)[0] == self.forks@[i as int]);
                assert(self.forks@.skip(i as int).drop_first() =~= self.forks@.skip(i + 1));
            }
            if f == fork {
                return c;
            }
        }
        proof {
            assert(self.forks@.skip(n as int) =~= Seq::<(SeismicHardfork, ForkCondition)>::empty());
        }
        ForkCondition::Never
    }
}

/// Inserts an entry into a sorted schedule, keeping it sorted.
fn insert_sorted(
    s: &mut Vec<(SeismicHardfork, ForkCondition)>,
    e: (SeismicHardfork, ForkCondition),
)
    requires
        schedule_sorted(old(s)@),
    ensures
        schedule_sorted(final(s)@),
        final(s)@.to_multiset() == old(s)@.to_multiset().insert(e),
{
    let ghost orig = s@;
    let n: usize = s.len();
    let mut pos: usize = 0;
    loop
        invariant
            n == s@.len(),
            s@ == orig,
            pos <= n,
            schedule_sorted(s@),
            forall|j: int| 0 <= j < pos ==> entry_le(s@[j], e),
        ensures
            n == s@.len(),
            s@ == orig,
            pos <= n,
            forall|j: int| 0 <= j < pos ==> entry_le(s@[j], e),
            pos < n ==> !entry_le(s@[pos as int], e),
        decreases n - pos,
    {
        if pos >= n {
            break;
        }
        if !entry_le_exec(&s[pos], &e) {
            break;
        }
        pos += 1;
    }
    proof {
        // Entries at and after the insertion point sort after `e`.
        assert forall|j: int| pos <= j < n implies entry_le(e, s@[j]) by {
            assert(!entry_le(s@[pos as int], e));
            if j > pos {
                assert(entry_le(s@[pos as int], s@[j]));
            }
        };
    }
    s.insert(pos, e);
    proof {
        assert(s@ =~= orig.take(pos as int).push(e) + orig.skip(pos as int));
        assert forall|i: int, j: int| 0 <= i < j < s@.len() implies entry_le(s@[i], s@[j]) by {
            assert(forall|a: int, b: int| 0 <= a < b < orig.len() ==> entry_le(orig[a], orig[b]));
        };
        orig.to_multiset_ensures();
        lemma_insert_multiset(orig, e, pos as int);
    }
}

/// Splicing one element into a sequence adds exactly it to the multiset of
/// elements.
proof fn lemma_insert_multiset(
    s: Seq<(SeismicHardfork, ForkCondition)>,
    e: (SeismicHardfork, ForkCondition),
    pos: int,
)
    requires
        0 <= pos <= s.len(),
    ensures
        (s.take(pos).push(e) + s.skip(pos)).to_multiset() == s.to_multiset().insert(e),
{
    let left = s.take(pos);
    let right = s.skip(pos);
    vstd::seq_lib::lemma_multiset_commutative(left.push(e), right);
    left.to_multiset_ensures();
    left.push(e).to_multiset_ensures();
    assert(left.push(e).drop_last() =~= left);
    assert(left.push(e).to_multiset() == left.to_multiset().insert(e));
    vstd::seq_lib::lemma_multiset_commutative(left, right);
    assert(left + right =~= s);
    assert(left.push(e).to_multiset().add(right.to_multiset())
        == left.to_multiset().insert(e).add(right.to_multiset()));
    assert(left.to_multiset().insert(e).add(right.to_multiset())
        =~= left.to_multiset().add(right.to_multiset()).insert(e));
}

} // verus!
