//! Sharing an amount out by weights, with nothing lost to rounding.

use vstd::prelude::*;

verus! {

/// The method of largest remainders.
///
/// Each party first gets its share rounded down. The units that this leaves go
/// one by one to the parties whose shares were cut by the most; of two that
/// were cut alike, the one that comes first is served first.
pub struct LargestRemainder;

impl LargestRemainder {
    /// The sum of a list of amounts.
    pub open spec fn sum(s: Seq<i128>) -> int
        decreases s.len(),
    {
        if s.len() == 0 {
            0
        } else {
            Self::sum(s.drop_last()) + s.last()
        }
    }

    /// How many of the first `n` numbers satisfy a predicate.
    pub open spec fn count(p: spec_fn(int) -> bool, n: nat) -> nat
        decreases n,
    {
        if n == 0 {
            0
        } else if p(n - 1) {
            Self::count(p, (n - 1) as nat) + 1
        } else {
            Self::count(p, (n - 1) as nat)
        }
    }

    /// The share of party `i`, rounded down.
    pub open spec fn floor(total: int, weights: Seq<i128>, divisor: int, i: int) -> int {
        total * weights[i] / divisor
    }

    /// By how much the share of party `i` was cut, in parts of `divisor`.
    pub open spec fn remainder(total: int, weights: Seq<i128>, divisor: int, i: int) -> int {
        total * weights[i] % divisor
    }

    /// Whether party `j` is served before party `i`.
    pub open spec fn ahead(total: int, weights: Seq<i128>, divisor: int, j: int, i: int) -> bool {
        let rj = Self::remainder(total, weights, divisor, j);
        let ri = Self::remainder(total, weights, divisor, i);
        rj > ri || (rj == ri && j < i)
    }

    /// How many parties are served before party `i`.
    pub open spec fn rank(total: int, weights: Seq<i128>, divisor: int, i: int) -> nat {
        Self::count(|j: int| Self::ahead(total, weights, divisor, j, i), weights.len())
    }

    /// The shares rounded down.
    pub open spec fn floors(total: int, weights: Seq<i128>, divisor: int) -> Seq<i128> {
        Seq::new(weights.len(), |i: int| Self::floor(total, weights, divisor, i) as i128)
    }

    /// What the shares rounded down leave.
    pub open spec fn residue(total: int, weights: Seq<i128>, divisor: int) -> int {
        total - Self::sum(Self::floors(total, weights, divisor))
    }

    /// What party `i` gets. Where more is left than there are parties, which
    /// happens only where the weights make up less than the divisor, the first
    /// party gets that as well.
    pub open spec fn share(total: int, weights: Seq<i128>, divisor: int, i: int) -> int {
        let residue = Self::residue(total, weights, divisor);
        Self::floor(total, weights, divisor, i)
            + (if Self::rank(total, weights, divisor, i) < residue { 1int } else { 0 })
            + (if i == 0 && residue > weights.len() { residue - weights.len() } else { 0 })
    }

    /// What each party gets.
    pub open spec fn shares(total: int, weights: Seq<i128>, divisor: int) -> Seq<i128> {
        Seq::new(weights.len(), |i: int| Self::share(total, weights, divisor, i) as i128)
    }

    /// Whether every weighted amount is representable.
    pub open spec fn representable(total: int, weights: Seq<i128>) -> bool {
        forall|i: int| 0 <= i < weights.len() ==> total * (#[trigger] weights[i]) <= i128::MAX
    }

    proof fn lemma_count_subset(p: spec_fn(int) -> bool, q: spec_fn(int) -> bool, n: nat)
        requires
            forall|j: int| 0 <= j < n && #[trigger] p(j) ==> q(j),
        ensures
            Self::count(p, n) <= Self::count(q, n),
        decreases n,
    {
        if n > 0 {
            Self::lemma_count_subset(p, q, (n - 1) as nat);
        }
    }

    proof fn lemma_count_one_more(
        p: spec_fn(int) -> bool,
        q: spec_fn(int) -> bool,
        c: int,
        n: nat,
    )
        requires
            0 <= c < n,
            !p(c),
            q(c),
            forall|j: int| 0 <= j < n && #[trigger] p(j) ==> q(j),
        ensures
            Self::count(p, n) + 1 <= Self::count(q, n),
            (forall|j: int| 0 <= j < n && j != c && #[trigger] q(j) ==> p(j)) ==> Self::count(p, n)
                + 1 == Self::count(q, n),
        decreases n,
    {
        if c == n - 1 {
            Self::lemma_count_subset(p, q, (n - 1) as nat);
            if forall|j: int| 0 <= j < n && j != c && #[trigger] q(j) ==> p(j) {
                Self::lemma_count_subset(q, p, (n - 1) as nat);
            }
        } else {
            Self::lemma_count_one_more(p, q, c, (n - 1) as nat);
        }
    }

    proof fn lemma_count_none(p: spec_fn(int) -> bool, n: nat)
        requires
            forall|j: int| 0 <= j < n ==> !#[trigger] p(j),
        ensures
            Self::count(p, n) == 0,
        decreases n,
    {
        if n > 0 {
            Self::lemma_count_none(p, (n - 1) as nat);
        }
    }

    proof fn lemma_count_bound(p: spec_fn(int) -> bool, n: nat)
        ensures
            Self::count(p, n) <= n,
            Self::count(p, n) == n ==> forall|j: int| 0 <= j < n ==> #[trigger] p(j),
        decreases n,
    {
        if n > 0 {
            Self::lemma_count_bound(p, (n - 1) as nat);
        }
    }

    proof fn lemma_sum_update(s: Seq<i128>, i: int, v: i128)
        requires
            0 <= i < s.len(),
        ensures
            Self::sum(s.update(i, v)) == Self::sum(s) - s[i] + v,
        decreases s.len(),
    {
        let u = s.update(i, v);
        if i == s.len() - 1 {
            assert(u.drop_last() =~= s.drop_last());
        } else {
            assert(u.drop_last() =~= s.drop_last().update(i, v));
            Self::lemma_sum_update(s.drop_last(), i, v);
        }
    }

    /// The party that is served next after the first `k`: of those not served
    /// yet, the one that is ahead of all others.
    proof fn lemma_next(total: int, weights: Seq<i128>, divisor: int, k: nat, c: int)
        requires
            0 <= c < weights.len(),
            Self::count(
                |j: int| Self::rank(total, weights, divisor, j) < k,
                weights.len(),
            ) == k,
            Self::rank(total, weights, divisor, c) >= k,
            forall|i: int|
                #![trigger Self::rank(total, weights, divisor, i)]
                0 <= i < weights.len() && i != c && Self::rank(total, weights, divisor, i) >= k
                    ==> Self::ahead(total, weights, divisor, c, i),
        ensures
            Self::rank(total, weights, divisor, c) == k,
            forall|i: int|
                #![trigger Self::rank(total, weights, divisor, i)]
                0 <= i < weights.len() && i != c && Self::rank(total, weights, divisor, i) >= k
                    ==> Self::rank(total, weights, divisor, i) > k,
            Self::count(
                |j: int| Self::rank(total, weights, divisor, j) < k + 1,
                weights.len(),
            ) == k + 1,
    {
        let n = weights.len();
        let served = |j: int| Self::rank(total, weights, divisor, j) < k;
        let before_c = |j: int| Self::ahead(total, weights, divisor, j, c);
        assert forall|j: int| 0 <= j < n && #[trigger] before_c(j) implies served(j) by {
            if Self::rank(total, weights, divisor, j) >= k {
                assert(j != c);
                assert(Self::ahead(total, weights, divisor, c, j));
            }
        }
        Self::lemma_count_subset(before_c, served, n);
        assert(Self::rank(total, weights, divisor, c) == k);
        assert forall|i: int|
            #![trigger Self::rank(total, weights, divisor, i)]
            0 <= i < n && i != c && Self::rank(total, weights, divisor, i)
                >= k implies Self::rank(total, weights, divisor, i) > k by {
            let before_i = |j: int| Self::ahead(total, weights, divisor, j, i);
            assert(Self::ahead(total, weights, divisor, c, i));
            assert forall|j: int| 0 <= j < n && #[trigger] before_c(j) implies before_i(j) by {}
            assert(!before_c(c));
            assert(before_i(c));
            Self::lemma_count_one_more(before_c, before_i, c, n);
        }
        let served_next = |j: int| Self::rank(total, weights, divisor, j) < k + 1;
        assert(!served(c));
        assert(served_next(c));
        Self::lemma_count_one_more(served, served_next, c, n);
    }

    /// Every party has a place of its own: some party is served `k`th.
    proof fn lemma_someone_waits(total: int, weights: Seq<i128>, divisor: int, k: nat)
        requires
            k < weights.len(),
            Self::count(
                |j: int| Self::rank(total, weights, divisor, j) < k,
                weights.len(),
            ) == k,
        ensures
            exists|i: int| 0 <= i < weights.len() && #[trigger] Self::rank(total, weights, divisor, i) >= k,
    {
        let served = |j: int| Self::rank(total, weights, divisor, j) < k;
        if forall|i: int|
            0 <= i < weights.len() ==> #[trigger] Self::rank(total, weights, divisor, i) < k {
            assert forall|i: int| 0 <= i < weights.len() implies #[trigger] served(i) by {
                assert(Self::rank(total, weights, divisor, i) < k);
            }
            Self::lemma_all_counted(served, weights.len());
        }
    }

    proof fn lemma_all_counted(p: spec_fn(int) -> bool, n: nat)
        requires
            forall|j: int| 0 <= j < n ==> #[trigger] p(j),
        ensures
            Self::count(p, n) == n,
        decreases n,
    {
        if n > 0 {
            Self::lemma_all_counted(p, (n - 1) as nat);
        }
    }

    /// Shares `total` out by `weights`, each of which counts in parts of
    /// `divisor`. Gives `None` where a weighted amount is not representable,
    /// or where the shares rounded down already exceed the total.
    pub fn allocate(total: i128, weights: &Vec<i128>, divisor: i128) -> (r: Option<Vec<i128>>)
        requires
            total >= 0,
            divisor > 0,
            0 < weights@.len() <= 255,
            forall|i: int| 0 <= i < weights@.len() ==> #[trigger] weights@[i] >= 0,
            Self::representable(total as int, weights@) ==> Self::sum(
                Self::floors(total as int, weights@, divisor as int),
            ) <= i128::MAX,
        ensures
            r is Some <==> Self::representable(total as int, weights@) && Self::residue(
                total as int,
                weights@,
                divisor as int,
            ) >= 0,
            r matches Some(shares) ==> {
                &&& shares@ == Self::shares(total as int, weights@, divisor as int)
                &&& Self::sum(shares@) == total
                &&& forall|i: int|
                    0 <= i < shares@.len() ==> (#[trigger] shares@[i]) == Self::share(
                        total as int,
                        weights@,
                        divisor as int,
                        i,
                    )
            },
    {
        let ghost t = total as int;
        let ghost w = weights@;
        let ghost d = divisor as int;
        let n: usize = weights.len();
        let mut amounts: Vec<i128> = Vec::new();
        let mut cuts: Vec<i128> = Vec::new();
        let mut i: usize = 0;
        while i < n
            invariant
                n == w.len(),
                w == weights@,
                t == total,
                d == divisor,
                t >= 0,
                d > 0,
                i <= n,
                amounts@.len() == i,
                cuts@.len() == i,
                forall|j: int| 0 <= j < w.len() ==> #[trigger] w[j] >= 0,
                forall|j: int| 0 <= j < i ==> t * (#[trigger] w[j]) <= i128::MAX,
                forall|j: int|
                    0 <= j < i ==> (#[trigger] amounts@[j]) == Self::floor(t, w, d, j) && 0
                        <= amounts@[j],
                forall|j: int|
                    0 <= j < i ==> (#[trigger] cuts@[j]) == Self::remainder(t, w, d, j) && 0
                        <= cuts@[j] < d,
            decreases n - i,
        {
            assert(w[i as int] >= 0);
            assert(t * w[i as int] >= 0) by (nonlinear_arith)
                requires
                    t >= 0,
                    w[i as int] >= 0,
            ;
            let weighted: i128 = match total.checked_mul(weights[i]) {
                Some(weighted) => weighted,
                None => {
                    assert(t * w[i as int] > i128::MAX);
                    return None;
                },
            };
            amounts.push(weighted / divisor);
            cuts.push(weighted % divisor);
            i += 1;
        }
        assert(amounts@ =~= Self::floors(t, w, d));
        let ghost floors = amounts@;
        let ghost residue = Self::residue(t, w, d);
        let mut allocated: i128 = 0;
        i = 0;
        while i < n
            invariant
                n == amounts@.len(),
                i <= n,
                amounts@ == floors,
                forall|j: int| 0 <= j < n ==> 0 <= #[trigger] amounts@[j],
                0 <= allocated == Self::sum(floors.take(i as int)),
                Self::sum(floors) <= i128::MAX,
            decreases n - i,
        {
            proof {
                assert(floors.take(i as int + 1).drop_last() =~= floors.take(i as int));
                Self::lemma_sum_prefix(floors, i as int + 1);
            }
            allocated = allocated + amounts[i];
            i += 1;
        }
        assert(floors.take(n as int) =~= floors);
        if allocated > total {
            return None;
        }
        let mut remaining: i128 = total - allocated;
        let mut k: usize = 0;
        proof {
            Self::lemma_count_none(|j: int| Self::rank(t, w, d, j) < 0, w.len());
            assert forall|j: int| 0 <= j < n implies 0 <= Self::floor(t, w, d, j)
                && #[trigger] Self::floor(t, w, d, j) + residue <= t by {
                assert(floors[j] == Self::floor(t, w, d, j));
                Self::lemma_item_in_sum(floors, j);
            }
            assert forall|j: int| 0 <= j < n implies 0 <= #[trigger] Self::remainder(t, w, d, j)
                < d by {
                assert(cuts@[j] == Self::remainder(t, w, d, j));
            }
        }
        while remaining > 0 && k < n
            invariant
                n == w.len(),
                t == total,
                d == divisor,
                t >= 0,
                d > 0,
                n <= 255,
                k <= n,
                amounts@.len() == n,
                cuts@.len() == n,
                remaining >= 0,
                residue == Self::residue(t, w, d),
                remaining + k == residue,
                residue <= t,
                Self::sum(amounts@) + remaining == t,
                Self::count(|j: int| Self::rank(t, w, d, j) < k, w.len()) == k,
                forall|j: int|
                    0 <= j < n ==> (#[trigger] amounts@[j]) == Self::floor(t, w, d, j) + (if Self::rank(
                        t,
                        w,
                        d,
                        j,
                    ) < k { 1int } else { 0 }),
                forall|j: int| 0 <= j < n ==> 0 <= Self::floor(t, w, d, j) && #[trigger] Self::floor(
                    t,
                    w,
                    d,
                    j,
                ) + residue <= t,
                forall|j: int|
                    0 <= j < n ==> (#[trigger] cuts@[j]) == (if Self::rank(t, w, d, j) < k {
                        i128::MIN as int
                    } else {
                        Self::remainder(t, w, d, j)
                    }),
                forall|j: int| 0 <= j < n ==> 0 <= #[trigger] Self::remainder(t, w, d, j) < d,
            decreases n - k,
        {
            let mut best: usize = 0;
            let mut j: usize = 1;
            while j < n
                invariant
                    n == cuts@.len(),
                    1 <= j <= n,
                    best < j,
                    forall|m: int| 0 <= m < j ==> #[trigger] cuts@[m] <= cuts@[best as int],
                    forall|m: int| 0 <= m < best ==> #[trigger] cuts@[m] < cuts@[best as int],
                decreases n - j,
            {
                if cuts[j] > cuts[best] {
                    best = j;
                }
                j += 1;
            }
            let ghost c = best as int;
            proof {
                Self::lemma_someone_waits(t, w, d, k as nat);
                let x = choose|x: int| 0 <= x < w.len() && #[trigger] Self::rank(t, w, d, x) >= k;
                assert(cuts@[x] == Self::remainder(t, w, d, x));
                assert(cuts@[x] <= cuts@[c]);
                assert(Self::remainder(t, w, d, x) >= 0);
                assert(Self::rank(t, w, d, c) >= k);
                assert forall|m: int|
                    #![trigger Self::rank(t, w, d, m)]
                    0 <= m < w.len() && m != c && Self::rank(t, w, d, m) >= k implies Self::ahead(
                    t,
                    w,
                    d,
                    c,
                    m,
                ) by {
                    assert(cuts@[m] <= cuts@[c]);
                    if m < c {
                        assert(cuts@[m] < cuts@[c]);
                    }
                }
                Self::lemma_next(t, w, d, k as nat, c);
                Self::lemma_sum_update(amounts@, c, (amounts@[c] + 1) as i128);
                assert(Self::floor(t, w, d, c) + residue <= t);
            }
            let ghost before = amounts@;
            let more: i128 = amounts[best] + 1;
            amounts.set(best, more);
            cuts.set(best, i128::MIN);
            remaining = remaining - 1;
            k += 1;
        }
        proof {
            assert(Self::floor(t, w, d, 0) + residue <= t);
        }
        if remaining > 0 {
            proof {
                Self::lemma_count_bound(|j: int| Self::rank(t, w, d, j) < k, w.len());
                Self::lemma_sum_update(amounts@, 0, (amounts@[0] + remaining) as i128);
                assert forall|j: int| 0 <= j < n implies #[trigger] Self::rank(t, w, d, j) < n by {
                    let p = |j: int| Self::rank(t, w, d, j) < k;
                    assert(p(j));
                }
            }
            let more: i128 = amounts[0] + remaining;
            amounts.set(0, more);
        }
        assert(amounts@ =~= Self::shares(t, w, d));
        Some(amounts)
    }

    /// Of those among the first `m` parties that are not served among the first
    /// `k`, the one that is ahead of all others.
    proof fn lemma_front(total: int, weights: Seq<i128>, divisor: int, k: nat, m: nat) -> (c: int)
        requires
            m <= weights.len(),
            exists|i: int| 0 <= i < m && #[trigger] Self::rank(total, weights, divisor, i) >= k,
        ensures
            0 <= c < m,
            Self::rank(total, weights, divisor, c) >= k,
            forall|i: int|
                #![trigger Self::rank(total, weights, divisor, i)]
                0 <= i < m && i != c && Self::rank(total, weights, divisor, i) >= k ==> Self::ahead(
                    total,
                    weights,
                    divisor,
                    c,
                    i,
                ),
        decreases m,
    {
        let last = m - 1;
        if exists|i: int|
            0 <= i < last && #[trigger] Self::rank(total, weights, divisor, i) >= k {
            let c = Self::lemma_front(total, weights, divisor, k, last as nat);
            if Self::rank(total, weights, divisor, last) < k || Self::ahead(
                total,
                weights,
                divisor,
                c,
                last,
            ) {
                c
            } else {
                last
            }
        } else {
            last
        }
    }

    /// Every party has a place of its own: as many are served among the first
    /// `k` as there are places.
    proof fn lemma_places(total: int, weights: Seq<i128>, divisor: int, k: nat)
        requires
            k <= weights.len(),
        ensures
            Self::count(
                |j: int| Self::rank(total, weights, divisor, j) < k,
                weights.len(),
            ) == k,
        decreases k,
    {
        if k == 0 {
            Self::lemma_count_none(
                |j: int| Self::rank(total, weights, divisor, j) < k,
                weights.len(),
            );
        } else {
            let before = (k - 1) as nat;
            Self::lemma_places(total, weights, divisor, before);
            Self::lemma_someone_waits(total, weights, divisor, before);
            let c = Self::lemma_front(total, weights, divisor, before, weights.len());
            Self::lemma_next(total, weights, divisor, before, c);
            let p = |j: int| Self::rank(total, weights, divisor, j) < before + 1;
            let q = |j: int| Self::rank(total, weights, divisor, j) < k;
            Self::lemma_count_subset(p, q, weights.len());
            Self::lemma_count_subset(q, p, weights.len());
        }
    }

    /// What the first `m` parties get together.
    proof fn lemma_shares_so_far(total: int, weights: Seq<i128>, divisor: int, m: nat)
        requires
            m <= weights.len(),
            forall|i: int|
                0 <= i < weights.len() ==> i128::MIN <= #[trigger] Self::share(
                    total,
                    weights,
                    divisor,
                    i,
                ) <= i128::MAX,
            forall|i: int|
                0 <= i < weights.len() ==> i128::MIN <= #[trigger] Self::floor(
                    total,
                    weights,
                    divisor,
                    i,
                ) <= i128::MAX,
        ensures
            ({
                let residue = Self::residue(total, weights, divisor);
                let n = weights.len();
                Self::sum(Self::shares(total, weights, divisor).take(m as int)) == Self::sum(
                    Self::floors(total, weights, divisor).take(m as int),
                ) + Self::count(|j: int| Self::rank(total, weights, divisor, j) < residue, m) + (
                if m > 0 && residue > n {
                    residue - n
                } else {
                    0
                })
            }),
        decreases m,
    {
        let shares = Self::shares(total, weights, divisor);
        let floors = Self::floors(total, weights, divisor);
        if m > 0 {
            let i = m - 1;
            Self::lemma_shares_so_far(total, weights, divisor, i as nat);
            assert(shares.take(m as int).drop_last() =~= shares.take(i));
            assert(floors.take(m as int).drop_last() =~= floors.take(i));
            assert(shares[i] == Self::share(total, weights, divisor, i));
            assert(floors[i] == Self::floor(total, weights, divisor, i));
        }
    }

    /// The shares make up the total, wherever the shares rounded down do not
    /// exceed it.
    pub proof fn shares_make_up_the_total(total: int, weights: Seq<i128>, divisor: int)
        requires
            0 <= total <= i128::MAX,
            weights.len() > 0,
            divisor > 0,
            forall|i: int| 0 <= i < weights.len() ==> #[trigger] weights[i] >= 0,
            Self::representable(total, weights),
            Self::residue(total, weights, divisor) >= 0,
        ensures
            Self::sum(Self::shares(total, weights, divisor)) == total,
            forall|i: int|
                0 <= i < weights.len() ==> 0 <= #[trigger] Self::share(total, weights, divisor, i)
                    <= total,
    {
        let n = weights.len();
        let shares = Self::shares(total, weights, divisor);
        let floors = Self::floors(total, weights, divisor);
        let residue = Self::residue(total, weights, divisor);
        assert forall|i: int| 0 <= i < n implies 0 <= #[trigger] Self::floor(
            total,
            weights,
            divisor,
            i,
        ) <= i128::MAX by {
            let x = total * weights[i];
            let q = x / divisor;
            assert(weights[i] >= 0);
            assert(0 <= x) by (nonlinear_arith)
                requires
                    total >= 0,
                    weights[i] >= 0,
                    x == total * weights[i],
            ;
            assert(0 <= q <= x) by (nonlinear_arith)
                requires
                    x >= 0,
                    divisor > 0,
                    q == x / divisor,
            ;
        }
        assert forall|i: int| 0 <= i < n implies 0 <= #[trigger] floors[i] by {
            assert(floors[i] == Self::floor(total, weights, divisor, i));
        }
        assert forall|i: int| 0 <= i < n implies 0 <= #[trigger] Self::share(
            total,
            weights,
            divisor,
            i,
        ) <= total by {
            Self::lemma_item_in_sum(floors, i);
            assert(floors[i] == Self::floor(total, weights, divisor, i));
        }
        Self::lemma_shares_so_far(total, weights, divisor, n);
        assert(shares.take(n as int) =~= shares);
        assert(floors.take(n as int) =~= floors);
        let served = |j: int| Self::rank(total, weights, divisor, j) < residue;
        if residue <= n {
            let p = |j: int| Self::rank(total, weights, divisor, j) < residue as nat;
            Self::lemma_places(total, weights, divisor, residue as nat);
            Self::lemma_count_subset(p, served, n);
            Self::lemma_count_subset(served, p, n);
        } else {
            assert forall|j: int| 0 <= j < n implies #[trigger] served(j) by {
                Self::lemma_count_bound(
                    |i: int| Self::ahead(total, weights, divisor, i, j),
                    n,
                );
            }
            Self::lemma_all_counted(served, n);
        }
    }

    /// No more parties are served before one than there are others.
    pub proof fn everyone_has_a_place(total: int, weights: Seq<i128>, divisor: int, i: int)
        requires
            0 <= i < weights.len(),
        ensures
            Self::rank(total, weights, divisor, i) < weights.len(),
    {
        let before_i = |m: int| Self::ahead(total, weights, divisor, m, i);
        Self::lemma_count_bound(before_i, weights.len());
        assert(!before_i(i));
    }

    /// A party that is ahead of another is served before it.
    pub proof fn ahead_is_served_first(
        total: int,
        weights: Seq<i128>,
        divisor: int,
        j: int,
        i: int,
    )
        requires
            0 <= i < weights.len(),
            0 <= j < weights.len(),
            Self::ahead(total, weights, divisor, j, i),
        ensures
            Self::rank(total, weights, divisor, j) < Self::rank(total, weights, divisor, i),
    {
        let before_j = |m: int| Self::ahead(total, weights, divisor, m, j);
        let before_i = |m: int| Self::ahead(total, weights, divisor, m, i);
        assert(!before_j(j));
        assert(before_i(j));
        Self::lemma_count_one_more(before_j, before_i, j, weights.len());
    }

    /// By how much the first `k` parties were cut together.
    spec fn cut(total: int, weights: Seq<i128>, divisor: int, k: nat) -> int
        decreases k,
    {
        if k == 0 {
            0
        } else {
            Self::cut(total, weights, divisor, (k - 1) as nat) + Self::remainder(
                total,
                weights,
                divisor,
                k - 1,
            )
        }
    }

    /// What the first `k` parties get rounded down, and what they were cut by,
    /// make up their exact shares; and only those that were cut at all were cut.
    proof fn lemma_floors_and_cut(total: int, weights: Seq<i128>, divisor: int, k: nat)
        requires
            total >= 0,
            divisor > 0,
            k <= weights.len(),
            forall|i: int| 0 <= i < weights.len() ==> #[trigger] weights[i] >= 0,
            Self::representable(total, weights),
        ensures
            divisor * Self::sum(Self::floors(total, weights, divisor).take(k as int)) + Self::cut(
                total,
                weights,
                divisor,
                k,
            ) == total * Self::sum(weights.take(k as int)),
            0 <= Self::cut(total, weights, divisor, k),
            Self::cut(total, weights, divisor, k) <= (divisor - 1) * Self::count(
                |j: int| Self::remainder(total, weights, divisor, j) > 0,
                k,
            ),
        decreases k,
    {
        let floors = Self::floors(total, weights, divisor);
        let positive = |j: int| Self::remainder(total, weights, divisor, j) > 0;
        if k == 0 {
            assert(divisor * 0 == 0 && total * 0 == 0 && (divisor - 1) * 0 == 0)
                by (nonlinear_arith);
        } else {
            let i = k - 1;
            Self::lemma_floors_and_cut(total, weights, divisor, i as nat);
            assert(floors.take(k as int).drop_last() =~= floors.take(i));
            assert(weights.take(k as int).drop_last() =~= weights.take(i));
            let p = total * weights[i];
            assert(weights[i] >= 0);
            assert(p >= 0) by (nonlinear_arith)
                requires
                    total >= 0,
                    weights[i] >= 0,
                    p == total * weights[i],
            ;
            assert(p <= i128::MAX);
            let f = p / divisor;
            let r = p % divisor;
            assert(p == divisor * f + r && 0 <= r < divisor && 0 <= f <= p) by (nonlinear_arith)
                requires
                    divisor > 0,
                    p >= 0,
                    f == p / divisor,
                    r == p % divisor,
            ;
            assert(floors[i] == f);
            let a = Self::sum(floors.take(i));
            let b = Self::sum(weights.take(i));
            assert(divisor * (a + f) == divisor * a + divisor * f) by (nonlinear_arith);
            assert(total * (b + weights[i]) == total * b + total * weights[i]) by (nonlinear_arith);
            let n = Self::count(positive, i as nat);
            assert((divisor - 1) * (n + 1) == (divisor - 1) * n + (divisor - 1))
                by (nonlinear_arith);
        }
    }

    /// Where the weights make up the divisor, the shares rounded down leave
    /// less than one unit for each party.
    pub proof fn residue_is_small(total: int, weights: Seq<i128>, divisor: int)
        requires
            0 <= total,
            weights.len() > 0,
            divisor > 0,
            Self::sum(weights) == divisor,
            forall|i: int| 0 <= i < weights.len() ==> #[trigger] weights[i] >= 0,
            Self::representable(total, weights),
        ensures
            0 <= Self::residue(total, weights, divisor) < weights.len(),
            Self::sum(Self::floors(total, weights, divisor)) <= total,
    {
        let n = weights.len();
        let floors = Self::floors(total, weights, divisor);
        let positive = |j: int| Self::remainder(total, weights, divisor, j) > 0;
        Self::lemma_floors_and_cut(total, weights, divisor, n);
        assert(floors.take(n as int) =~= floors);
        assert(weights.take(n as int) =~= weights);
        Self::lemma_count_bound(positive, n);
        let residue = Self::residue(total, weights, divisor);
        let cut = Self::cut(total, weights, divisor, n);
        let s = Self::sum(floors);
        let k = Self::count(positive, n) as int;
        assert(0 <= residue < n) by (nonlinear_arith)
            requires
                divisor > 0,
                divisor * s + cut == total * divisor,
                0 <= cut <= (divisor - 1) * k,
                0 <= k <= n,
                n > 0,
                residue == total - s,
        ;
    }

    /// Where the weights make up the divisor, a party gets its exact share
    /// rounded down or up, and a party without weight gets nothing.
    pub proof fn share_is_fair(total: int, weights: Seq<i128>, divisor: int, i: int)
        requires
            0 <= total,
            0 <= i < weights.len(),
            divisor > 0,
            Self::sum(weights) == divisor,
            forall|j: int| 0 <= j < weights.len() ==> #[trigger] weights[j] >= 0,
            Self::representable(total, weights),
        ensures
            Self::floor(total, weights, divisor, i) <= Self::share(total, weights, divisor, i)
                <= Self::floor(total, weights, divisor, i) + 1,
            weights[i] == 0 ==> Self::share(total, weights, divisor, i) == 0,
            Self::remainder(total, weights, divisor, i) == 0 ==> Self::share(
                total,
                weights,
                divisor,
                i,
            ) == Self::floor(total, weights, divisor, i),
    {
        Self::residue_is_small(total, weights, divisor);
        let n = weights.len();
        if Self::remainder(total, weights, divisor, i) == 0 {
            let floors = Self::floors(total, weights, divisor);
            let positive = |j: int| Self::remainder(total, weights, divisor, j) > 0;
            let before_i = |j: int| Self::ahead(total, weights, divisor, j, i);
            Self::lemma_floors_and_cut(total, weights, divisor, n);
            assert(floors.take(n as int) =~= floors);
            assert(weights.take(n as int) =~= weights);
            assert forall|j: int| 0 <= j < n && #[trigger] positive(j) implies before_i(j) by {}
            Self::lemma_count_subset(positive, before_i, n);
            let residue = Self::residue(total, weights, divisor);
            let cut = Self::cut(total, weights, divisor, n);
            let s = Self::sum(floors);
            let k = Self::count(positive, n) as int;
            assert(residue <= k) by (nonlinear_arith)
                requires
                    divisor > 0,
                    divisor * s + cut == total * divisor,
                    0 <= cut <= (divisor - 1) * k,
                    0 <= k,
                    residue == total - s,
            ;
        }
        if weights[i] == 0 {
            assert(total * 0 == 0);
            assert(0int / divisor == 0 && 0int % divisor == 0) by (nonlinear_arith)
                requires
                    divisor > 0,
            ;
        }
    }

    /// The sum of weights that are multiplied alike is multiplied too.
    proof fn lemma_sum_scaled(weights: Seq<i128>, scaled: Seq<i128>, factor: int)
        requires
            scaled.len() == weights.len(),
            forall|i: int|
                0 <= i < weights.len() ==> (#[trigger] scaled[i]) == factor * weights[i],
        ensures
            Self::sum(scaled) == factor * Self::sum(weights),
        decreases weights.len(),
    {
        if weights.len() == 0 {
            assert(factor * 0 == 0) by (nonlinear_arith);
        } else {
            Self::lemma_sum_scaled(weights.drop_last(), scaled.drop_last(), factor);
            let rest = Self::sum(weights.drop_last());
            let last = weights.last() as int;
            assert(factor * (rest + last) == factor * rest + factor * last) by (nonlinear_arith);
            assert(scaled[weights.len() - 1] == factor * weights[weights.len() - 1]);
        }
    }

    /// Only the ratios of the weights matter: multiplying all of them alike
    /// changes no share.
    pub proof fn only_ratios_matter(
        total: int,
        weights: Seq<i128>,
        scaled: Seq<i128>,
        factor: int,
    )
        requires
            0 <= total,
            factor > 0,
            Self::sum(weights) > 0,
            scaled.len() == weights.len(),
            forall|i: int|
                0 <= i < weights.len() ==> (#[trigger] scaled[i]) == factor * weights[i],
        ensures
            Self::shares(total, scaled, Self::sum(scaled)) == Self::shares(
                total,
                weights,
                Self::sum(weights),
            ),
    {
        let n = weights.len();
        let d = Self::sum(weights);
        let e = Self::sum(scaled);
        Self::lemma_sum_scaled(weights, scaled, factor);
        assert forall|i: int| 0 <= i < n implies {
            &&& #[trigger] Self::floor(total, scaled, e, i) == Self::floor(total, weights, d, i)
            &&& Self::remainder(total, scaled, e, i) == factor * Self::remainder(
                total,
                weights,
                d,
                i,
            )
        } by {
            assert(scaled[i] == factor * weights[i]);
            let x = total * weights[i];
            assert(total * scaled[i] == factor * x) by (nonlinear_arith)
                requires
                    scaled[i] == factor * weights[i],
                    x == total * weights[i],
            ;
            Self::lemma_scaled_division(x, d, factor);
        }
        assert(Self::floors(total, scaled, e) =~= Self::floors(total, weights, d));
        assert forall|i: int| 0 <= i < n implies #[trigger] Self::rank(total, scaled, e, i)
            == Self::rank(total, weights, d, i) by {
            let p = |j: int| Self::ahead(total, scaled, e, j, i);
            let q = |j: int| Self::ahead(total, weights, d, j, i);
            assert forall|j: int| 0 <= j < n implies #[trigger] p(j) == q(j) by {
                assert(Self::floor(total, scaled, e, i) == Self::floor(total, weights, d, i));
                assert(Self::floor(total, scaled, e, j) == Self::floor(total, weights, d, j));
                let a = Self::remainder(total, weights, d, j);
                let b = Self::remainder(total, weights, d, i);
                assert((factor * a > factor * b <==> a > b) && (factor * a == factor * b <==> a
                    == b)) by (nonlinear_arith)
                    requires
                        factor > 0,
                ;
            }
            assert forall|j: int| 0 <= j < n && #[trigger] q(j) implies p(j) by {
                assert(p(j) == q(j));
            }
            Self::lemma_count_subset(p, q, n);
            Self::lemma_count_subset(q, p, n);
        }
        assert forall|i: int| 0 <= i < n implies #[trigger] Self::share(total, scaled, e, i)
            == Self::share(total, weights, d, i) by {
            assert(Self::floor(total, scaled, e, i) == Self::floor(total, weights, d, i));
            assert(Self::rank(total, scaled, e, i) == Self::rank(total, weights, d, i));
        }
        assert(Self::shares(total, scaled, e) =~= Self::shares(total, weights, d));
    }

    /// Multiplying dividend and divisor alike keeps the quotient, and
    /// multiplies the remainder.
    proof fn lemma_scaled_division(x: int, d: int, factor: int)
        requires
            d > 0,
            factor > 0,
        ensures
            factor * x / (factor * d) == x / d,
            factor * x % (factor * d) == factor * (x % d),
    {
        let q = x / d;
        let r = x % d;
        assert(x == d * q + r && 0 <= r < d) by (nonlinear_arith)
            requires
                d > 0,
                q == x / d,
                r == x % d,
        ;
        assert(factor * x == (factor * d) * q + factor * r && 0 <= factor * r < factor * d)
            by (nonlinear_arith)
            requires
                x == d * q + r,
                0 <= r < d,
                factor > 0,
        ;
        vstd::arithmetic::div_mod::lemma_fundamental_div_mod_converse(
            factor * x,
            factor * d,
            q,
            factor * r,
        );
    }

    proof fn lemma_item_in_sum(s: Seq<i128>, i: int)
        requires
            0 <= i < s.len(),
            forall|j: int| 0 <= j < s.len() ==> 0 <= #[trigger] s[j],
        ensures
            s[i] <= Self::sum(s),
        decreases s.len(),
    {
        Self::lemma_sum_prefix(s, s.len() - 1);
        assert(s.take(s.len() - 1) =~= s.drop_last());
        if i < s.len() - 1 {
            assert forall|j: int| 0 <= j < s.len() - 1 implies 0 <= #[trigger] s.drop_last()[j] by {
                assert(s[j] >= 0);
            }
            Self::lemma_item_in_sum(s.drop_last(), i);
            assert(s[s.len() - 1] >= 0);
        }
    }

    pub proof fn lemma_sum_prefix(s: Seq<i128>, i: int)
        requires
            0 <= i <= s.len(),
            forall|j: int| 0 <= j < s.len() ==> 0 <= #[trigger] s[j],
        ensures
            0 <= Self::sum(s.take(i)) <= Self::sum(s),
        decreases s.len(),
    {
        if i == s.len() {
            assert(s.take(i) =~= s);
            if i > 0 {
                assert(s.drop_last() =~= s.take(i - 1));
                let t = s.drop_last();
                assert forall|j: int| 0 <= j < t.len() implies 0 <= #[trigger] t[j] by {
                    assert(s[j] >= 0);
                }
                Self::lemma_sum_prefix(t, i - 1);
                assert(t.take(i - 1) =~= t);
                assert(s[i - 1] >= 0);
            }
        } else {
            let t = s.drop_last();
            assert forall|j: int| 0 <= j < t.len() implies 0 <= #[trigger] t[j] by {
                assert(s[j] >= 0);
            }
            Self::lemma_sum_prefix(t, i);
            assert(t.take(i) =~= s.take(i));
            assert(s[s.len() - 1] >= 0);
        }
    }
}

} // verus!
