//! Lists of amounts, as the host holds them.
//!
//! A `soroban_sdk::Vec` is a handle to a list in the memory of the host. Its
//! items are host values; one that is no 128 bit integer cannot be read as an
//! amount.

use vstd::prelude::*;

use crate::shares::LargestRemainder;

verus! {

/// The environment of the host, in which lists are made.
#[verifier::external_type_specification]
#[verifier::external_body]
pub struct ExEnv(soroban_sdk::Env);

/// A list in the memory of the host.
#[verifier::external_type_specification]
#[verifier::external_body]
#[verifier::reject_recursive_types(T)]
pub struct ExVec<T>(soroban_sdk::Vec<T>);

/// What a list holds: each item as an amount, or `None` where it is no amount.
pub uninterp spec fn items(v: soroban_sdk::Vec<i128>) -> Seq<Option<i128>>;

/// Whether each of the first `n` items of a list can be read as an amount.
pub open spec fn readable_to(v: soroban_sdk::Vec<i128>, n: int) -> bool {
    forall|i: int| 0 <= i < n ==> (#[trigger] items(v)[i]) is Some
}

/// Whether every item of a list can be read as an amount.
pub open spec fn readable(v: soroban_sdk::Vec<i128>) -> bool {
    readable_to(v, items(v).len() as int)
}

/// The amounts that a list holds, as far as it is readable.
pub open spec fn amounts(v: soroban_sdk::Vec<i128>) -> Seq<i128> {
    Seq::new(items(v).len(), |i: int| items(v)[i]->0)
}

/// Whether no amount is below `least`, and their sum is representable.
pub open spec fn fit(s: Seq<i128>, least: int) -> bool {
    &&& forall|i: int| 0 <= i < s.len() ==> (#[trigger] s[i]) >= least
    &&& LargestRemainder::sum(s) <= i128::MAX
}

/// Whether reading a list tells if its amounts [`fit`]: it is readable, or
/// readable as far as the amounts that do not fit.
pub open spec fn legible(v: soroban_sdk::Vec<i128>, least: int) -> bool {
    exists|n: int|
        {
            &&& 0 <= n <= items(v).len()
            &&& #[trigger] readable_to(v, n)
            &&& n == items(v).len() || !fit(amounts(v).take(n), least)
        }
}

/// `soroban_sdk::Vec::new`: makes an empty list.
#[verifier::external_body]
pub(crate) fn list_new(env: &soroban_sdk::Env) -> (v: soroban_sdk::Vec<i128>)
    ensures
        items(v) == Seq::<Option<i128>>::empty(),
{
    soroban_sdk::Vec::new(env)
}

/// `soroban_sdk::Vec::len`: the number of items, which the host counts in 32
/// bits.
#[verifier::external_body]
pub(crate) fn list_len(v: &soroban_sdk::Vec<i128>) -> (n: u32)
    ensures
        n == items(*v).len(),
{
    v.len()
}

/// `soroban_sdk::Vec::try_get`: the item at a position within the list, or
/// `None` where the item there does not convert.
#[verifier::external_body]
pub(crate) fn list_get(v: &soroban_sdk::Vec<i128>, i: u32) -> (item: Option<i128>)
    requires
        i < items(*v).len(),
    ensures
        item == items(*v)[i as int],
{
    v.try_get(i).ok().flatten()
}

/// `soroban_sdk::Vec::push_back`: appends an item to a list that is not at the
/// host's limit of length.
#[verifier::external_body]
pub(crate) fn list_push_back(v: &mut soroban_sdk::Vec<i128>, amount: i128)
    requires
        items(*old(v)).len() < u32::MAX,
    ensures
        items(*final(v)) == items(*old(v)).push(Some(amount)),
{
    v.push_back(amount)
}

/// The `Clone` of `soroban_sdk::Vec`: a second handle to the same list. A list
/// never changes once made (`push_back` moves a handle on to a new list), so the
/// two stand for the same value.
pub assume_specification<T>[ <soroban_sdk::Vec<T> as Clone>::clone ](
    v: &soroban_sdk::Vec<T>,
) -> (copy: soroban_sdk::Vec<T>)
    ensures
        copy == *v,
;

/// What reading a list comes to.
pub enum Reading {
    /// Its amounts and their sum.
    Amounts(Vec<i128>, i128),
    /// An amount that is too small, or one too large to add.
    Unfit,
    /// An item that is no amount.
    Illegible,
}

/// Amounts of which the first do not fit do not fit.
pub(crate) proof fn lemma_unfit_from_the_start(s: Seq<i128>, n: int, least: int)
    requires
        0 <= n <= s.len(),
        least >= 0,
        !fit(s.take(n), least),
    ensures
        !fit(s, least),
{
    if fit(s, least) {
        assert forall|i: int| 0 <= i < s.len() implies 0 <= #[trigger] s[i] by {
            assert(s[i] >= least);
        }
        LargestRemainder::lemma_sum_prefix(s, n);
        assert forall|i: int| 0 <= i < n implies (#[trigger] s.take(n)[i]) >= least by {
            assert(s[i] >= least);
        }
    }
}

/// Reads a list from its start, until an amount is below `least`, the sum is
/// not representable, or an item is no amount.
pub fn read(v: &soroban_sdk::Vec<i128>, least: i128) -> (r: Reading)
    requires
        least >= 0,
    ensures
        r is Illegible <==> !legible(*v, least as int),
        r is Unfit ==> !fit(amounts(*v), least as int),
        r matches Reading::Amounts(list, sum) ==> {
            &&& readable(*v)
            &&& fit(amounts(*v), least as int)
            &&& list@ == amounts(*v)
            &&& sum == LargestRemainder::sum(list@)
            &&& sum >= 0
        },
{
    let ghost s = amounts(*v);
    let n: u32 = list_len(v);
    let mut list: Vec<i128> = Vec::new();
    let mut sum: i128 = 0;
    let mut i: u32 = 0;
    while i < n
        invariant
            s == amounts(*v),
            n == items(*v).len(),
            n == s.len(),
            i <= n,
            least >= 0,
            readable_to(*v, i as int),
            list@ == s.take(i as int),
            sum == LargestRemainder::sum(s.take(i as int)),
            sum >= 0,
            forall|j: int| 0 <= j < i ==> (#[trigger] s[j]) >= least,
        decreases n - i,
    {
        let ghost next = s.take(i as int + 1);
        assert(next.drop_last() =~= s.take(i as int));
        let amount: i128 = match list_get(v, i) {
            Some(amount) => amount,
            None => {
                proof {
                    assert forall|k: int|
                        {
                            &&& 0 <= k <= items(*v).len()
                            &&& #[trigger] readable_to(*v, k)
                        } implies k < items(*v).len() && fit(s.take(k), least as int) by {
                        if k > i {
                            assert(items(*v)[i as int] is Some);
                        }
                        let read = s.take(i as int);
                        assert forall|j: int| 0 <= j < read.len() implies (#[trigger] read[j])
                            >= least by {
                            assert(s[j] >= least);
                        }
                        LargestRemainder::lemma_sum_prefix(read, k);
                        assert(read.take(k) =~= s.take(k));
                    }
                }
                return Reading::Illegible;
            },
        };
        assert(next.last() == amount);
        assert(readable_to(*v, i as int + 1));
        if amount < least {
            proof {
                assert(next[i as int] < least);
                lemma_unfit_from_the_start(s, i as int + 1, least as int);
            }
            return Reading::Unfit;
        }
        sum = match sum.checked_add(amount) {
            Some(sum) => sum,
            None => {
                proof {
                    lemma_unfit_from_the_start(s, i as int + 1, least as int);
                }
                return Reading::Unfit;
            },
        };
        list.push(amount);
        assert(list@ =~= next);
        i += 1;
    }
    assert(s.take(n as int) =~= s);
    Reading::Amounts(list, sum)
}

} // verus!
