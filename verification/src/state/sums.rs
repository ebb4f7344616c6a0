use crate::error::VsrError;
use crate::state::deposit_entry::DepositEntry;
use vstd::prelude::*;

verus! {

/// The sum of `term` over the first `n` entries.
pub open spec fn sum_of(entries: Seq<DepositEntry>, term: spec_fn(DepositEntry) -> int, n: nat) -> int
    decreases n,
{
    if n == 0 {
        0
    } else {
        sum_of(entries, term, (n - 1) as nat) + term(entries[n - 1])
    }
}

/// The sum of `term` over the first `n` entries, where a term can fail:
/// the first failure, in the order of the entries, is the result.
pub open spec fn try_sum(
    entries: Seq<DepositEntry>,
    term: spec_fn(DepositEntry) -> Result<u64, VsrError>,
    n: nat,
) -> Result<int, VsrError>
    decreases n,
{
    if n == 0 {
        Ok(0)
    } else {
        match try_sum(entries, term, (n - 1) as nat) {
            Err(e) => Err(e),
            Ok(sum) => match term(entries[n - 1]) {
                Ok(t) => Ok(sum + t),
                Err(e) => Err(e),
            },
        }
    }
}

/// The sum over the first `n` entries can be computed in 64 bits: up to
/// the first failure, each term can be computed and each sum so far is
/// representable.
pub open spec fn try_sum_pre(
    entries: Seq<DepositEntry>,
    term: spec_fn(DepositEntry) -> Result<u64, VsrError>,
    term_pre: spec_fn(DepositEntry) -> bool,
    n: nat,
) -> bool
    decreases n,
{
    n == 0 || (try_sum_pre(entries, term, term_pre, (n - 1) as nat) && match try_sum(
        entries,
        term,
        (n - 1) as nat,
    ) {
        Ok(sum) => term_pre(entries[n - 1]) && match term(entries[n - 1]) {
            Ok(t) => sum + t <= u64::MAX,
            Err(_) => true,
        },
        Err(_) => true,
    })
}

/// A sum of terms that are not negative is not negative and only grows
/// with the number of entries.
pub proof fn lemma_sum_of_monotone(
    entries: Seq<DepositEntry>,
    term: spec_fn(DepositEntry) -> int,
    k: nat,
    n: nat,
)
    requires
        k <= n <= entries.len(),
        forall|i: int| 0 <= i < entries.len() ==> term(#[trigger] entries[i]) >= 0,
    ensures
        0 <= sum_of(entries, term, k) <= sum_of(entries, term, n),
    decreases n,
{
    if k < n {
        lemma_sum_of_monotone(entries, term, k, (n - 1) as nat);
    } else if n > 0 {
        lemma_sum_of_monotone(entries, term, (k - 1) as nat, (n - 1) as nat);
    }
}

/// Replacing one entry changes the sum by the difference of its terms.
pub proof fn lemma_sum_of_update(
    entries: Seq<DepositEntry>,
    term: spec_fn(DepositEntry) -> int,
    index: int,
    entry: DepositEntry,
    n: nat,
)
    requires
        0 <= index < entries.len(),
        n <= entries.len(),
    ensures
        sum_of(entries.update(index, entry), term, n) == sum_of(entries, term, n) + if index < n {
            term(entry) - term(entries[index])
        } else {
            0
        },
    decreases n,
{
    if n > 0 {
        lemma_sum_of_update(entries, term, index, entry, (n - 1) as nat);
    }
}

/// What can be computed for `n` entries can be computed for fewer.
pub proof fn lemma_try_sum_pre_prefix(
    entries: Seq<DepositEntry>,
    term: spec_fn(DepositEntry) -> Result<u64, VsrError>,
    term_pre: spec_fn(DepositEntry) -> bool,
    k: nat,
    n: nat,
)
    requires
        k <= n,
        try_sum_pre(entries, term, term_pre, n),
    ensures
        try_sum_pre(entries, term, term_pre, k),
    decreases n,
{
    if k < n {
        lemma_try_sum_pre_prefix(entries, term, term_pre, k, (n - 1) as nat);
    }
}

/// A failure among the first `k` entries is the result for any longer
/// prefix.
pub proof fn lemma_try_sum_failure_stays(
    entries: Seq<DepositEntry>,
    term: spec_fn(DepositEntry) -> Result<u64, VsrError>,
    k: nat,
    n: nat,
)
    requires
        k <= n,
        try_sum(entries, term, k) is Err,
    ensures
        try_sum(entries, term, n) == try_sum(entries, term, k),
    decreases n,
{
    if k < n {
        lemma_try_sum_failure_stays(entries, term, k, (n - 1) as nat);
    }
}

/// Where each term can be computed and none is above `bound`, the sum
/// over `n` entries can be computed as long as `n` times the bound fits
/// 64 bits.
pub proof fn lemma_try_sum_pre_of_bounded_terms(
    entries: Seq<DepositEntry>,
    term: spec_fn(DepositEntry) -> Result<u64, VsrError>,
    term_pre: spec_fn(DepositEntry) -> bool,
    bound: int,
    n: nat,
)
    requires
        n <= entries.len(),
        forall|i: int| 0 <= i < entries.len() ==> term_pre(#[trigger] entries[i]),
        forall|i: int|
            0 <= i < entries.len() ==> (term(#[trigger] entries[i]) matches Ok(t) ==> t <= bound),
        0 <= bound,
        n * bound <= u64::MAX,
    ensures
        try_sum_pre(entries, term, term_pre, n),
        try_sum(entries, term, n) matches Ok(sum) ==> 0 <= sum <= n * bound,
    decreases n,
{
    if n > 0 {
        let p = (n - 1) as nat;
        assert(p * bound <= n * bound && n * bound == p * bound + bound) by (nonlinear_arith)
            requires
                n == p + 1,
                bound >= 0,
        ;
        lemma_try_sum_pre_of_bounded_terms(entries, term, term_pre, bound, p);
        assert(term_pre(entries[n - 1]));
    } else {
        assert(n * bound == 0) by (nonlinear_arith)
            requires
                n == 0,
        ;
    }
}

} // verus!
