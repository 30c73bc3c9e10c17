//! Shared ownership and numbering.

use std::sync::Arc;

use vstd::prelude::*;

verus! {

/// Another handle on a shared value (`<Arc<T> as Clone>::clone`): it points
/// at the same value.
#[verifier::external_body]
pub(crate) fn share<T>(value: &Arc<T>) -> (r: Arc<T>)
    ensures
        r == *value,
{
    Arc::clone(value)
}

/// Hands out numbers one after the other, starting at 1, as the engine's
/// connections and transactions are numbered; after the largest `usize` it
/// starts again at 0.
#[derive(Debug)]
pub struct Counter {
    pub next: usize,
}

/// The number that follows `n` on a counter.
pub open spec fn successor(n: usize) -> usize {
    if n == usize::MAX {
        0
    } else {
        (n + 1) as usize
    }
}

impl Counter {
    /// A counter whose first number is 1.
    pub fn new() -> (r: Counter)
        ensures
            r.next == 1,
    {
        Counter { next: 1 }
    }

    /// The next number; the counter moves on by one.
    pub fn take(&mut self) -> (r: usize)
        ensures
            r == old(self).next,
            final(self).next == successor(old(self).next),
    {
        let r = self.next;
        self.next = if self.next == usize::MAX { 0 } else { self.next + 1 };
        r
    }
}

/// Two numbers taken one after the other from a counter differ.
pub proof fn law_successive_numbers_differ(n: usize)
    ensures
        successor(n) != n,
{
}

/// The number a counter that started at `start` hands out at its `k`-th
/// take (counting from 0).
pub open spec fn nth_number(start: usize, k: nat) -> usize
    decreases k,
{
    if k == 0 {
        start
    } else {
        successor(nth_number(start, (k - 1) as nat))
    }
}

proof fn lemma_nth_number(start: usize, k: nat)
    ensures
        nth_number(start, k) as int == (start + k) % (usize::MAX as int + 1),
    decreases k,
{
    let m = usize::MAX as int + 1;
    if k == 0 {
        vstd::arithmetic::div_mod::lemma_small_mod(start as nat, m as nat);
    } else {
        lemma_nth_number(start, (k - 1) as nat);
        let prev = nth_number(start, (k - 1) as nat);
        vstd::arithmetic::div_mod::lemma_add_mod_noop_right(1, start + k - 1, m);
        vstd::arithmetic::div_mod::lemma_small_mod(1, m as nat);
        if prev == usize::MAX {
            vstd::arithmetic::div_mod::lemma_mod_self_0(m);
            assert((1 + (start + k - 1)) % m == (1 + prev) % m);
        } else {
            vstd::arithmetic::div_mod::lemma_small_mod((prev + 1) as nat, m as nat);
            assert((1 + (start + k - 1)) % m == (1 + prev) % m);
        }
    }
}

/// A counter hands out no number twice before it has handed out as many
/// numbers as a `usize` can hold: the `i`-th and the `j`-th numbers taken
/// differ. So the connections (and the transactions) numbered from one
/// counter are told apart by their numbers.
pub proof fn law_counter_numbers_distinct(start: usize, i: nat, j: nat)
    requires
        i < j,
        j - i <= usize::MAX,
    ensures
        nth_number(start, i) != nth_number(start, j),
{
    let m = usize::MAX as int + 1;
    lemma_nth_number(start, i);
    lemma_nth_number(start, j);
    vstd::arithmetic::div_mod::lemma_mod_equivalence(start + j, start + i, m);
    vstd::arithmetic::div_mod::lemma_small_mod((j - i) as nat, m as nat);
    assert((start + j) - (start + i) == j - i);
}

} // verus!
