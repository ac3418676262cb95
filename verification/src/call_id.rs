//! Call identifiers: one counter per connection.

use vstd::prelude::*;

verus! {

/// The id that follows `id` on a connection. The counter is as wide as the
/// machine word and starts over at zero after the largest value.
pub open spec fn successor(id: usize) -> usize {
    if id == usize::MAX {
        0
    } else {
        (id + 1) as usize
    }
}

/// The id handed out by the `k`-th allocation (counting from zero) of a
/// counter that stood at `start`.
pub open spec fn nth_id(start: usize, k: nat) -> usize
    decreases k,
{
    if k == 0 {
        start
    } else {
        successor(nth_id(start, (k - 1) as nat))
    }
}

/// Source of the call ids of one connection.
#[derive(Debug)]
pub struct CallIdAllocator {
    next: usize,
}

impl CallIdAllocator {
    /// The id that the next allocation returns.
    pub closed spec fn next_id(&self) -> usize {
        self.next
    }

    /// A counter that starts at zero.
    pub fn new() -> (fresh: Self)
        ensures
            fresh.next_id() == 0,
    {
        CallIdAllocator { next: 0 }
    }

    /// Hands out the current id and steps the counter.
    pub fn allocate(&mut self) -> (id: usize)
        ensures
            id == old(self).next_id(),
            final(self).next_id() == successor(old(self).next_id()),
    {
        let id: usize = self.next;
        self.next = id.wrapping_add(1);
        id
    }
}

/// Without wrap-around the `k`-th id is `start + k`.
pub proof fn lemma_nth_id_closed_form(start: usize, k: nat)
    requires
        start + k <= usize::MAX,
    ensures
        nth_id(start, k) == start + k,
    decreases k,
{
    if k > 0 {
        lemma_nth_id_closed_form(start, (k - 1) as nat);
    }
}

/// Ids are strictly increasing in the order of allocation, as long as the
/// counter has not passed its largest value.
pub proof fn lemma_ids_strictly_increase(start: usize, i: nat, j: nat)
    requires
        i < j,
        start + j <= usize::MAX,
    ensures
        nth_id(start, i) < nth_id(start, j),
{
    lemma_nth_id_closed_form(start, i);
    lemma_nth_id_closed_form(start, j);
}

/// With wrap-around the `k`-th id is `start + k` reduced modulo the number of
/// machine words.
pub proof fn lemma_nth_id_wraps(start: usize, k: nat)
    ensures
        nth_id(start, k) == (start + k) % (usize::MAX + 1) as int,
    decreases k,
{
    let m: int = usize::MAX + 1;
    if k == 0 {
        let a: int = start as int;
        assert(a % m == a) by (nonlinear_arith)
            requires
                0 <= a < m,
        ;
    } else {
        lemma_nth_id_wraps(start, (k - 1) as nat);
        let a: int = start + k - 1;
        assert((a + 1) % m == if a % m == m - 1 {
            0
        } else {
            a % m + 1
        }) by (nonlinear_arith)
            requires
                0 <= a,
                0 < m,
        ;
    }
}

/// No id is handed out twice among any `usize::MAX + 1` consecutive
/// allocations.
pub proof fn lemma_ids_unique(start: usize, i: nat, j: nat)
    requires
        i < j,
        j - i <= usize::MAX,
    ensures
        nth_id(start, i) != nth_id(start, j),
{
    let m: int = usize::MAX + 1;
    let a: int = start + i;
    let b: int = start + j;
    lemma_nth_id_wraps(start, i);
    lemma_nth_id_wraps(start, j);
    if a % m == b % m {
        assert(false) by (nonlinear_arith)
            requires
                a % m == b % m,
                0 <= a < b,
                b - a < m,
        {
            assert(a == m * (a / m) + a % m);
            assert(b == m * (b / m) + b % m);
            assert(b - a == m * (b / m - a / m));
            let d = b / m - a / m;
            assert(d >= 1 ==> m * d >= m);
            assert(d <= 0 ==> m * d <= 0);
        }
    }
}

} // verus!
