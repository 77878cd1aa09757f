//! Ordered 3-permutations of the indices `0..n`, in lexicographic order.
//!
//! Block and extrusion entities emit one triangle per ordered triple of
//! distinct point indices.  The triples come from the `itertools`
//! crate; the spec below pins both their set and their order, so the
//! emitted vertex list is an exact function of the points.

use vstd::prelude::*;
use itertools::Itertools;

verus! {

/// The lexicographically ordered triples `(i, j, k)` with the third
/// component running over `k0..n`, skipping `i` and `j`.
pub open spec fn perm3_cells(n: usize, i: usize, j: usize, k0: usize) -> Seq<(usize, usize, usize)>
    decreases n - k0 when k0 <= n
{
    if k0 >= n {
        Seq::empty()
    } else {
        let rest = perm3_cells(n, i, j, (k0 + 1) as usize);
        if k0 != i && k0 != j {
            seq![(i, j, k0)] + rest
        } else {
            rest
        }
    }
}

/// The triples with first component `i` and second component running
/// over `j0..n`, skipping `i`.
pub open spec fn perm3_rows(n: usize, i: usize, j0: usize) -> Seq<(usize, usize, usize)>
    decreases n - j0 when j0 <= n
{
    if j0 >= n {
        Seq::empty()
    } else {
        let rest = perm3_rows(n, i, (j0 + 1) as usize);
        if j0 != i {
            perm3_cells(n, i, j0, 0) + rest
        } else {
            rest
        }
    }
}

/// The triples with first component running over `i0..n`.
pub open spec fn perm3_blocks(n: usize, i0: usize) -> Seq<(usize, usize, usize)>
    decreases n - i0 when i0 <= n
{
    if i0 >= n {
        Seq::empty()
    } else {
        perm3_rows(n, i0, 0) + perm3_blocks(n, (i0 + 1) as usize)
    }
}

/// All ordered triples of distinct indices below `n`, lexicographically.
pub open spec fn perm3_seq(n: usize) -> Seq<(usize, usize, usize)> {
    perm3_blocks(n, 0)
}

proof fn lemma_perm3_cells_len(n: usize, i: usize, j: usize, k0: usize)
    requires
        i < n,
        j < n,
        i != j,
        k0 <= n,
    ensures
        perm3_cells(n, i, j, k0).len() == n - k0
            - (if i >= k0 { 1int } else { 0 })
            - (if j >= k0 { 1int } else { 0 }),
    decreases n - k0,
{
    if k0 >= n {
    } else {
        lemma_perm3_cells_len(n, i, j, (k0 + 1) as usize);
    }
}

proof fn lemma_perm3_rows_len(n: usize, i: usize, j0: usize)
    requires
        i < n,
        j0 <= n,
    ensures
        perm3_rows(n, i, j0).len() == (n - j0 - (if i >= j0 { 1int } else { 0 })) * (n - 2),
    decreases n - j0,
{
    let a = n - j0 - (if i >= j0 { 1int } else { 0 });
    if j0 >= n {
        assert(a == 0);
        assert(a * (n - 2) == 0) by (nonlinear_arith)
            requires
                a == 0,
        ;
    } else {
        lemma_perm3_rows_len(n, i, (j0 + 1) as usize);
        let c = n - (j0 + 1) - (if i >= j0 + 1 { 1int } else { 0 });
        if j0 != i {
            lemma_perm3_cells_len(n, i, j0, 0);
            assert((n - 2) + c * (n - 2) == a * (n - 2)) by (nonlinear_arith)
                requires
                    c + 1 == a,
            ;
        } else {
            assert(c * (n - 2) == a * (n - 2)) by (nonlinear_arith)
                requires
                    c == a,
            ;
        }
    }
}

proof fn lemma_perm3_blocks_len(n: usize, i0: usize)
    requires
        i0 <= n,
        n >= 1,
    ensures
        perm3_blocks(n, i0).len() == (n - i0) * ((n - 1) * (n - 2)),
    decreases n - i0,
{
    let a = n - i0;
    if i0 >= n {
        assert(a == 0);
        assert(a * ((n - 1) * (n - 2)) == 0) by (nonlinear_arith)
            requires
                a == 0,
        ;
    } else {
        lemma_perm3_blocks_len(n, (i0 + 1) as usize);
        lemma_perm3_rows_len(n, i0, 0);
        let c = n - (i0 + 1);
        assert((n - 0 - 1int) * (n - 2) + c * ((n - 1) * (n - 2)) == a * ((n - 1) * (n - 2)))
            by (nonlinear_arith)
            requires
                c + 1 == a,
        ;
        assert(n - 0 - 1int == n - 1);
    }
}

/// How many ordered triples there are: `n * (n - 1) * (n - 2)`.
pub proof fn lemma_perm3_seq_len(n: usize)
    requires
        n >= 1,
    ensures
        perm3_seq(n).len() == n * ((n - 1) * (n - 2)),
{
    lemma_perm3_blocks_len(n, 0);
}

/// Whether every index of a triple lies below `n`.
pub open spec fn triple_below(t: (usize, usize, usize), n: usize) -> bool {
    t.0 < n && t.1 < n && t.2 < n
}

proof fn lemma_perm3_cells_bounds(n: usize, i: usize, j: usize, k0: usize)
    requires
        i < n,
        j < n,
        k0 <= n,
    ensures
        forall|x: int| 0 <= x < perm3_cells(n, i, j, k0).len() ==> triple_below(
            #[trigger] perm3_cells(n, i, j, k0)[x],
            n,
        ),
    decreases n - k0,
{
    if k0 >= n {
    } else {
        lemma_perm3_cells_bounds(n, i, j, (k0 + 1) as usize);
        let s = perm3_cells(n, i, j, k0);
        let rest = perm3_cells(n, i, j, (k0 + 1) as usize);
        assert forall|x: int| 0 <= x < s.len() implies triple_below(#[trigger] s[x], n) by {
            if k0 != i && k0 != j {
                if x == 0 {
                    assert(s[x] == (i, j, k0));
                } else {
                    assert(s[x] == rest[x - 1]);
                }
            } else {
                assert(s[x] == rest[x]);
            }
        }
    }
}

proof fn lemma_perm3_rows_bounds(n: usize, i: usize, j0: usize)
    requires
        i < n,
        j0 <= n,
    ensures
        forall|x: int| 0 <= x < perm3_rows(n, i, j0).len() ==> triple_below(
            #[trigger] perm3_rows(n, i, j0)[x],
            n,
        ),
    decreases n - j0,
{
    if j0 >= n {
    } else {
        lemma_perm3_rows_bounds(n, i, (j0 + 1) as usize);
        let s = perm3_rows(n, i, j0);
        let rest = perm3_rows(n, i, (j0 + 1) as usize);
        if j0 != i {
            lemma_perm3_cells_bounds(n, i, j0, 0);
            let cells = perm3_cells(n, i, j0, 0);
            assert forall|x: int| 0 <= x < s.len() implies triple_below(#[trigger] s[x], n) by {
                if x < cells.len() {
                    assert(s[x] == cells[x]);
                } else {
                    assert(s[x] == rest[x - cells.len()]);
                }
            }
        } else {
            assert forall|x: int| 0 <= x < s.len() implies triple_below(#[trigger] s[x], n) by {
                assert(s[x] == rest[x]);
            }
        }
    }
}

proof fn lemma_perm3_blocks_bounds(n: usize, i0: usize)
    requires
        i0 <= n,
    ensures
        forall|x: int| 0 <= x < perm3_blocks(n, i0).len() ==> triple_below(
            #[trigger] perm3_blocks(n, i0)[x],
            n,
        ),
    decreases n - i0,
{
    if i0 >= n {
    } else {
        lemma_perm3_blocks_bounds(n, (i0 + 1) as usize);
        lemma_perm3_rows_bounds(n, i0, 0);
        let s = perm3_blocks(n, i0);
        let rows = perm3_rows(n, i0, 0);
        let rest = perm3_blocks(n, (i0 + 1) as usize);
        assert forall|x: int| 0 <= x < s.len() implies triple_below(#[trigger] s[x], n) by {
            if x < rows.len() {
                assert(s[x] == rows[x]);
            } else {
                assert(s[x] == rest[x - rows.len()]);
            }
        }
    }
}

/// Every triple names three indices below `n`.
pub proof fn lemma_perm3_seq_bounds(n: usize)
    ensures
        forall|x: int| 0 <= x < perm3_seq(n).len() ==> triple_below(#[trigger] perm3_seq(n)[x], n),
{
    lemma_perm3_blocks_bounds(n, 0);
}

/// Relies on `Itertools::permutations`: over the in-order range `0..n`
/// it yields every `k`-permutation of distinct elements exactly once,
/// in lexicographic order, which for `k == 3` is [`perm3_seq`].
#[verifier::external_body]
pub fn permutations3(n: usize) -> (r: Vec<(usize, usize, usize)>)
    ensures
        r@ == perm3_seq(n),
{
    (0..n).permutations(3).map(|v| (v[0], v[1], v[2])).collect()
}

} // verus!
