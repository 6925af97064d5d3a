use crate::board_utils::{all_in_bounds, in_bounds};
use crate::grid::is_rect;
use crate::pieces::{next_index, rotated};
use vstd::prelude::*;

verus! {

/// The cursor position after `m` advances from `i` in a cycle of `n` entries.
pub open spec fn advance(i: int, n: nat, m: nat) -> int
    decreases m,
{
    if m == 0 {
        i
    } else {
        next_index(advance(i, n, (m - 1) as nat), n)
    }
}

/// A list of positions that holds one position off the grid is not valid as a
/// whole, so `assert_valid_location` rejects it with `OutOfBounds`.
pub proof fn lemma_off_grid_position_rejected(positions: Seq<(i32, i32)>, k: int)
    requires
        0 <= k < positions.len(),
        !in_bounds(positions[k].0 as int, positions[k].1 as int),
    ensures
        !all_in_bounds(positions),
{
}

/// The count of advances that lead from position `i` to position `k` of a cycle
/// of `n` entries, between 1 and `n`.
pub open spec fn steps_to(i: int, k: int, n: nat) -> nat {
    if k > i {
        (k - i) as nat
    } else {
        (k - i + n) as nat
    }
}

/// A quarter turn of a `rows` x `cols` grid is a `cols` x `rows` grid: each turn
/// swaps the two dimensions.
pub proof fn lemma_rotate_swaps_dims(g: Seq<Seq<bool>>, rows: nat, cols: nat)
    requires
        is_rect(g, rows, cols),
    ensures
        is_rect(rotated(g, rows, cols), cols, rows),
{
}

/// Four quarter turns bring a square grid back to itself.
pub proof fn lemma_rotate_four_times(g: Seq<Seq<bool>>, n: nat)
    requires
        is_rect(g, n, n),
    ensures
        rotated(rotated(rotated(rotated(g, n, n), n, n), n, n), n, n) == g,
{
    let r1 = rotated(g, n, n);
    let r2 = rotated(r1, n, n);
    let r3 = rotated(r2, n, n);
    let r4 = rotated(r3, n, n);
    assert forall|i: int| 0 <= i < n implies #[trigger] r4[i] == g[i] by {
        assert forall|j: int| 0 <= j < n implies #[trigger] r4[i][j] == g[i][j] by {
            assert(r4[i][j] == r3[n - 1 - j][i]);
            assert(r3[n - 1 - j][i] == r2[n - 1 - i][n - 1 - j]);
            assert(r2[n - 1 - i][n - 1 - j] == r1[j][n - 1 - i]);
            assert(r1[j][n - 1 - i] == g[i][j]);
        }
        assert(r4[i] =~= g[i]);
    }
    assert(r4 =~= g);
}

/// A square grid with every cell filled is unchanged by a quarter turn.
pub proof fn lemma_filled_square_fixed(g: Seq<Seq<bool>>, n: nat)
    requires
        is_rect(g, n, n),
        forall|i: int, j: int| 0 <= i < n && 0 <= j < n ==> #[trigger] g[i][j],
    ensures
        rotated(g, n, n) == g,
{
    let r = rotated(g, n, n);
    assert forall|i: int| 0 <= i < n implies #[trigger] r[i] == g[i] by {
        assert forall|j: int| 0 <= j < n implies #[trigger] r[i][j] == g[i][j] by {
            assert(g[n - 1 - j][i]);
            assert(g[i][j]);
        }
        assert(r[i] =~= g[i]);
    }
    assert(r =~= g);
}

proof fn lemma_advance_value(i: int, n: nat, m: nat)
    requires
        0 <= i < n,
        m <= n,
    ensures
        advance(i, n, m) == if i + m < n {
            i + m
        } else {
            i + m - n
        },
    decreases m,
{
    if m > 0 {
        lemma_advance_value(i, n, (m - 1) as nat);
    }
}

/// Advancing the cursor `n` times through `n` entries visits every position
/// exactly once, and the next advance returns to the first one visited.
pub proof fn lemma_next_cycles(i: int, n: nat)
    requires
        0 <= i < n,
    ensures
        forall|m: nat| 1 <= m <= n ==> 0 <= #[trigger] advance(i, n, m) < n,
        forall|m1: nat, m2: nat|
            1 <= m1 < m2 <= n ==> #[trigger] advance(i, n, m1) != #[trigger] advance(i, n, m2),
        forall|k: int|
            0 <= k < n ==> 1 <= #[trigger] steps_to(i, k, n) <= n && advance(i, n, steps_to(i, k, n)) == k,
        advance(i, n, n + 1) == advance(i, n, 1),
{
    assert forall|m: nat| 1 <= m <= n implies 0 <= #[trigger] advance(i, n, m) < n by {
        lemma_advance_value(i, n, m);
    }
    assert forall|m1: nat, m2: nat| 1 <= m1 < m2 <= n implies #[trigger] advance(i, n, m1)
        != #[trigger] advance(i, n, m2) by {
        lemma_advance_value(i, n, m1);
        lemma_advance_value(i, n, m2);
    }
    assert forall|k: int| 0 <= k < n implies 1 <= #[trigger] steps_to(i, k, n) <= n && advance(
        i,
        n,
        steps_to(i, k, n),
    ) == k by {
        lemma_advance_value(i, n, steps_to(i, k, n));
    }
    lemma_advance_value(i, n, n);
    lemma_advance_value(i, n, 1);
    assert(advance(i, n, n + 1) == next_index(advance(i, n, n), n));
}

} // verus!
