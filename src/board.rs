//! The mathematical model of a board: nine cells in row-major order, each
//! `0` (empty) or the mark of the player who took it.

use vstd::prelude::*;

verus! {

/// The value of an empty cell.
pub const EMPTY: u8 = 0;

/// The index of the cell in column `x` and row `y`.
pub open spec fn cell_of(x: int, y: int) -> int {
    3 * y + x
}

/// The cells of a grid of rows, in row-major order.
pub open spec fn cells(f: [[u8; 3]; 3]) -> Seq<u8> {
    Seq::new(9, |k: int| f[k / 3][k % 3])
}

/// The board with every cell empty.
pub open spec fn empty_board() -> Seq<u8> {
    Seq::new(9, |i: int| 0u8)
}

/// The number of marked cells among the first `n` cells of `b`.
pub open spec fn marks_in(b: Seq<u8>, n: int) -> nat
    decreases n,
{
    if n <= 0 {
        0
    } else {
        marks_in(b, n - 1) + if b[n - 1] != 0 { 1nat } else { 0nat }
    }
}

/// The number of marks on the board, which is also the number of moves made.
pub open spec fn marks(b: Seq<u8>) -> nat {
    marks_in(b, 9)
}

/// The player whose turn it is: 1 after an even number of moves, 2 after an odd one.
pub open spec fn to_move(b: Seq<u8>) -> u8 {
    (marks(b) % 2 + 1) as u8
}

/// The player who made the last move.
pub open spec fn moved_last(b: Seq<u8>) -> u8 {
    ((marks(b) + 1) % 2 + 1) as u8
}

/// Cells `i`, `j`, `k` hold the same mark.
pub open spec fn line(b: Seq<u8>, i: int, j: int, k: int) -> bool {
    b[i] != 0 && b[i] == b[j] && b[j] == b[k]
}

/// Cells `i`, `j`, `k` all hold the mark of player `p`.
pub open spec fn line_of(b: Seq<u8>, p: u8, i: int, j: int, k: int) -> bool {
    line(b, i, j, k) && b[i] == p
}

/// Row `r` is complete.
pub open spec fn row_line(b: Seq<u8>, r: int) -> bool {
    line(b, cell_of(0, r), cell_of(1, r), cell_of(2, r))
}

/// Column `c` is complete.
pub open spec fn column_line(b: Seq<u8>, c: int) -> bool {
    line(b, cell_of(c, 0), cell_of(c, 1), cell_of(c, 2))
}

/// The diagonal from the top left corner is complete.
pub open spec fn down_diagonal_line(b: Seq<u8>) -> bool {
    line(b, 0, 4, 8)
}

/// The diagonal from the top right corner is complete.
pub open spec fn up_diagonal_line(b: Seq<u8>) -> bool {
    line(b, 2, 4, 6)
}

/// Some row, column or diagonal holds three equal marks.
pub open spec fn has_line(b: Seq<u8>) -> bool {
    row_line(b, 0) || row_line(b, 1) || row_line(b, 2) || column_line(b, 0) || column_line(b, 1)
        || column_line(b, 2) || down_diagonal_line(b) || up_diagonal_line(b)
}

/// Some row, column or diagonal holds three marks of player `p`.
pub open spec fn has_line_of(b: Seq<u8>, p: u8) -> bool {
    line_of(b, p, 0, 1, 2) || line_of(b, p, 3, 4, 5) || line_of(b, p, 6, 7, 8) || line_of(
        b,
        p,
        0,
        3,
        6,
    ) || line_of(b, p, 1, 4, 7) || line_of(b, p, 2, 5, 8) || line_of(b, p, 0, 4, 8) || line_of(
        b,
        p,
        2,
        4,
        6,
    )
}

/// The board after player `p` marks cell `k`.
pub open spec fn put(b: Seq<u8>, k: int, p: u8) -> Seq<u8> {
    b.update(k, p)
}

/// Counting the marks of a prefix after a cell changes from empty to marked.
pub proof fn lemma_marks_in_put(b: Seq<u8>, k: int, v: u8, n: int)
    requires
        0 <= k < b.len(),
        n <= b.len(),
        b[k] == 0,
        v != 0,
    ensures
        marks_in(put(b, k, v), n) == marks_in(b, n) + if 0 <= k < n { 1nat } else { 0nat },
    decreases n,
{
    if n > 0 {
        lemma_marks_in_put(b, k, v, n - 1);
    }
}

/// Marking an empty cell adds one to the number of marks.
pub proof fn lemma_marks_put(b: Seq<u8>, k: int, v: u8)
    requires
        b.len() == 9,
        0 <= k < 9,
        b[k] == 0,
        v != 0,
    ensures
        marks(put(b, k, v)) == marks(b) + 1,
{
    lemma_marks_in_put(b, k, v, 9);
}

/// A prefix of `n` cells holds at most `n` marks, and exactly `n` only when
/// none of them is empty.
pub proof fn lemma_marks_in_bound(b: Seq<u8>, n: int)
    requires
        0 <= n <= b.len(),
    ensures
        marks_in(b, n) <= n,
        marks_in(b, n) == n <==> forall|i: int| 0 <= i < n ==> b[i] != 0,
        marks_in(b, n) == 0 <==> forall|i: int| 0 <= i < n ==> b[i] == 0,
    decreases n,
{
    if n > 0 {
        lemma_marks_in_bound(b, n - 1);
        if marks_in(b, n) == n {
            assert forall|i: int| 0 <= i < n implies b[i] != 0 by {
                if i < n - 1 {
                }
            }
        }
        if marks_in(b, n) == 0 {
            assert forall|i: int| 0 <= i < n implies b[i] == 0 by {
                if i < n - 1 {
                }
            }
        }
    }
}

/// A board holds at most nine marks; it has an empty cell exactly when it
/// holds fewer, and it is empty exactly when it holds none.
pub proof fn lemma_marks_bound(b: Seq<u8>)
    requires
        b.len() == 9,
    ensures
        marks(b) <= 9,
        marks(b) < 9 <==> exists|i: int| 0 <= i < 9 && b[i] == 0,
        marks(b) == 0 <==> forall|i: int| 0 <= i < 9 ==> b[i] == 0,
{
    lemma_marks_in_bound(b, 9);
}

} // verus!
