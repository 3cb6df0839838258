//! What the look-ahead search computes, stated over the board model.
//!
//! A move is valued for a fixed root player: `1` when it leads to a forced
//! win for that player within the depth searched, `-1` to a forced loss, and
//! `0` when neither is forced.

use vstd::prelude::*;
use crate::board::{lemma_marks_bound, marks, put, to_move};
use crate::game::{EndStatus, GameStatus, status_of};

verus! {

/// The status in which player `p` has won.
pub open spec fn win_for(p: u8) -> GameStatus {
    if p == 1 {
        GameStatus::End(EndStatus::FirstWin)
    } else {
        GameStatus::End(EndStatus::SecondWin)
    }
}

/// The status in which player `p` has lost.
pub open spec fn lose_for(p: u8) -> GameStatus {
    if p == 1 {
        GameStatus::End(EndStatus::SecondWin)
    } else {
        GameStatus::End(EndStatus::FirstWin)
    }
}

/// The value of status `s` for player `root`.
pub open spec fn score(s: GameStatus, root: u8) -> int {
    if s == win_for(root) {
        1
    } else if s == lose_for(root) {
        -1
    } else {
        0
    }
}

/// The value for `root` of the player to move marking cell `k` of `b`,
/// looking `depth` further moves ahead. The search stops where the game ends
/// or the depth runs out, and values the status reached.
pub open spec fn move_value(b: Seq<u8>, k: int, depth: nat, root: u8) -> int
    decreases depth, 0int,
{
    let next = put(b, k, to_move(b));
    let s = status_of(next);
    if s != GameStatus::Active || depth == 0 {
        score(s, root)
    } else {
        reply_value(next, (depth - 1) as nat, root, 9)
    }
}

/// The value for `root` of position `b` when the player to move picks the
/// best for them among the empty cells below `n`: `root` takes the largest
/// value, the opponent the smallest.
pub open spec fn reply_value(b: Seq<u8>, depth: nat, root: u8, n: int) -> int
    decreases depth, n + 1,
{
    if n <= 0 {
        if to_move(b) == root {
            -1
        } else {
            1
        }
    } else {
        let acc = reply_value(b, depth, root, n - 1);
        if b[n - 1] == 0 {
            let v = move_value(b, n - 1, depth, root);
            if to_move(b) == root {
                if v > acc {
                    v
                } else {
                    acc
                }
            } else {
                if v < acc {
                    v
                } else {
                    acc
                }
            }
        } else {
            acc
        }
    }
}

/// The cells below `n` that satisfy `pred`, in increasing order.
pub open spec fn cells_where(n: int, pred: spec_fn(int) -> bool) -> Seq<int>
    decreases n,
{
    if n <= 0 {
        Seq::empty()
    } else if pred(n - 1) {
        cells_where(n - 1, pred).push(n - 1)
    } else {
        cells_where(n - 1, pred)
    }
}

/// The empty cells of `b`, in row-major order.
pub open spec fn free_cells(b: Seq<u8>) -> Seq<int> {
    cells_where(9, |k: int| b[k] == 0)
}

/// The empty cells of `b` whose move has value `v` for the player to move.
pub open spec fn cells_valued(b: Seq<u8>, depth: nat, v: int) -> Seq<int> {
    cells_where(9, |k: int| b[k] == 0 && move_value(b, k, depth, to_move(b)) == v)
}

/// The moves the engine chooses among, searching `depth` moves ahead: the
/// centre on an empty board when it searches at all; otherwise the winning
/// moves if there are any, else those that do not lose, else every move.
pub open spec fn best_cells(b: Seq<u8>, depth: nat) -> Seq<int> {
    if marks(b) == 0 && depth != 0 {
        seq![4int]
    } else if cells_valued(b, depth, 1).len() > 0 {
        cells_valued(b, depth, 1)
    } else if cells_valued(b, depth, 0).len() > 0 {
        cells_valued(b, depth, 0)
    } else {
        free_cells(b)
    }
}

/// `cells_where` lists a cell exactly when it lies below `n` and satisfies
/// the predicate.
pub proof fn lemma_cells_where(n: int, pred: spec_fn(int) -> bool)
    ensures
        forall|k: int| cells_where(n, pred).contains(k) <==> (0 <= k < n && pred(k)),
    decreases n,
{
    if n > 0 {
        lemma_cells_where(n - 1, pred);
        let s = cells_where(n - 1, pred);
        let t = s.push(n - 1);
        if pred(n - 1) {
            assert forall|k: int| cells_where(n, pred).contains(k) <==> (0 <= k < n && pred(k)) by {
                if k == n - 1 {
                    assert(t[s.len() as int] == k);
                }
                if t.contains(k) && k != n - 1 {
                    let i = choose|i: int| 0 <= i < t.len() && t[i] == k;
                    assert(s[i] == k);
                }
                if s.contains(k) {
                    let i = choose|i: int| 0 <= i < s.len() && s[i] == k;
                    assert(t[i] == k);
                }
            }
        }
    }
}

/// A board with an empty cell leaves the engine some move to choose.
pub proof fn lemma_best_cells_nonempty(b: Seq<u8>, depth: nat)
    requires
        b.len() == 9,
        marks(b) < 9,
    ensures
        best_cells(b, depth).len() > 0,
{
    lemma_marks_bound(b);
    let k = choose|k: int| 0 <= k < 9 && b[k] == 0;
    lemma_cells_where(9, |k: int| b[k] == 0);
    assert(free_cells(b).contains(k));
}

/// Every move the engine chooses among is to an empty cell of the board.
pub proof fn lemma_best_cells_free(b: Seq<u8>, depth: nat)
    requires
        b.len() == 9,
    ensures
        forall|k: int| #[trigger] best_cells(b, depth).contains(k) ==> 0 <= k < 9 && b[k] == 0,
{
    lemma_marks_bound(b);
    lemma_cells_where(9, |k: int| b[k] == 0);
    lemma_cells_where(9, |k: int| b[k] == 0 && move_value(b, k, depth, to_move(b)) == 1);
    lemma_cells_where(9, |k: int| b[k] == 0 && move_value(b, k, depth, to_move(b)) == 0);
    assert forall|k: int| #[trigger] best_cells(b, depth).contains(k) implies 0 <= k < 9 && b[k]
        == 0 by {
        if marks(b) == 0 && depth != 0 {
            assert(seq![4int][0] == 4);
        }
    }
}

} // verus!
