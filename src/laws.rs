//! Properties of whole games, proved over the board model.

use vstd::prelude::*;
use crate::board::{
    cell_of, empty_board, has_line, has_line_of, lemma_marks_bound, lemma_marks_put, marks,
    moved_last, put, to_move,
};
use crate::game::{EndStatus, GameStatus, status_of};
use crate::search::{best_cells, cells_valued, cells_where, move_value, win_for};

verus! {

/// The board reached by playing the cells of `moves` in turn from an empty
/// board, or `None` if one of them is not a legal move: off the board, to a
/// marked cell, or made after the game ended.
pub open spec fn play_out(moves: Seq<int>) -> Option<Seq<u8>>
    decreases moves.len(),
{
    if moves.len() == 0 {
        Some(empty_board())
    } else {
        match play_out(moves.drop_last()) {
            Some(b) => {
                let k = moves.last();
                if 0 <= k < 9 && b[k] == 0 && status_of(b) == GameStatus::Active {
                    Some(put(b, k, to_move(b)))
                } else {
                    None
                }
            },
            None => None,
        }
    }
}

/// On every board reached by legal play the status is exactly one of the
/// four: the game goes on while there is no complete line and an empty cell,
/// is drawn with no line and no empty cell, and is won when a line is
/// complete; and a win is credited only to a player who owns a complete line.
pub proof fn lemma_reachable_status(moves: Seq<int>)
    requires
        play_out(moves) is Some,
    ensures
        ({
            let b = play_out(moves).unwrap();
            &&& b.len() == 9
            &&& (status_of(b) == GameStatus::Active <==> !has_line(b) && marks(b) < 9)
            &&& (status_of(b) == GameStatus::End(EndStatus::Draw) <==> !has_line(b) && marks(b)
                == 9)
            &&& (status_of(b) == GameStatus::End(EndStatus::FirstWin) ==> has_line_of(b, 1))
            &&& (status_of(b) == GameStatus::End(EndStatus::SecondWin) ==> has_line_of(b, 2))
        }),
    decreases moves.len(),
{
    let b = play_out(moves).unwrap();
    if moves.len() == 0 {
        lemma_marks_bound(b);
    } else {
        lemma_reachable_status(moves.drop_last());
        let prev = play_out(moves.drop_last()).unwrap();
        let k = moves.last();
        lemma_marks_bound(prev);
        lemma_marks_put(prev, k, to_move(prev));
        lemma_marks_bound(b);
        assert(moved_last(b) == to_move(prev));
    }
}

/// Marking an empty cell for the player to move adds one mark and passes
/// the turn to the other player.
pub proof fn lemma_turns_alternate(b: Seq<u8>, k: int)
    requires
        b.len() == 9,
        0 <= k < 9,
        b[k] == 0,
    ensures
        marks(put(b, k, to_move(b))) == marks(b) + 1,
        to_move(put(b, k, to_move(b))) != to_move(b),
        to_move(b) == 1 || to_move(b) == 2,
{
    lemma_marks_put(b, k, to_move(b));
}

/// `cells_where` on a predicate that holds of cell `k` alone lists `k` once
/// the bound passes it.
proof fn lemma_cells_where_single(n: int, pred: spec_fn(int) -> bool, k: int)
    requires
        0 <= k,
        forall|j: int| 0 <= j < n ==> (#[trigger] pred(j) <==> j == k),
    ensures
        cells_where(n, pred) == if n > k {
            seq![k]
        } else {
            Seq::<int>::empty()
        },
    decreases n,
{
    if n > 0 {
        lemma_cells_where_single(n - 1, pred, k);
        if n - 1 == k {
            assert(Seq::<int>::empty().push(k) =~= seq![k]);
        }
    }
}

/// When exactly one move wins at once for the player to move, and no other
/// move is valued a forced win at the search depth (which at depth 0 follows
/// from the first), that move is the only one the engine chooses among.
pub proof fn lemma_single_winning_move(b: Seq<u8>, k: int, depth: nat)
    requires
        b.len() == 9,
        0 <= k < 9,
        b[k] == 0,
        status_of(put(b, k, to_move(b))) == win_for(to_move(b)),
        forall|j: int|
            0 <= j < 9 && j != k && b[j] == 0 ==> status_of(put(b, j, to_move(b))) != win_for(
                to_move(b),
            ),
        depth == 0 || forall|j: int|
            0 <= j < 9 && j != k && b[j] == 0 ==> move_value(b, j, depth, to_move(b)) != 1,
    ensures
        best_cells(b, depth) == seq![k],
{
    let p = to_move(b);
    lemma_marks_bound(b);
    if marks(b) == 0 {
        let next = put(b, k, p);
        assert(!has_line(next));
    }
    let pred = |j: int| b[j] == 0 && move_value(b, j, depth, p) == 1;
    assert forall|j: int| 0 <= j < 9 implies (#[trigger] pred(j) <==> j == k) by {
        if j != k && b[j] == 0 && depth == 0 {
            assert(status_of(put(b, j, p)) != win_for(p));
        }
    }
    lemma_cells_where_single(9, pred, k);
    assert(cells_valued(b, depth, 1) == cells_where(9, pred));
}

/// On an empty board an engine that searches at all takes the centre.
pub proof fn lemma_opening_move(b: Seq<u8>, depth: nat)
    requires
        b.len() == 9,
        forall|i: int| 0 <= i < 9 ==> b[i] == 0,
        depth > 0,
    ensures
        best_cells(b, depth) == seq![cell_of(1, 1)],
{
    lemma_marks_bound(b);
}

} // verus!
