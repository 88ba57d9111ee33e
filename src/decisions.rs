use vstd::prelude::*;
use crate::strategy::Strategy;
use crate::tetris::{Action, ActionResult, Tetris, TetrisView, repeated};

verus! {

/// `n` copies of `a`.
pub open spec fn repeat(a: Action, n: int) -> Seq<Action> {
    Seq::new(n as nat, |i: int| a)
}

/// Rotate `rotations` times, shift `shifts` times towards `dir`, then drop.
pub open spec fn candidate(rotations: int, dir: Action, shifts: int) -> Seq<Action> {
    repeat(Action::Rotate, rotations) + repeat(dir, shifts) + seq![Action::Drop]
}

/// The board after `actions`, where `fresh[i]` is drawn for the `i`-th of them.
pub open spec fn run(v: TetrisView, actions: Seq<Action>, fresh: Seq<int>) -> TetrisView
    decreases actions.len(),
{
    if actions.len() == 0 {
        v
    } else {
        run(v, actions.drop_last(), fresh.drop_last()).step(actions.last(), fresh.last()).0
    }
}

/// The first `n` shifts towards `dir` from `w` are all accepted.
pub open spec fn shifts_ok(w: TetrisView, dir: Action, n: int) -> bool
    decreases n,
{
    n <= 0 || (shifts_ok(w, dir, n - 1) && !(repeated(w, dir, n - 1).step(dir, 0).1 is Invalid))
}

/// A candidate that the search tries: every rotation count, no shift, and each
/// run of shifts in either direction up to the first one refused.
pub open spec fn valid(v: TetrisView, rotations: int, dir: Action, shifts: int) -> bool {
    &&& 0 <= rotations < 4
    &&& 0 <= shifts <= 10
    &&& (dir == Action::Right || dir == Action::Left)
    &&& (shifts == 0 ==> dir == Action::Right)
    &&& shifts_ok(repeated(v, Action::Rotate, rotations), dir, shifts)
}

/// The place of a candidate in the search's order.
pub open spec fn order(rotations: int, dir: Action, shifts: int) -> int {
    rotations * 21 + if shifts == 0 {
        0int
    } else if dir == Action::Right {
        shifts
    } else {
        10 + shifts
    }
}

/// The board that a candidate leads to, as the search simulates it.
pub open spec fn outcome(v: TetrisView, rotations: int, dir: Action, shifts: int) -> TetrisView {
    repeated(repeated(v, Action::Rotate, rotations), dir, shifts).step(Action::Drop, 0).0
}

pub open spec fn cand_score<S: Strategy>(s: &S, v: TetrisView, rotations: int, dir: Action, shifts: int) -> int {
    s.spec_score(outcome(v, rotations, dir, shifts).seen())
}

/// `(actions, score)` is the best among the candidates placed before `bound`:
/// the first one whose score is the highest and above zero, or a plain drop
/// with score zero when no candidate scores above zero.
pub open spec fn best_before<S: Strategy>(
    s: &S,
    v: TetrisView,
    actions: Seq<Action>,
    score: int,
    bound: int,
) -> bool {
    &&& forall|r: int, d: Action, k: int|
        #![trigger valid(v, r, d, k)]
        valid(v, r, d, k) && order(r, d, k) < bound ==> cand_score(s, v, r, d, k) <= score
    &&& {
        ||| (actions == seq![Action::Drop] && score == 0)
        ||| exists|r: int, d: Action, k: int|
            #![trigger valid(v, r, d, k)]
            valid(v, r, d, k) && order(r, d, k) < bound && actions == candidate(r, d, k) && score
                == cand_score(s, v, r, d, k) && score > 0 && forall|r2: int, d2: Action, k2: int|
                #![trigger valid(v, r2, d2, k2)]
                valid(v, r2, d2, k2) && order(r2, d2, k2) < order(r, d, k) ==> cand_score(
                    s,
                    v,
                    r2,
                    d2,
                    k2,
                ) < score
    }
}

/// `(actions, score)` is the search's answer for board `v` and strategy `s`.
pub open spec fn is_best<S: Strategy>(s: &S, v: TetrisView, actions: Seq<Action>, score: int) -> bool {
    best_before(s, v, actions, score, 84)
}

/// The place in the search's order of the first candidate that shifts towards `dir`.
pub open spec fn shift_base(rotations: int, dir: Action) -> int {
    rotations * 21 + if dir == Action::Right {
        0int
    } else {
        10int
    }
}

proof fn lemma_shifts_ok_prefix(w: TetrisView, dir: Action, j: int, k: int)
    requires
        j <= k,
        shifts_ok(w, dir, k),
    ensures
        shifts_ok(w, dir, j),
    decreases k - j,
{
    if j < k {
        lemma_shifts_ok_prefix(w, dir, j, k - 1);
    }
}

/// Two valid candidates with the same place in the order are the same candidate.
proof fn lemma_order_unique(v: TetrisView, r: int, d: Action, k: int, r2: int, d2: Action, k2: int)
    requires
        valid(v, r, d, k),
        valid(v, r2, d2, k2),
        order(r, d, k) == order(r2, d2, k2),
    ensures
        r == r2 && d == d2 && k == k2,
{
}

/// Taking the candidate at place `bound` into account.
proof fn lemma_advance<S: Strategy>(
    s: &S,
    v: TetrisView,
    actions: Seq<Action>,
    score: int,
    bound: int,
    r: int,
    d: Action,
    k: int,
)
    requires
        best_before(s, v, actions, score, bound),
        valid(v, r, d, k),
        order(r, d, k) == bound,
    ensures
        cand_score(s, v, r, d, k) > score ==> best_before(
            s,
            v,
            candidate(r, d, k),
            cand_score(s, v, r, d, k),
            bound + 1,
        ),
        cand_score(s, v, r, d, k) <= score ==> best_before(s, v, actions, score, bound + 1),
{
    let c = cand_score(s, v, r, d, k);
    assert forall|r2: int, d2: Action, k2: int|
        valid(v, r2, d2, k2) && order(r2, d2, k2) == bound implies cand_score(s, v, r2, d2, k2)
        == c by {
        lemma_order_unique(v, r, d, k, r2, d2, k2);
    }
    if c > score {
        assert(score >= 0);
        assert(valid(v, r, d, k) && order(r, d, k) < bound + 1 && candidate(r, d, k) == candidate(
            r,
            d,
            k,
        ) && c == cand_score(s, v, r, d, k) && c > 0);
    } else {
        if !(actions == seq![Action::Drop] && score == 0) {
            let (r1, d1, k1) = choose|r1: int, d1: Action, k1: int|
                #![trigger valid(v, r1, d1, k1)]
                valid(v, r1, d1, k1) && order(r1, d1, k1) < bound && actions == candidate(r1, d1, k1)
                    && score == cand_score(s, v, r1, d1, k1) && score > 0 && forall|
                    r2: int,
                    d2: Action,
                    k2: int,
                |
                    #![trigger valid(v, r2, d2, k2)]
                    valid(v, r2, d2, k2) && order(r2, d2, k2) < order(r1, d1, k1) ==> cand_score(
                        s,
                        v,
                        r2,
                        d2,
                        k2,
                    ) < score;
            assert(valid(v, r1, d1, k1) && order(r1, d1, k1) < bound + 1);
        }
    }
}

/// The candidates placed in `[bound, next)` are not valid.
proof fn lemma_skip<S: Strategy>(
    s: &S,
    v: TetrisView,
    actions: Seq<Action>,
    score: int,
    bound: int,
    next: int,
)
    requires
        best_before(s, v, actions, score, bound),
        bound <= next,
        forall|r: int, d: Action, k: int|
            #![trigger valid(v, r, d, k)]
            valid(v, r, d, k) && bound <= order(r, d, k) < next ==> false,
    ensures
        best_before(s, v, actions, score, next),
{
    if !(actions == seq![Action::Drop] && score == 0) {
        let (r1, d1, k1) = choose|r1: int, d1: Action, k1: int|
            #![trigger valid(v, r1, d1, k1)]
            valid(v, r1, d1, k1) && order(r1, d1, k1) < bound && actions == candidate(r1, d1, k1)
                && score == cand_score(s, v, r1, d1, k1) && score > 0 && forall|
                r2: int,
                d2: Action,
                k2: int,
            |
                #![trigger valid(v, r2, d2, k2)]
                valid(v, r2, d2, k2) && order(r2, d2, k2) < order(r1, d1, k1) ==> cand_score(
                    s,
                    v,
                    r2,
                    d2,
                    k2,
                ) < score;
        assert(valid(v, r1, d1, k1) && order(r1, d1, k1) < next);
    }
}

/// The actions of a candidate.
fn candidate_actions(rotations: usize, dir: Action, shifts: usize) -> (r: Vec<Action>)
    ensures
        r@ == candidate(rotations as int, dir, shifts as int),
{
    let mut actions: Vec<Action> = Vec::new();
    let mut i: usize = 0;
    while i < rotations
        invariant
            i <= rotations,
            actions@ == repeat(Action::Rotate, i as int),
        decreases rotations - i,
    {
        actions.push(Action::Rotate);
        i = i + 1;
        assert(actions@ =~= repeat(Action::Rotate, i as int));
    }
    let mut j: usize = 0;
    while j < shifts
        invariant
            j <= shifts,
            actions@ == repeat(Action::Rotate, rotations as int) + repeat(dir, j as int),
        decreases shifts - j,
    {
        actions.push(dir);
        j = j + 1;
        assert(actions@ =~= repeat(Action::Rotate, rotations as int) + repeat(dir, j as int));
    }
    actions.push(Action::Drop);
    assert(actions@ =~= candidate(rotations as int, dir, shifts as int));
    actions
}

/// Tries the candidates that shift towards `dir` after `rotations` rotations.
fn search_shifts<S: Strategy>(
    strategy: &S,
    tetris: &Tetris,
    rotated: &Tetris,
    rotations: usize,
    dir: Action,
    best: &mut Vec<Action>,
    best_score: &mut i64,
)
    requires
        tetris.wf(),
        rotated.wf(),
        rotations < 4,
        dir == Action::Right || dir == Action::Left,
        rotated@ == repeated(tetris@, Action::Rotate, rotations as int),
        best_before(
            strategy,
            tetris@,
            old(best)@,
            *old(best_score) as int,
            shift_base(rotations as int, dir) + 1,
        ),
    ensures
        best_before(
            strategy,
            tetris@,
            final(best)@,
            *final(best_score) as int,
            shift_base(rotations as int, dir) + 11,
        ),
{
    let ghost v = tetris@;
    let ghost base = shift_base(rotations as int, dir);
    let mut w = rotated.duplicate();
    let mut shifts: usize = 0;
    while shifts < 10
        invariant
            shifts <= 10,
            v == tetris@,
            base == shift_base(rotations as int, dir),
            rotations < 4,
            dir == Action::Right || dir == Action::Left,
            rotated@ == repeated(v, Action::Rotate, rotations as int),
            w.wf(),
            w@ == repeated(rotated@, dir, shifts as int),
            shifts_ok(rotated@, dir, shifts as int),
            best_before(strategy, v, best@, *best_score as int, base + 1 + shifts),
        decreases 10 - shifts,
    {
        let res = w.apply(&dir, 0);
        match res {
            ActionResult::Invalid => {
                proof {
                    assert forall|r: int, d: Action, k: int|
                        #![trigger valid(v, r, d, k)]
                        valid(v, r, d, k) && base + 1 + shifts <= order(r, d, k) < base + 11
                            implies false by {
                        assert(r == rotations && d == dir && k > shifts);
                        lemma_shifts_ok_prefix(rotated@, dir, shifts + 1, k);
                    }
                    lemma_skip(strategy, v, best@, *best_score as int, base + 1 + shifts, base + 11);
                }
                return ;
            },
            _ => {},
        }
        shifts = shifts + 1;
        let mut dropped = w.duplicate();
        dropped.apply(&Action::Drop, 0);
        let score = strategy.score(&dropped);
        proof {
            assert(valid(v, rotations as int, dir, shifts as int));
            lemma_advance(
                strategy,
                v,
                best@,
                *best_score as int,
                base + shifts,
                rotations as int,
                dir,
                shifts as int,
            );
        }
        if score > *best_score {
            *best = candidate_actions(rotations, dir, shifts);
            *best_score = score;
        }
    }
}

/// Tries every candidate on copies of the board and returns the actions of the
/// first one with the highest score above zero, with that score; a plain drop
/// with score zero where no candidate scores above zero. The board is left as it is.
pub fn best_actions<S: Strategy>(strategy: &S, tetris: &Tetris) -> (r: (Vec<Action>, i64))
    requires
        tetris.wf(),
    ensures
        is_best(strategy, tetris@, r.0@, r.1 as int),
{
    let ghost v = tetris@;
    let mut best: Vec<Action> = vec![Action::Drop];
    let mut best_score: i64 = 0;
    assert(best@ =~= seq![Action::Drop]);
    let mut rotated = tetris.duplicate();
    let mut rotations: usize = 0;
    while rotations < 4
        invariant
            rotations <= 4,
            v == tetris@,
            tetris.wf(),
            rotated.wf(),
            rotated@ == repeated(v, Action::Rotate, rotations as int),
            best_before(strategy, v, best@, best_score as int, rotations * 21),
        decreases 4 - rotations,
    {
        let mut dropped = rotated.duplicate();
        dropped.apply(&Action::Drop, 0);
        let score = strategy.score(&dropped);
        proof {
            assert(valid(v, rotations as int, Action::Right, 0));
            lemma_advance(
                strategy,
                v,
                best@,
                best_score as int,
                rotations * 21,
                rotations as int,
                Action::Right,
                0,
            );
        }
        if score > best_score {
            best = candidate_actions(rotations, Action::Right, 0);
            best_score = score;
        }
        search_shifts(strategy, tetris, &rotated, rotations, Action::Right, &mut best, &mut best_score);
        search_shifts(strategy, tetris, &rotated, rotations, Action::Left, &mut best, &mut best_score);
        rotated.apply(&Action::Rotate, 0);
        rotations = rotations + 1;
    }
    (best, best_score)
}

/// Rotations and shifts draw no piece.
proof fn lemma_moves_draw_nothing(v: TetrisView, a: Action, f: int)
    requires
        a == Action::Rotate || a == Action::Left || a == Action::Right,
    ensures
        v.step(a, f) == v.step(a, 0),
{
}

/// Running rotations then shifts is the repeated application of each.
proof fn lemma_run_moves(v: TetrisView, r: int, d: Action, k: int, fresh: Seq<int>)
    requires
        0 <= r,
        0 <= k,
        d == Action::Left || d == Action::Right,
        fresh.len() == r + k,
    ensures
        run(v, repeat(Action::Rotate, r) + repeat(d, k), fresh) == repeated(
            repeated(v, Action::Rotate, r),
            d,
            k,
        ),
    decreases r + k,
{
    let acts = repeat(Action::Rotate, r) + repeat(d, k);
    if k > 0 {
        assert(acts.drop_last() =~= repeat(Action::Rotate, r) + repeat(d, k - 1));
        lemma_run_moves(v, r, d, k - 1, fresh.drop_last());
        lemma_moves_draw_nothing(
            run(v, acts.drop_last(), fresh.drop_last()),
            d,
            fresh.last(),
        );
    } else if r > 0 {
        assert(acts.drop_last() =~= repeat(Action::Rotate, r - 1) + repeat(d, 0));
        lemma_run_moves(v, r - 1, d, 0, fresh.drop_last());
        lemma_moves_draw_nothing(
            run(v, acts.drop_last(), fresh.drop_last()),
            Action::Rotate,
            fresh.last(),
        );
    } else {
        assert(acts =~= Seq::<Action>::empty());
    }
}

/// What a hard drop leaves for the scorer does not depend on the piece drawn.
proof fn lemma_hard_drop_seen(w: TetrisView, f1: int, f2: int)
    ensures
        w.hard_drop(f1).0.seen() == w.hard_drop(f2).0.seen(),
        w.hard_drop(f1).1 == w.hard_drop(f2).1,
    decreases 20 - w.y_diff,
{
    let a = w.soft_drop(f1);
    if a.1 is Moved && w.y_diff < a.0.y_diff <= 20 {
        lemma_hard_drop_seen(a.0, f1, f2);
    }
}

/// Executing the search's answer on the board gives a board with the score that
/// the search reported, whatever pieces are drawn meanwhile, wherever some
/// candidate scored above zero.
pub proof fn lemma_best_actions_reproduce_score<S: Strategy>(
    s: &S,
    v: TetrisView,
    actions: Seq<Action>,
    score: int,
    fresh: Seq<int>,
)
    requires
        v.wf(),
        is_best(s, v, actions, score),
        score > 0,
        fresh.len() == actions.len(),
    ensures
        s.spec_score(run(v, actions, fresh).seen()) == score,
{
    let (r, d, k) = choose|r: int, d: Action, k: int|
        #![trigger valid(v, r, d, k)]
        valid(v, r, d, k) && order(r, d, k) < 84 && actions == candidate(r, d, k) && score
            == cand_score(s, v, r, d, k) && score > 0 && forall|r2: int, d2: Action, k2: int|
            #![trigger valid(v, r2, d2, k2)]
            valid(v, r2, d2, k2) && order(r2, d2, k2) < order(r, d, k) ==> cand_score(
                s,
                v,
                r2,
                d2,
                k2,
            ) < score;
    let moves = repeat(Action::Rotate, r) + repeat(d, k);
    assert(actions.drop_last() =~= moves);
    lemma_run_moves(v, r, d, k, fresh.drop_last());
    let w = repeated(repeated(v, Action::Rotate, r), d, k);
    lemma_hard_drop_seen(w, fresh.last(), 0);
}

/// Picks, for the falling piece, the actions that lead to the best board.
pub struct Decisions {}

impl Decisions {
    pub fn new() -> Decisions {
        Decisions {  }
    }

    /// The actions of the best candidate for `strategy`, as [`best_actions`] finds them.
    pub fn choose_actions<S: Strategy>(&self, tetris: &Tetris, strategy: &S) -> (r: Vec<Action>)
        requires
            tetris.wf(),
        ensures
            exists|score: int| is_best(strategy, tetris@, r@, score),
    {
        let (actions, score) = best_actions(strategy, tetris);
        actions
    }
}

} // verus!
