//! The move selector: filter candidate replies by the configured thresholds,
//! sort them by the configured key, truncate to the retained-variant count,
//! and draw one by the configured weighting mode.

use vstd::prelude::*;
use crate::castle::fix_castle;
use crate::castle::fix_castle_spec;
use crate::config::Config;
use crate::config::SortBy;
use crate::config::WeightBy;
use crate::stats::MoveStats;
use crate::stats::PositionInfo;
use crate::stats::Turn;
use crate::stats::lemma_score_pct_bounds;
use crate::stats::move_bounded;
use crate::stats::mv_total;
use crate::stats::pos_bounded;
use crate::stats::pos_total;
use crate::stats::score_pct;
use crate::stats::COUNT_CAP;

verus! {

/// A candidate reply is retained iff its total games reach the minimum
/// sample size, its share of the position's games reaches the minimum
/// coverage percent, it has at least one game, and its side-adjusted score
/// percent reaches the minimum win percent.
pub open spec fn passes(p: PositionInfo, c: Config, turn: Turn, i: int) -> bool {
    let m = p.moves[i];
    &&& mv_total(m) >= c.games_min
    &&& mv_total(m) * 100 / pos_total(p) >= c.games_pct_min
    &&& mv_total(m) > 0
    &&& score_pct(m, turn) >= c.score_pct_min
}

/// Number of candidates among the first `n` that pass the filter.
pub open spec fn passing_count(p: PositionInfo, c: Config, turn: Turn, n: int) -> int
    decreases n,
{
    if n <= 0 {
        0
    } else {
        passing_count(p, c, turn, n - 1) + if passes(p, c, turn, n - 1) {
            1int
        } else {
            0int
        }
    }
}

/// Sort key of candidate `i` under the configured sort key; larger is better.
pub open spec fn sort_key(p: PositionInfo, c: Config, turn: Turn, i: int) -> int {
    match c.sortby {
        SortBy::Games => mv_total(p.moves[i]),
        SortBy::Score => score_pct(p.moves[i], turn),
    }
}

/// Strict order in which the sorted candidate list places `i` before `j`:
/// strictly larger key first, ties in original relative order.
pub open spec fn precedes(p: PositionInfo, c: Config, turn: Turn, i: int, j: int) -> bool {
    ||| sort_key(p, c, turn, i) > sort_key(p, c, turn, j)
    ||| (sort_key(p, c, turn, i) == sort_key(p, c, turn, j) && i < j)
}

/// `s` is exactly the retained candidate list: passing indices only, in the
/// stable descending sort order, cut to the retained-variant count, and
/// every passing candidate left out is preceded by everything retained.
pub open spec fn retained_ok(p: PositionInfo, c: Config, turn: Turn, s: Seq<usize>) -> bool {
    &&& forall|k: int|
        0 <= k < s.len() ==> (#[trigger] s[k]) < p.moves.len() && passes(p, c, turn, s[k] as int)
    &&& forall|a: int, b: int|
        0 <= a < b < s.len() ==> precedes(p, c, turn, s[a] as int, s[b] as int)
    &&& s.len() == vstd::math::min(c.variants as int, passing_count(p, c, turn, p.moves.len() as int))
    &&& forall|j: int, k: int|
        #![trigger s.contains(j as usize), s[k]]
        0 <= j < p.moves.len() && passes(p, c, turn, j) && !s.contains(j as usize) && 0 <= k
            < s.len() ==> precedes(p, c, turn, s[k] as int, j)
}

/// The retained list never holds more than the retained-variant count, nor
/// more than the number of candidates that pass all three thresholds.
pub proof fn lemma_retained_len(p: PositionInfo, c: Config, turn: Turn, s: Seq<usize>)
    requires
        retained_ok(p, c, turn, s),
    ensures
        s.len() <= c.variants,
        s.len() <= passing_count(p, c, turn, p.moves.len() as int),
{
}

fn filter_moves(p: &PositionInfo, c: &Config, turn: Turn) -> (v: Vec<usize>)
    requires
        pos_total(*p) > 0,
        pos_bounded(*p),
    ensures
        v@.len() == passing_count(*p, *c, turn, p.moves.len() as int),
        forall|k: int|
            0 <= k < v@.len() ==> (#[trigger] v@[k]) < p.moves.len() && passes(
                *p,
                *c,
                turn,
                v@[k] as int,
            ),
        forall|a: int, b: int| 0 <= a < b < v@.len() ==> v@[a] < v@[b],
        forall|j: int| 0 <= j < p.moves.len() && passes(*p, *c, turn, j) ==> v@.contains(j as usize),
{
    let ptotal = p.total();
    let mut v: Vec<usize> = Vec::new();
    let n = p.moves.len();
    let mut i: usize = 0;
    while i < n
        invariant
            0 <= i <= n,
            n == p.moves.len(),
            pos_total(*p) > 0,
            pos_bounded(*p),
            ptotal == pos_total(*p),
            v@.len() == passing_count(*p, *c, turn, i as int),
            forall|k: int|
                0 <= k < v@.len() ==> (#[trigger] v@[k]) < i && passes(*p, *c, turn, v@[k] as int),
            forall|a: int, b: int| 0 <= a < b < v@.len() ==> v@[a] < v@[b],
            forall|j: int| 0 <= j < i && passes(*p, *c, turn, j) ==> v@.contains(j as usize),
        decreases n - i,
    {
        let m = &p.moves[i];
        let t = m.total();
        let keep = if !(t >= c.games_min) {
            false
        } else if !(t * 100 / ptotal >= c.games_pct_min) {
            false
        } else if !(t > 0) {
            false
        } else {
            m.score(turn) >= c.score_pct_min
        };
        assert(keep == passes(*p, *c, turn, i as int));
        let ghost vold = v@;
        if keep {
            v.push(i);
        }
        proof {
            assert forall|j: int| 0 <= j < i + 1 && passes(*p, *c, turn, j) implies v@.contains(
                j as usize,
            ) by {
                if j == i {
                    assert(v@[v@.len() - 1] == j as usize);
                } else {
                    assert(vold.contains(j as usize));
                    let idx = choose|idx: int| 0 <= idx < vold.len() && vold[idx] == j as usize;
                    assert(v@[idx] == j as usize);
                }
            }
        }
        i = i + 1;
    }
    v
}

fn precedes_exec(p: &PositionInfo, c: &Config, turn: Turn, i: usize, j: usize) -> (r: bool)
    requires
        i < p.moves.len(),
        j < p.moves.len(),
        pos_bounded(*p),
        mv_total(p.moves[i as int]) > 0,
        mv_total(p.moves[j as int]) > 0,
    ensures
        r == precedes(*p, *c, turn, i as int, j as int),
{
    let mi = &p.moves[i];
    let mj = &p.moves[j];
    let (ki, kj) = match c.sortby {
        SortBy::Games => (mi.total(), mj.total()),
        SortBy::Score => (mi.score(turn), mj.score(turn)),
    };
    ki > kj || (ki == kj && i < j)
}

fn sort_moves(p: &PositionInfo, c: &Config, turn: Turn, v: &mut Vec<usize>)
    requires
        pos_bounded(*p),
        forall|k: int|
            0 <= k < old(v)@.len() ==> (#[trigger] old(v)@[k]) < p.moves.len() && passes(
                *p,
                *c,
                turn,
                old(v)@[k] as int,
            ),
        forall|a: int, b: int| 0 <= a < b < old(v)@.len() ==> old(v)@[a] != old(v)@[b],
    ensures
        final(v)@.to_multiset() == old(v)@.to_multiset(),
        final(v)@.len() == old(v)@.len(),
        forall|k: int|
            0 <= k < final(v)@.len() ==> (#[trigger] final(v)@[k]) < p.moves.len() && passes(
                *p,
                *c,
                turn,
                final(v)@[k] as int,
            ),
        forall|a: int, b: int|
            0 <= a < b < final(v)@.len() ==> precedes(
                *p,
                *c,
                turn,
                final(v)@[a] as int,
                final(v)@[b] as int,
            ),
        forall|a: int, b: int| 0 <= a < b < final(v)@.len() ==> final(v)@[a] != final(v)@[b],
{
    broadcast use vstd::seq_lib::to_multiset_update;
    broadcast use vstd::seq_lib::group_to_multiset_ensures;

    let ghost vin = old(v)@;
    let n = v.len();
    let mut i: usize = 1;
    while i < n
        invariant
            1 <= i,
            n > 0 ==> i <= n,
            n == v@.len(),
            pos_bounded(*p),
            v@.to_multiset() == vin.to_multiset(),
            forall|k: int|
                0 <= k < v@.len() ==> (#[trigger] v@[k]) < p.moves.len() && passes(
                    *p,
                    *c,
                    turn,
                    v@[k] as int,
                ),
            forall|a: int, b: int| 0 <= a < b < v@.len() ==> v@[a] != v@[b],
            forall|a: int, b: int|
                0 <= a < b < i && b < v@.len() ==> precedes(*p, *c, turn, v@[a] as int, v@[b] as int),
        decreases n - i,
    {
        let mut j: usize = i;
        while j > 0 && precedes_exec(p, c, turn, v[j], v[j - 1])
            invariant
                0 <= j <= i < n,
                n == v@.len(),
                pos_bounded(*p),
                v@.to_multiset() == vin.to_multiset(),
                forall|k: int|
                    0 <= k < v@.len() ==> (#[trigger] v@[k]) < p.moves.len() && passes(
                        *p,
                        *c,
                        turn,
                        v@[k] as int,
                    ),
                forall|a: int, b: int| 0 <= a < b < v@.len() ==> v@[a] != v@[b],
                forall|a: int, b: int|
                    0 <= a < b <= i && b != j ==> precedes(*p, *c, turn, v@[a] as int, v@[b] as int),
                forall|a: int|
                    j < a <= i ==> precedes(*p, *c, turn, v@[j as int] as int, v@[a] as int),
            decreases j,
        {
            let x = v[j - 1];
            let y = v[j];
            let ghost vpre = v@;
            v.set(j - 1, y);
            v.set(j, x);
            proof {
                broadcast use vstd::multiset::group_multiset_axioms;
                broadcast use vstd::multiset::group_multiset_properties;

                let s1 = vpre.update(j - 1, y);
                vstd::seq_lib::to_multiset_update(vpre, j - 1, y);
                vstd::seq_lib::to_multiset_update(s1, j as int, x);
                assert(s1.to_multiset() == vpre.to_multiset().insert(y).remove(x));
                assert(s1[j as int] == y);
                assert(v@ =~= s1.update(j as int, x));
                assert(v@.to_multiset() == s1.to_multiset().insert(x).remove(y));
                assert(vpre.contains(x)) by {
                    assert(vpre[j - 1] == x);
                }
                vstd::seq_lib::to_multiset_contains(vpre, x);
                assert(vpre.to_multiset().count(x) > 0);
                assert(v@.to_multiset() =~= vpre.to_multiset());
            }
            j = j - 1;
        }
        proof {
            if j > 0 {
                assert(!precedes(*p, *c, turn, v@[j as int] as int, v@[j - 1] as int));
                assert(v@[j - 1] != v@[j as int]);
                assert(precedes(*p, *c, turn, v@[j - 1] as int, v@[j as int] as int));
            }
            assert forall|a: int, b: int| 0 <= a < b <= i implies precedes(
                *p,
                *c,
                turn,
                v@[a] as int,
                v@[b] as int,
            ) by {
                if b == j {
                    assert(j > 0);
                    if a < j - 1 {
                        assert(precedes(*p, *c, turn, v@[a] as int, v@[j - 1] as int));
                    }
                }
            }
        }
        i = i + 1;
    }
}

/// Filter, sort and truncate: the retained candidate list of the position
/// under the current configuration, as indices into `p.moves`.
pub fn retained_moves(p: &PositionInfo, c: &Config, turn: Turn) -> (v: Vec<usize>)
    requires
        pos_total(*p) > 0,
        pos_bounded(*p),
        c.wf(),
    ensures
        retained_ok(*p, *c, turn, v@),
{
    broadcast use vstd::seq_lib::group_to_multiset_ensures;

    let mut v = filter_moves(p, c, turn);
    let ghost f = v@;
    sort_moves(p, c, turn, &mut v);
    let ghost w = v@;
    let tr: usize = c.variants as usize;
    v.truncate(tr);
    proof {
        assert forall|j: int, k: int|
            #![trigger v@.contains(j as usize), v@[k]]
            0 <= j < p.moves.len() && passes(*p, *c, turn, j) && !v@.contains(j as usize) && 0 <= k
                < v@.len() implies precedes(*p, *c, turn, v@[k] as int, j) by {
            assert(f.contains(j as usize));
            vstd::seq_lib::to_multiset_contains(f, j as usize);
            vstd::seq_lib::to_multiset_contains(w, j as usize);
            assert(w.contains(j as usize));
            let idx = choose|idx: int| 0 <= idx < w.len() && w[idx] == j as usize;
            if tr < w.len() {
                assert(v@ =~= w.subrange(0, tr as int));
                if idx < tr {
                    assert(v@[idx] == j as usize);
                    assert(false);
                }
                assert(precedes(*p, *c, turn, w[k] as int, w[idx] as int));
            } else {
                assert(v@ =~= w);
                assert(v@[idx] == j as usize);
                assert(false);
            }
        }
    }
    v
}

/// Weight of one retained candidate under the configured weighting mode.
pub open spec fn mv_weight(m: MoveStats, turn: Turn, w: WeightBy) -> int
    recommends
        mv_total(m) > 0,
{
    match w {
        WeightBy::Games => mv_total(m),
        WeightBy::Score => score_pct(m, turn),
        WeightBy::Random => 1,
    }
}

/// Sum of the weights of the first `k` candidates of the retained list `s`.
pub open spec fn cum_weight(p: PositionInfo, turn: Turn, w: WeightBy, s: Seq<usize>, k: int) -> int
    decreases k,
{
    if k <= 0 {
        0
    } else {
        cum_weight(p, turn, w, s, k - 1) + mv_weight(p.moves[s[k - 1] as int], turn, w)
    }
}

pub open spec fn total_weight_of(p: PositionInfo, turn: Turn, w: WeightBy, s: Seq<usize>) -> int {
    cum_weight(p, turn, w, s, s.len() as int)
}

/// Indices into `p.moves` that can carry a weight: in range and with at
/// least one recorded game.
pub open spec fn indices_ok(p: PositionInfo, s: Seq<usize>) -> bool {
    forall|k: int|
        0 <= k < s.len() ==> (#[trigger] s[k]) < p.moves.len() && mv_total(p.moves[s[k] as int]) > 0
}

pub proof fn lemma_weight_bounds(m: MoveStats, turn: Turn, w: WeightBy)
    requires
        mv_total(m) > 0,
        move_bounded(m),
    ensures
        0 <= mv_weight(m, turn, w) <= COUNT_CAP,
{
    lemma_score_pct_bounds(m, turn);
}

pub proof fn lemma_cum_weight_bounds(p: PositionInfo, turn: Turn, w: WeightBy, s: Seq<usize>, k: int)
    requires
        indices_ok(p, s),
        pos_bounded(p),
        0 <= k <= s.len(),
    ensures
        0 <= cum_weight(p, turn, w, s, k) <= k * COUNT_CAP,
    decreases k,
{
    if k > 0 {
        lemma_cum_weight_bounds(p, turn, w, s, k - 1);
        lemma_weight_bounds(p.moves[s[k - 1] as int], turn, w);
    }
}

pub proof fn lemma_cum_weight_monotone(
    p: PositionInfo,
    turn: Turn,
    w: WeightBy,
    s: Seq<usize>,
    a: int,
    b: int,
)
    requires
        indices_ok(p, s),
        pos_bounded(p),
        0 <= a <= b <= s.len(),
    ensures
        cum_weight(p, turn, w, s, a) <= cum_weight(p, turn, w, s, b),
    decreases b - a,
{
    if a < b {
        lemma_cum_weight_monotone(p, turn, w, s, a, b - 1);
        lemma_weight_bounds(p.moves[s[b - 1] as int], turn, w);
    }
}

fn mv_weight_exec(m: &MoveStats, turn: Turn, w: WeightBy) -> (r: u64)
    requires
        move_bounded(*m),
        mv_total(*m) > 0,
    ensures
        r == mv_weight(*m, turn, w),
        r <= COUNT_CAP,
{
    proof {
        lemma_weight_bounds(*m, turn, w);
    }
    match w {
        WeightBy::Games => m.total(),
        WeightBy::Score => m.score(turn),
        WeightBy::Random => 1,
    }
}

/// Total selection weight of a retained list of at most 50 candidates.
pub fn total_weight(p: &PositionInfo, c: &Config, turn: Turn, v: &Vec<usize>) -> (r: u64)
    requires
        pos_bounded(*p),
        indices_ok(*p, v@),
        v@.len() <= 50,
    ensures
        r == total_weight_of(*p, turn, c.weightby, v@),
{
    let n = v.len();
    let mut acc: u64 = 0;
    let mut i: usize = 0;
    while i < n
        invariant
            0 <= i <= n,
            n == v@.len() <= 50,
            pos_bounded(*p),
            indices_ok(*p, v@),
            acc == cum_weight(*p, turn, c.weightby, v@, i as int),
            acc <= i * COUNT_CAP,
        decreases n - i,
    {
        let idx = v[i];
        let wgt = mv_weight_exec(&p.moves[idx], turn, c.weightby);
        proof {
            lemma_cum_weight_bounds(*p, turn, c.weightby, v@, i + 1);
        }
        acc = acc + wgt;
        i = i + 1;
    }
    acc
}

/// Candidate `k` of the retained list is the one selected by `draw`: the
/// draw falls in `[cum_weight(k), cum_weight(k + 1))`.
pub open spec fn is_chosen(
    p: PositionInfo,
    turn: Turn,
    w: WeightBy,
    s: Seq<usize>,
    k: int,
    draw: int,
) -> bool {
    &&& 0 <= k < s.len()
    &&& cum_weight(p, turn, w, s, k) <= draw
    &&& draw < cum_weight(p, turn, w, s, k + 1)
}

/// The output move copies the selected candidate's counts and readable
/// notation, with the protocol notation castling-fixed.
pub open spec fn picked_from(p: PositionInfo, i: int, r: MoveStats) -> bool {
    &&& r.uci@ == fix_castle_spec(p.moves[i].uci@)
    &&& r.san@ == p.moves[i].san@
    &&& r.white == p.moves[i].white
    &&& r.draws == p.moves[i].draws
    &&& r.black == p.moves[i].black
}

/// Each candidate `k` of the retained list owns exactly the draws in
/// `[cum_weight(k), cum_weight(k + 1))`, an interval whose width is its own
/// weight, and no draw selects two candidates: a draw taken uniformly from
/// `[0, total weight)` therefore selects candidate `k` with probability
/// `weight_k / total weight`.
pub proof fn lemma_selection_intervals(
    p: PositionInfo,
    turn: Turn,
    w: WeightBy,
    s: Seq<usize>,
    k: int,
)
    requires
        indices_ok(p, s),
        pos_bounded(p),
        0 <= k < s.len(),
    ensures
        cum_weight(p, turn, w, s, k + 1) - cum_weight(p, turn, w, s, k) == mv_weight(
            p.moves[s[k] as int],
            turn,
            w,
        ),
        forall|draw: int, k2: int|
            is_chosen(p, turn, w, s, k, draw) && is_chosen(p, turn, w, s, k2, draw) ==> k2 == k,
{
    assert forall|draw: int, k2: int|
        is_chosen(p, turn, w, s, k, draw) && is_chosen(p, turn, w, s, k2, draw) implies k2 == k by {
        if k2 < k {
            lemma_cum_weight_monotone(p, turn, w, s, k2 + 1, k);
        } else if k < k2 {
            lemma_cum_weight_monotone(p, turn, w, s, k + 1, k2);
        }
    }
}

/// Walk the retained list accumulating weights and return the first
/// candidate whose cumulative weight strictly exceeds the draw.
pub fn select_move(p: &PositionInfo, c: &Config, turn: Turn, v: &Vec<usize>, draw: u64) -> (r:
    MoveStats)
    requires
        pos_bounded(*p),
        indices_ok(*p, v@),
        v@.len() <= 50,
        draw < total_weight_of(*p, turn, c.weightby, v@),
    ensures
        exists|k: int|
            is_chosen(*p, turn, c.weightby, v@, k, draw as int) && picked_from(*p, v@[k] as int, r),
{
    let ghost gw = c.weightby;
    proof {
        lemma_cum_weight_bounds(*p, turn, gw, v@, v@.len() as int);
        if v@.len() == 0 {
            assert(false);
        }
    }
    let mut i: usize = 0;
    let mut acc: u64 = 0;
    let mut wgt = mv_weight_exec(&p.moves[v[0]], turn, c.weightby);
    proof {
        lemma_cum_weight_bounds(*p, turn, gw, v@, 1);
        assert(cum_weight(*p, turn, gw, v@, 0) == 0);
        assert(cum_weight(*p, turn, gw, v@, 1) == mv_weight(p.moves[v@[0] as int], turn, gw));
    }
    while draw >= acc + wgt
        invariant
            0 <= i < v@.len() <= 50,
            pos_bounded(*p),
            indices_ok(*p, v@),
            gw == c.weightby,
            draw < total_weight_of(*p, turn, gw, v@),
            acc == cum_weight(*p, turn, gw, v@, i as int),
            acc <= draw,
            wgt == mv_weight(p.moves[v@[i as int] as int], turn, gw),
            acc + wgt == cum_weight(*p, turn, gw, v@, i + 1),
            cum_weight(*p, turn, gw, v@, i + 1) <= 50 * COUNT_CAP,
        decreases v@.len() - i,
    {
        acc = acc + wgt;
        i = i + 1;
        proof {
            if i == v@.len() {
                assert(false);
            }
            lemma_cum_weight_bounds(*p, turn, gw, v@, i + 1);
        }
        wgt = mv_weight_exec(&p.moves[v[i]], turn, c.weightby);
    }
    proof {
        assert(is_chosen(*p, turn, gw, v@, i as int, draw as int));
    }
    let m = &p.moves[v[i]];
    MoveStats {
        uci: fix_castle(&m.uci),
        san: m.san.clone(),
        white: m.white,
        draws: m.draws,
        black: m.black,
    }
}

/// Relies on rand::random_range sampling the range `0..n`: the result is
/// uniform in the range and in particular below `n`; the call panics only on
/// an empty range, which `requires` excludes.
#[verifier::external_body]
fn draw_below(n: u64) -> (r: u64)
    requires
        n > 0,
    ensures
        r < n,
{
    rand::random_range(0..n)
}

/// The result of the whole selection pipeline: some retained list as
/// `retained_ok` describes it, and either a zero total weight and no move,
/// or a move picked by a draw below the total weight.
pub open spec fn book_move_ok(p: PositionInfo, c: Config, turn: Turn, r: Option<MoveStats>) -> bool {
    exists|s: Seq<usize>|
        #![trigger retained_ok(p, c, turn, s)]
        retained_ok(p, c, turn, s) && match r {
            None => total_weight_of(p, turn, c.weightby, s) == 0,
            Some(m) => exists|k: int, draw: int|
                0 <= draw && is_chosen(p, turn, c.weightby, s, k, draw) && picked_from(
                    p,
                    s[k] as int,
                    m,
                ),
        }
}

/// Run the full selection pipeline on a position's statistics, drawing the
/// final candidate with the process-wide random source.
pub fn get_position_move(c: &Config, turn: Turn, p: &PositionInfo) -> (r: Option<MoveStats>)
    requires
        c.wf(),
        pos_bounded(*p),
        pos_total(*p) > 0,
    ensures
        book_move_ok(*p, *c, turn, r),
{
    let v = retained_moves(p, c, turn);
    proof {
        assert(v@.len() <= c.variants);
        assert forall|k: int| 0 <= k < v@.len() implies (#[trigger] v@[k]) < p.moves.len()
            && mv_total(p.moves[v@[k] as int]) > 0 by {
            assert(passes(*p, *c, turn, v@[k] as int));
        }
    }
    let tw = total_weight(p, c, turn, &v);
    if tw == 0 {
        proof {
            assert(retained_ok(*p, *c, turn, v@) && total_weight_of(*p, turn, c.weightby, v@) == 0);
        }
        None
    } else {
        let draw = draw_below(tw);
        let m = select_move(p, c, turn, &v, draw);
        proof {
            let k = choose|k: int|
                is_chosen(*p, turn, c.weightby, v@, k, draw as int) && picked_from(
                    *p,
                    v@[k] as int,
                    m,
                );
            assert(retained_ok(*p, *c, turn, v@) && 0 <= draw as int && is_chosen(
                *p,
                turn,
                c.weightby,
                v@,
                k,
                draw as int,
            ) && picked_from(*p, v@[k] as int, m));
        }
        Some(m)
    }
}

} // verus!
