//! The search interceptor: while a book move is pending, engine progress
//! lines are parsed into a latest evaluation instead of being relayed, and
//! the terminal best-move line is replaced by the book lines.

use vstd::prelude::*;
use crate::numtext::dec_rep;
use crate::numtext::u64_to_string;
use crate::stats::MoveStats;
use crate::stats::move_bounded;
use crate::stats::mv_total;
use crate::text::split_from;
use crate::text::starts_with_lit;
use crate::text::starts_with_spec;
use crate::text::tok_is;
use crate::text::tokenize;

verus! {

/// The latest evaluation parsed out of the engine's progress lines, kept as
/// the raw tokens; the defaults stand until a line supplies a value.
pub struct EvalState {
    pub depth: String,
    pub seldepth: String,
    pub score_unit: String,
    pub score: String,
}

/// The four tracked token views bundled for the specification.
pub open spec fn ev_of(e: EvalState) -> (Seq<char>, Seq<char>, Seq<char>, Seq<char>) {
    (e.depth@, e.seldepth@, e.score_unit@, e.score@)
}

impl EvalState {
    /// The defaults reported when no progress line supplied a value.
    pub fn new() -> (e: EvalState)
        ensures
            ev_of(e) == ("1"@, "1"@, "cp"@, "0"@),
    {
        EvalState {
            depth: "1".to_owned(),
            seldepth: "1".to_owned(),
            score_unit: "cp".to_owned(),
            score: "0".to_owned(),
        }
    }
}

/// One pass of the evaluation scanner over the tokens from position `i` on:
/// `depth` and `seldepth` take the following token; `score` takes a unit
/// token (`cp` or `mate`; anything else keeps the previous unit) and then a
/// value token; a keyword whose value token is missing ends the scan; every
/// other token is skipped.
pub open spec fn scan_eval(
    e: (Seq<char>, Seq<char>, Seq<char>, Seq<char>),
    toks: Seq<Seq<char>>,
    i: int,
) -> (Seq<char>, Seq<char>, Seq<char>, Seq<char>)
    decreases toks.len() - i,
{
    if i < 0 || i >= toks.len() {
        e
    } else if toks[i] == "depth"@ {
        if i + 1 < toks.len() {
            scan_eval((toks[i + 1], e.1, e.2, e.3), toks, i + 2)
        } else {
            e
        }
    } else if toks[i] == "seldepth"@ {
        if i + 1 < toks.len() {
            scan_eval((e.0, toks[i + 1], e.2, e.3), toks, i + 2)
        } else {
            e
        }
    } else if toks[i] == "score"@ {
        if i + 1 < toks.len() {
            let unit = if toks[i + 1] == "cp"@ {
                "cp"@
            } else if toks[i + 1] == "mate"@ {
                "mate"@
            } else {
                e.2
            };
            if i + 2 < toks.len() {
                scan_eval((e.0, e.1, unit, toks[i + 2]), toks, i + 3)
            } else {
                (e.0, e.1, unit, e.3)
            }
        } else {
            e
        }
    } else {
        scan_eval(e, toks, i + 1)
    }
}

/// What one engine line does to the latest evaluation: only lines whose
/// first token is `info` are scanned, from their second token on.
pub open spec fn eval_after_line(
    e: (Seq<char>, Seq<char>, Seq<char>, Seq<char>),
    toks: Seq<Seq<char>>,
) -> (Seq<char>, Seq<char>, Seq<char>, Seq<char>) {
    if toks.len() > 0 && toks[0] == "info"@ {
        scan_eval(e, toks, 1)
    } else {
        e
    }
}

/// Fold one engine progress line, given as its tokens, into the latest
/// evaluation.
pub fn update_eval(ev: &mut EvalState, toks: &Vec<String>)
    ensures
        ev_of(*final(ev)) == eval_after_line(ev_of(*old(ev)), toks.deep_view()),
{
    let ghost dv = toks.deep_view();
    let ghost e0 = ev_of(*old(ev));
    proof {
        assert(forall|i: int| 0 <= i < toks@.len() ==> #[trigger] dv[i] == toks@[i]@);
    }
    let n = toks.len();
    if n == 0 || !tok_is(&toks[0], "info") {
        return ;
    }
    let mut i: usize = 1;
    while i < n
        invariant
            1 <= i,
            n == toks@.len(),
            dv == toks.deep_view(),
            dv.len() == n,
            forall|j: int| 0 <= j < n ==> #[trigger] dv[j] == toks@[j]@,
            scan_eval(e0, dv, 1) == scan_eval(ev_of(*ev), dv, i as int),
        decreases n - i,
    {
        if tok_is(&toks[i], "depth") {
            if i + 1 < n {
                ev.depth = toks[i + 1].clone();
                i = i + 2;
            } else {
                i = n;
            }
        } else if tok_is(&toks[i], "seldepth") {
            if i + 1 < n {
                ev.seldepth = toks[i + 1].clone();
                i = i + 2;
            } else {
                i = n;
            }
        } else if tok_is(&toks[i], "score") {
            if i + 1 < n {
                if tok_is(&toks[i + 1], "cp") {
                    ev.score_unit = "cp".to_owned();
                } else if tok_is(&toks[i + 1], "mate") {
                    ev.score_unit = "mate".to_owned();
                }
                if i + 2 < n {
                    ev.score = toks[i + 2].clone();
                    i = i + 3;
                } else {
                    i = n;
                }
            } else {
                i = n;
            }
        } else {
            i = i + 1;
        }
    }
}

/// The book statistics line: the move's side percentages of its own games,
/// its game count, and its readable notation.
pub open spec fn book_info_spec(m: MoveStats) -> Seq<char> {
    let g = mv_total(m);
    "info white "@ + dec_rep(m.white * 100 / g) + " draws "@ + dec_rep(m.draws * 100 / g)
        + " black "@ + dec_rep(m.black * 100 / g) + " games "@ + dec_rep(g) + " lichessdbmove "@
        + m.san@
}

/// Build the book statistics line for the chosen move.
pub fn book_info_line(m: &MoveStats) -> (r: String)
    requires
        mv_total(*m) > 0,
        move_bounded(*m),
    ensures
        r@ == book_info_spec(*m),
{
    let g = m.total();
    let mut s = "info white ".to_owned();
    s.append(u64_to_string(m.white * 100 / g).as_str());
    s.append(" draws ");
    s.append(u64_to_string(m.draws * 100 / g).as_str());
    s.append(" black ");
    s.append(u64_to_string(m.black * 100 / g).as_str());
    s.append(" games ");
    s.append(u64_to_string(g).as_str());
    s.append(" lichessdbmove ");
    s.append(m.san.as_str());
    s
}

/// The evaluation line emitted in place of the engine's own: the latest
/// tracked depth, selective depth and score, with the principal variation
/// set to the book move's protocol notation.
pub open spec fn eval_info_spec(
    e: (Seq<char>, Seq<char>, Seq<char>, Seq<char>),
    uci: Seq<char>,
) -> Seq<char> {
    "info depth "@ + e.0 + " seldepth "@ + e.1 + " multipv 1 score "@ + e.2 + " "@ + e.3 + " pv "@
        + uci
}

/// Build the evaluation line for the chosen move.
pub fn eval_info_line(ev: &EvalState, uci: &String) -> (r: String)
    ensures
        r@ == eval_info_spec(ev_of(*ev), uci@),
{
    let mut s = "info depth ".to_owned();
    s.append(ev.depth.as_str());
    s.append(" seldepth ");
    s.append(ev.seldepth.as_str());
    s.append(" multipv 1 score ");
    s.append(ev.score_unit.as_str());
    s.append(" ");
    s.append(ev.score.as_str());
    s.append(" pv ");
    s.append(uci.as_str());
    s
}

/// Build the terminal best-move line for a protocol notation.
pub fn bestmove_line(uci: &String) -> (r: String)
    ensures
        r@ == "bestmove "@ + uci@,
{
    let mut s = "bestmove ".to_owned();
    s.append(uci.as_str());
    s
}

/// What the relay loop does with one engine line.
pub enum GoAction {
    /// Print the engine's line verbatim and keep consuming.
    Relay,
    /// Print nothing and keep consuming.
    Silent,
    /// Print the engine's terminal line verbatim and stop.
    RelayFinish,
    /// Print these lines instead of the engine's terminal line and stop.
    BookFinish(Vec<String>),
}

/// Decide what to do with one engine line during a search. Without a book
/// move every line is relayed verbatim, the terminal best-move line
/// included. With a book move, progress lines are folded into the latest
/// evaluation and suppressed, and the terminal line is replaced by the book
/// statistics line, the evaluation line, and a best-move line carrying the
/// book move's notation; exactly one terminal best-move line results either
/// way.
pub fn process_go_line(best: &Option<MoveStats>, ev: &mut EvalState, line: &String) -> (r:
    GoAction)
    requires
        match *best {
            Some(m) => mv_total(m) > 0 && move_bounded(m),
            None => true,
        },
    ensures
        ({
            if starts_with_spec(line@, "bestmove"@) {
                match *best {
                    Some(m) => r matches GoAction::BookFinish(lines) && lines@.len() == 3
                        && lines@[0]@ == book_info_spec(m) && lines@[1]@ == eval_info_spec(
                        ev_of(*old(ev)),
                        m.uci@,
                    ) && lines@[2]@ == ("bestmove "@ + m.uci@) && *final(ev) == *old(ev),
                    None => r is RelayFinish && *final(ev) == *old(ev),
                }
            } else {
                match *best {
                    Some(m) => r is Silent && ev_of(*final(ev)) == eval_after_line(
                        ev_of(*old(ev)),
                        split_from(line@, 0),
                    ),
                    None => r is Relay && *final(ev) == *old(ev),
                }
            }
        }),
{
    if starts_with_lit(line, "bestmove") {
        match best {
            Some(m) => {
                let mut lines: Vec<String> = Vec::new();
                lines.push(book_info_line(m));
                lines.push(eval_info_line(ev, &m.uci));
                lines.push(bestmove_line(&m.uci));
                GoAction::BookFinish(lines)
            },
            None => GoAction::RelayFinish,
        }
    } else {
        match best {
            Some(_) => {
                let toks = tokenize(line.as_str());
                update_eval(ev, &toks);
                GoAction::Silent
            },
            None => GoAction::Relay,
        }
    }
}

} // verus!
