//! The dispatcher's command decoding, the session state, and the handlers
//! whose whole effect is a state change plus a line to forward or emit.

use vstd::prelude::*;
use crate::cache::Cache;
use crate::config::Config;
use crate::stats::Turn;
use crate::text::joined_trailing;
use crate::text::joined_with_spaces;
use crate::text::join_tokens;
use crate::text::join_trailing_from;
use crate::text::tok_is;
use crate::text::trim_spec;
use crate::text::trimmed_is;

verus! {

/// The canonical encoding of the initial game position.
pub const STARTPOS: &'static str = "rnbqkbnr/pppppppp/8/8/8/8/PPPPPPPP/RNBQKBNR w KQkq - 0 1";

/// The closed set of front-end command variants.
#[derive(Clone, Copy, PartialEq, Eq, Structural, Debug)]
pub enum Command {
    Uci,
    SetOption,
    IsReady,
    Position,
    Go,
    Stop,
    Quit,
    Unknown,
}

/// The command variant a first token decodes to; `quit` and `exit` both end
/// the session, anything unrecognized is `Unknown`.
pub open spec fn decode_spec(w: Seq<char>) -> Command {
    if w == "uci"@ {
        Command::Uci
    } else if w == "setoption"@ {
        Command::SetOption
    } else if w == "isready"@ {
        Command::IsReady
    } else if w == "position"@ {
        Command::Position
    } else if w == "go"@ {
        Command::Go
    } else if w == "stop"@ {
        Command::Stop
    } else if w == "quit"@ || w == "exit"@ {
        Command::Quit
    } else {
        Command::Unknown
    }
}

/// Decode the first token of a front-end line into its command variant.
pub fn decode_command(word: &String) -> (c: Command)
    ensures
        c == decode_spec(word@),
{
    if tok_is(word, "uci") {
        Command::Uci
    } else if tok_is(word, "setoption") {
        Command::SetOption
    } else if tok_is(word, "isready") {
        Command::IsReady
    } else if tok_is(word, "position") {
        Command::Position
    } else if tok_is(word, "go") {
        Command::Go
    } else if tok_is(word, "stop") {
        Command::Stop
    } else if tok_is(word, "quit") || tok_is(word, "exit") {
        Command::Quit
    } else {
        Command::Unknown
    }
}

/// The diagnostic emitted for an unrecognized command token.
pub fn unknown_command_line(word: &String) -> (r: String)
    ensures
        r@ == "Unknown command: "@ + word@,
{
    let mut s = "Unknown command: ".to_owned();
    s.append(word.as_str());
    s
}

/// The top-level mutable aggregate: current position encoding and side to
/// move, the configuration state, and the statistics cache.
pub struct Session {
    pub fen: String,
    pub turn: Turn,
    pub config: Config,
    pub cache: Cache,
}

impl Session {
    pub fn new() -> (s: Session)
        ensures
            s.fen@ == STARTPOS@,
            s.turn == Turn::White,
            s.config.is_default(),
            s.config.wf(),
            s.cache.wf(),
            s.cache@ == Map::<Seq<char>, std::rc::Rc<crate::stats::PositionInfo>>::empty(),
    {
        Session { fen: STARTPOS.to_owned(), turn: Turn::White, config: Config::new(), cache: Cache::new() }
    }
}

/// What a `position` command does to the session and what it forwards: an
/// empty argument list does nothing; `startpos` resets the stored encoding;
/// `fen` stores the joined remaining tokens with the side to move read from
/// the third token, and a malformed `fen` (too few tokens, or a side-to-move
/// token that is neither `w` nor `b`) changes nothing and forwards nothing;
/// any other first token leaves the stored position alone; in every
/// forwarding case the entire command line is forwarded verbatim.
pub open spec fn position_spec(
    old_fen: Seq<char>,
    old_turn: Turn,
    toks: Seq<Seq<char>>,
) -> (Seq<char>, Turn, Option<Seq<char>>) {
    if toks.len() == 0 {
        (old_fen, old_turn, None)
    } else if toks[0] == "startpos"@ {
        (STARTPOS@, Turn::White, Some(joined_with_spaces("position"@, toks)))
    } else if toks[0] == "fen"@ {
        if toks.len() >= 3 && toks[2] == "w"@ {
            (
                joined_trailing(Seq::<char>::empty(), toks.skip(1)),
                Turn::White,
                Some(joined_with_spaces("position"@, toks)),
            )
        } else if toks.len() >= 3 && toks[2] == "b"@ {
            (
                joined_trailing(Seq::<char>::empty(), toks.skip(1)),
                Turn::Black,
                Some(joined_with_spaces("position"@, toks)),
            )
        } else {
            (old_fen, old_turn, None)
        }
    } else {
        (old_fen, old_turn, Some(joined_with_spaces("position"@, toks)))
    }
}

/// Handle a `position` command: update the stored position encoding and side
/// to move as `position_spec` says, and return the line to forward to the
/// engine, if any.
pub fn process_position(sess: &mut Session, args: &Vec<String>) -> (r: Option<String>)
    ensures
        final(sess).config == old(sess).config,
        final(sess).cache == old(sess).cache,
        ({
            let (nfen, nturn, fwd) = position_spec(
                old(sess).fen@,
                old(sess).turn,
                args.deep_view(),
            );
            &&& final(sess).fen@ == nfen
            &&& final(sess).turn == nturn
            &&& match fwd {
                Some(line) => r matches Some(out) && out@ == line,
                None => r is None,
            }
        }),
{
    let ghost dv = args.deep_view();
    proof {
        assert(forall|i: int| 0 <= i < args@.len() ==> #[trigger] dv[i] == args@[i]@);
    }
    if args.len() == 0 {
        return None;
    }
    if tok_is(&args[0], "startpos") {
        sess.fen = STARTPOS.to_owned();
        sess.turn = Turn::White;
    } else if tok_is(&args[0], "fen") {
        if args.len() >= 3 && tok_is(&args[2], "w") {
            sess.turn = Turn::White;
        } else if args.len() >= 3 && tok_is(&args[2], "b") {
            sess.turn = Turn::Black;
        } else {
            return None;
        }
        sess.fen = join_trailing_from(args, 1);
    }
    Some(join_tokens("position", args))
}

/// Handle a `stop` command: the line to forward to the engine.
pub fn process_stop() -> (r: String)
    ensures
        r@ == "stop"@,
{
    "stop".to_owned()
}

/// Classify one engine line while waiting for the ready acknowledgement:
/// true exactly when its trimmed form is the acknowledgement, which is then
/// relayed; anything else fails the ready check.
pub fn process_isready(line: &String) -> (r: bool)
    ensures
        r == (trim_spec(line@) == "readyok"@),
{
    trimmed_is(line, "readyok")
}

/// Classify one engine line during the handshake: true exactly when its
/// trimmed form is the engine's own handshake acknowledgement, after which
/// the option advertisement and the session's acknowledgement are emitted;
/// every earlier line is relayed verbatim.
pub fn process_uci(line: &String) -> (r: bool)
    ensures
        r == (trim_spec(line@) == "uciok"@),
{
    trimmed_is(line, "uciok")
}

/// The full option advertisement: name, type, default and, for numeric
/// options, the declared inclusive range, for enumerated options the allowed
/// values; emitted once after the engine's handshake acknowledgement and
/// before the session's own.
pub fn option_advertisement() -> (v: Vec<String>)
    ensures
        v@.len() == 16,
        v@[0]@ == "option name LichessDB_Masters type check default false"@,
        v@[1]@ == "option name LichessDB_Bullet type check default true"@,
        v@[2]@ == "option name LichessDB_Blitz type check default true"@,
        v@[3]@ == "option name LichessDB_Rapid type check default true"@,
        v@[4]@ == "option name LichessDB_Classical type check default true"@,
        v@[5]@ == "option name LichessDB_Rating_1600_1800 type check default true"@,
        v@[6]@ == "option name LichessDB_Rating_1800_2000 type check default true"@,
        v@[7]@ == "option name LichessDB_Rating_2000_2200 type check default true"@,
        v@[8]@ == "option name LichessDB_Rating_2200_2500 type check default true"@,
        v@[9]@ == "option name LichessDB_Rating_Above_2500 type check default true"@,
        v@[10]@ == "option name LichessDB_Games_GT type spin default 30 min 1 max 1000000000"@,
        v@[11]@ == "option name LichessDB_Games_Percent_GT type spin default 1 min 0 max 100"@,
        v@[12]@ == "option name LichessDB_Score_GT type spin default 0 min 0 max 100"@,
        v@[13]@ == "option name LichessDB_Sort_By type combo default Games var Games var Score"@,
        v@[14]@ == "option name LichessDB_Variants type spin default 1 min 0 max 50"@,
        v@[15]@
            == "option name LichessDB_Variant_Weight type combo default Random var Games var Score var Random"@,
{
    let mut v: Vec<String> = Vec::new();
    v.push("option name LichessDB_Masters type check default false".to_owned());
    v.push("option name LichessDB_Bullet type check default true".to_owned());
    v.push("option name LichessDB_Blitz type check default true".to_owned());
    v.push("option name LichessDB_Rapid type check default true".to_owned());
    v.push("option name LichessDB_Classical type check default true".to_owned());
    v.push("option name LichessDB_Rating_1600_1800 type check default true".to_owned());
    v.push("option name LichessDB_Rating_1800_2000 type check default true".to_owned());
    v.push("option name LichessDB_Rating_2000_2200 type check default true".to_owned());
    v.push("option name LichessDB_Rating_2200_2500 type check default true".to_owned());
    v.push("option name LichessDB_Rating_Above_2500 type check default true".to_owned());
    v.push("option name LichessDB_Games_GT type spin default 30 min 1 max 1000000000".to_owned());
    v.push("option name LichessDB_Games_Percent_GT type spin default 1 min 0 max 100".to_owned());
    v.push("option name LichessDB_Score_GT type spin default 0 min 0 max 100".to_owned());
    v.push("option name LichessDB_Sort_By type combo default Games var Games var Score".to_owned());
    v.push("option name LichessDB_Variants type spin default 1 min 0 max 50".to_owned());
    v.push(
        "option name LichessDB_Variant_Weight type combo default Random var Games var Score var Random".to_owned(),
    );
    v
}

/// The session's own handshake acknowledgement line.
pub fn handshake_ack() -> (r: String)
    ensures
        r@ == "uciok"@,
{
    "uciok".to_owned()
}

} // verus!
