//! Configuration state: the sixteen tunables, their defaults and declared
//! ranges, and validated assignment from `set-config` commands.

use vstd::prelude::*;
use crate::numtext::all_digits;
use crate::numtext::digits_val;
use crate::numtext::parse_u64;
use crate::text::joined_with_spaces;
use crate::text::join_tokens;
use crate::text::tok_is;

verus! {

/// Sort key for retained candidates.
#[derive(Clone, Copy, PartialEq, Eq, Structural, Debug)]
pub enum SortBy {
    Games,
    Score,
}

/// Weighting mode for the final draw among retained candidates.
#[derive(Clone, Copy, PartialEq, Eq, Structural, Debug)]
pub enum WeightBy {
    Games,
    Score,
    Random,
}

/// All tunables: dataset selector, five rating bands, four time-control
/// bands, the three numeric thresholds, sort key, retained-variant count and
/// weighting mode.
#[derive(Clone, Copy, PartialEq, Eq, Structural, Debug)]
pub struct Config {
    pub master_games: bool,
    pub rating_1600: bool,
    pub rating_1800: bool,
    pub rating_2000: bool,
    pub rating_2200: bool,
    pub rating_2500: bool,
    pub bullet: bool,
    pub blitz: bool,
    pub rapid: bool,
    pub classical: bool,
    pub games_min: u64,
    pub games_pct_min: u64,
    pub score_pct_min: u64,
    pub sortby: SortBy,
    pub variants: u64,
    pub weightby: WeightBy,
}

impl Config {
    /// The numeric options lie within their declared inclusive ranges.
    pub open spec fn wf(self) -> bool {
        &&& 1 <= self.games_min <= 1000000000
        &&& self.games_pct_min <= 100
        &&& self.score_pct_min <= 100
        &&& self.variants <= 50
    }

    /// The fixed defaults of every option.
    pub open spec fn is_default(self) -> bool {
        &&& self.master_games == false
        &&& self.rating_1600 == true
        &&& self.rating_1800 == true
        &&& self.rating_2000 == true
        &&& self.rating_2200 == true
        &&& self.rating_2500 == true
        &&& self.bullet == true
        &&& self.blitz == true
        &&& self.rapid == true
        &&& self.classical == true
        &&& self.games_min == 30
        &&& self.games_pct_min == 1
        &&& self.score_pct_min == 0
        &&& self.sortby == SortBy::Games
        &&& self.variants == 1
        &&& self.weightby == WeightBy::Random
    }

    pub fn new() -> (c: Config)
        ensures
            c.is_default(),
            c.wf(),
    {
        Config {
            master_games: false,
            rating_1600: true,
            rating_1800: true,
            rating_2000: true,
            rating_2200: true,
            rating_2500: true,
            bullet: true,
            blitz: true,
            rapid: true,
            classical: true,
            games_min: 30,
            games_pct_min: 1,
            score_pct_min: 0,
            sortby: SortBy::Games,
            variants: 1,
            weightby: WeightBy::Random,
        }
    }
}

impl Default for Config {
    fn default() -> (c: Config)
        ensures
            c.is_default(),
            c.wf(),
    {
        Config::new()
    }
}

/// What a `setoption` command results in besides the configuration change:
/// nothing further, a whole command line forwarded verbatim to the engine
/// as a native option, or a diagnostic for a malformed command.
pub enum SetOptionAction {
    Handled,
    Forward(String),
    Diagnostic,
}

/// A boolean option accepts exactly `true` and `false`; anything else is a
/// no-op.
pub open spec fn bool_opt(old: bool, v: Seq<char>) -> bool {
    if v == "true"@ {
        true
    } else if v == "false"@ {
        false
    } else {
        old
    }
}

/// A numeric option accepts exactly the decimal values within its declared
/// inclusive range; an unparsable or out-of-range value is a no-op.
pub open spec fn int_opt(old: u64, v: Seq<char>, lo: u64, hi: u64) -> u64 {
    if v.len() > 0 && all_digits(v) && lo <= digits_val(v) <= hi {
        digits_val(v) as u64
    } else {
        old
    }
}

/// The sixteen recognized options as a closed tagged type.
#[derive(Clone, Copy, PartialEq, Eq, Structural, Debug)]
pub enum OptionKey {
    Masters,
    Bullet,
    Blitz,
    Rapid,
    Classical,
    Rating1600,
    Rating1800,
    Rating2000,
    Rating2200,
    Rating2500,
    GamesMin,
    GamesPctMin,
    ScorePctMin,
    SortKey,
    Variants,
    WeightMode,
}

/// Which recognized option a name token denotes, if any.
pub open spec fn option_key(name: Seq<char>) -> Option<OptionKey> {
    if name == "LichessDB_Masters"@ {
        Some(OptionKey::Masters)
    } else if name == "LichessDB_Bullet"@ {
        Some(OptionKey::Bullet)
    } else if name == "LichessDB_Blitz"@ {
        Some(OptionKey::Blitz)
    } else if name == "LichessDB_Rapid"@ {
        Some(OptionKey::Rapid)
    } else if name == "LichessDB_Classical"@ {
        Some(OptionKey::Classical)
    } else if name == "LichessDB_Rating_1600_1800"@ {
        Some(OptionKey::Rating1600)
    } else if name == "LichessDB_Rating_1800_2000"@ {
        Some(OptionKey::Rating1800)
    } else if name == "LichessDB_Rating_2000_2200"@ {
        Some(OptionKey::Rating2000)
    } else if name == "LichessDB_Rating_2200_2500"@ {
        Some(OptionKey::Rating2200)
    } else if name == "LichessDB_Rating_Above_2500"@ {
        Some(OptionKey::Rating2500)
    } else if name == "LichessDB_Games_GT"@ {
        Some(OptionKey::GamesMin)
    } else if name == "LichessDB_Games_Percent_GT"@ {
        Some(OptionKey::GamesPctMin)
    } else if name == "LichessDB_Score_GT"@ {
        Some(OptionKey::ScorePctMin)
    } else if name == "LichessDB_Sort_By"@ {
        Some(OptionKey::SortKey)
    } else if name == "LichessDB_Variants"@ {
        Some(OptionKey::Variants)
    } else if name == "LichessDB_Variant_Weight"@ {
        Some(OptionKey::WeightMode)
    } else {
        None
    }
}

/// The validated assignment one recognized option performs for a value token.
pub open spec fn apply_keyed(c: Config, k: OptionKey, v: Seq<char>) -> Config {
    match k {
        OptionKey::Masters => Config { master_games: bool_opt(c.master_games, v), ..c },
        OptionKey::Bullet => Config { bullet: bool_opt(c.bullet, v), ..c },
        OptionKey::Blitz => Config { blitz: bool_opt(c.blitz, v), ..c },
        OptionKey::Rapid => Config { rapid: bool_opt(c.rapid, v), ..c },
        OptionKey::Classical => Config { classical: bool_opt(c.classical, v), ..c },
        OptionKey::Rating1600 => Config { rating_1600: bool_opt(c.rating_1600, v), ..c },
        OptionKey::Rating1800 => Config { rating_1800: bool_opt(c.rating_1800, v), ..c },
        OptionKey::Rating2000 => Config { rating_2000: bool_opt(c.rating_2000, v), ..c },
        OptionKey::Rating2200 => Config { rating_2200: bool_opt(c.rating_2200, v), ..c },
        OptionKey::Rating2500 => Config { rating_2500: bool_opt(c.rating_2500, v), ..c },
        OptionKey::GamesMin => Config { games_min: int_opt(c.games_min, v, 1, 1000000000), ..c },
        OptionKey::GamesPctMin => Config {
            games_pct_min: int_opt(c.games_pct_min, v, 0, 100),
            ..c
        },
        OptionKey::ScorePctMin => Config {
            score_pct_min: int_opt(c.score_pct_min, v, 0, 100),
            ..c
        },
        OptionKey::SortKey => Config {
            sortby: if v == "Games"@ {
                SortBy::Games
            } else if v == "Score"@ {
                SortBy::Score
            } else {
                c.sortby
            },
            ..c
        },
        OptionKey::Variants => Config { variants: int_opt(c.variants, v, 0, 50), ..c },
        OptionKey::WeightMode => Config {
            weightby: if v == "Games"@ {
                WeightBy::Games
            } else if v == "Score"@ {
                WeightBy::Score
            } else if v == "Random"@ {
                WeightBy::Random
            } else {
                c.weightby
            },
            ..c
        },
    }
}

/// The validated assignment a recognized option performs for a value token;
/// an unrecognized name changes nothing.
pub open spec fn apply_option(c: Config, name: Seq<char>, v: Seq<char>) -> Config {
    match option_key(name) {
        Some(k) => apply_keyed(c, k, v),
        None => c,
    }
}

/// The configuration after a whole `setoption` token list: a recognized
/// option with a well-formed `name ... value ...` shape applies its
/// validated assignment; everything else leaves the configuration unchanged.
pub open spec fn setoption_new_config(c: Config, toks: Seq<Seq<char>>) -> Config {
    if toks.len() >= 2 && toks[0] == "name"@ && option_key(toks[1]) is Some && toks.len() >= 4
        && toks[2] == "value"@ {
        apply_option(c, toks[1], toks[3])
    } else {
        c
    }
}

fn bool_value(old: bool, tok: &String) -> (r: bool)
    ensures
        r == bool_opt(old, tok@),
{
    if tok_is(tok, "true") {
        true
    } else if tok_is(tok, "false") {
        false
    } else {
        old
    }
}

fn int_value(old: u64, tok: &String, lo: u64, hi: u64) -> (r: u64)
    ensures
        r == int_opt(old, tok@, lo, hi),
{
    match parse_u64(tok.as_str()) {
        Some(x) => {
            if lo <= x && x <= hi {
                x
            } else {
                old
            }
        },
        None => old,
    }
}

/// Handle a `setoption` command: a recognized option name validates and
/// assigns its value token (invalid values are silently ignored and the
/// prior value retained); an unrecognized name forwards the entire command
/// line verbatim to the engine; a token list that does not start with
/// `name <token>` yields a diagnostic and no assignment.
fn decode_option(name: &String) -> (k: Option<OptionKey>)
    ensures
        k == option_key(name@),
{
    if tok_is(name, "LichessDB_Masters") {
        Some(OptionKey::Masters)
    } else if tok_is(name, "LichessDB_Bullet") {
        Some(OptionKey::Bullet)
    } else if tok_is(name, "LichessDB_Blitz") {
        Some(OptionKey::Blitz)
    } else if tok_is(name, "LichessDB_Rapid") {
        Some(OptionKey::Rapid)
    } else if tok_is(name, "LichessDB_Classical") {
        Some(OptionKey::Classical)
    } else if tok_is(name, "LichessDB_Rating_1600_1800") {
        Some(OptionKey::Rating1600)
    } else if tok_is(name, "LichessDB_Rating_1800_2000") {
        Some(OptionKey::Rating1800)
    } else if tok_is(name, "LichessDB_Rating_2000_2200") {
        Some(OptionKey::Rating2000)
    } else if tok_is(name, "LichessDB_Rating_2200_2500") {
        Some(OptionKey::Rating2200)
    } else if tok_is(name, "LichessDB_Rating_Above_2500") {
        Some(OptionKey::Rating2500)
    } else if tok_is(name, "LichessDB_Games_GT") {
        Some(OptionKey::GamesMin)
    } else if tok_is(name, "LichessDB_Games_Percent_GT") {
        Some(OptionKey::GamesPctMin)
    } else if tok_is(name, "LichessDB_Score_GT") {
        Some(OptionKey::ScorePctMin)
    } else if tok_is(name, "LichessDB_Sort_By") {
        Some(OptionKey::SortKey)
    } else if tok_is(name, "LichessDB_Variants") {
        Some(OptionKey::Variants)
    } else if tok_is(name, "LichessDB_Variant_Weight") {
        Some(OptionKey::WeightMode)
    } else {
        None
    }
}

#[verifier::rlimit(100)]
#[verifier::spinoff_prover]
fn apply_keyed_exec(c: Config, k: OptionKey, val: &String) -> (r: Config)
    ensures
        r == apply_keyed(c, k, val@),
        c.wf() ==> r.wf(),
{
    match k {
        OptionKey::Masters => Config { master_games: bool_value(c.master_games, val), ..c },
        OptionKey::Bullet => Config { bullet: bool_value(c.bullet, val), ..c },
        OptionKey::Blitz => Config { blitz: bool_value(c.blitz, val), ..c },
        OptionKey::Rapid => Config { rapid: bool_value(c.rapid, val), ..c },
        OptionKey::Classical => Config { classical: bool_value(c.classical, val), ..c },
        OptionKey::Rating1600 => Config { rating_1600: bool_value(c.rating_1600, val), ..c },
        OptionKey::Rating1800 => Config { rating_1800: bool_value(c.rating_1800, val), ..c },
        OptionKey::Rating2000 => Config { rating_2000: bool_value(c.rating_2000, val), ..c },
        OptionKey::Rating2200 => Config { rating_2200: bool_value(c.rating_2200, val), ..c },
        OptionKey::Rating2500 => Config { rating_2500: bool_value(c.rating_2500, val), ..c },
        OptionKey::GamesMin => Config {
            games_min: int_value(c.games_min, val, 1, 1000000000),
            ..c
        },
        OptionKey::GamesPctMin => Config {
            games_pct_min: int_value(c.games_pct_min, val, 0, 100),
            ..c
        },
        OptionKey::ScorePctMin => Config {
            score_pct_min: int_value(c.score_pct_min, val, 0, 100),
            ..c
        },
        OptionKey::SortKey => Config {
            sortby: if tok_is(val, "Games") {
                SortBy::Games
            } else if tok_is(val, "Score") {
                SortBy::Score
            } else {
                c.sortby
            },
            ..c
        },
        OptionKey::Variants => Config { variants: int_value(c.variants, val, 0, 50), ..c },
        OptionKey::WeightMode => Config {
            weightby: if tok_is(val, "Games") {
                WeightBy::Games
            } else if tok_is(val, "Score") {
                WeightBy::Score
            } else if tok_is(val, "Random") {
                WeightBy::Random
            } else {
                c.weightby
            },
            ..c
        },
    }
}

/// Handle a `setoption` command: a recognized option name validates and
/// assigns its value token (invalid values are silently ignored and the
/// prior value retained); an unrecognized name forwards the entire command
/// line verbatim to the engine; a token list that does not start with
/// `name <token>` yields a diagnostic and no assignment.
pub fn process_setoption(c: &mut Config, args: &Vec<String>) -> (r: SetOptionAction)
    ensures
        *final(c) == setoption_new_config(*old(c), args.deep_view()),
        old(c).wf() ==> final(c).wf(),
        ({
            let toks = args.deep_view();
            if toks.len() < 2 || toks[0] != "name"@ {
                r is Diagnostic
            } else if option_key(toks[1]) is Some {
                r is Handled
            } else {
                r matches SetOptionAction::Forward(line) && line@ == joined_with_spaces(
                    "setoption"@,
                    toks,
                )
            }
        }),
{
    let ghost dv = args.deep_view();
    proof {
        assert(forall|i: int| 0 <= i < args@.len() ==> #[trigger] dv[i] == args@[i]@);
    }
    if args.len() == 0 || !tok_is(&args[0], "name") {
        return SetOptionAction::Diagnostic;
    }
    if args.len() == 1 {
        return SetOptionAction::Diagnostic;
    }
    match decode_option(&args[1]) {
        Some(k) => {
            if args.len() >= 4 && tok_is(&args[2], "value") {
                *c = apply_keyed_exec(*c, k, &args[3]);
            }
            SetOptionAction::Handled
        },
        None => SetOptionAction::Forward(join_tokens("setoption", args)),
    }
}

} // verus!
