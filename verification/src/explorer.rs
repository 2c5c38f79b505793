//! The request to the opening statistics service: the dataset decides the
//! endpoint, and the query always carries the position encoding and the
//! fixed reply lookahead, plus, for the public dataset, one entry per
//! toggled rating band and time-control band (no toggles means no
//! restriction, not an empty result).

use vstd::prelude::*;
use crate::config::Config;

verus! {

/// The endpoint for the chosen dataset.
pub open spec fn explorer_base(master: bool) -> Seq<char> {
    if master {
        "https://explorer.lichess.ovh/master"@
    } else {
        "https://explorer.lichess.ovh/lichess"@
    }
}

/// One query entry present exactly when its toggle is set.
pub open spec fn opt_param(b: bool, k: Seq<char>, v: Seq<char>) -> Seq<(Seq<char>, Seq<char>)> {
    if b {
        seq![(k, v)]
    } else {
        Seq::empty()
    }
}

/// The full ordered query for a position under the configuration.
pub open spec fn explorer_params(fen: Seq<char>, c: Config) -> Seq<(Seq<char>, Seq<char>)> {
    let base = seq![("fen"@, fen), ("moves"@, "50"@)];
    if c.master_games {
        base
    } else {
        base + seq![("variant"@, "standard"@)] + opt_param(c.rating_1600, "ratings[]"@, "1600"@)
            + opt_param(c.rating_1800, "ratings[]"@, "1800"@) + opt_param(
            c.rating_2000,
            "ratings[]"@,
            "2000"@,
        ) + opt_param(c.rating_2200, "ratings[]"@, "2200"@) + opt_param(
            c.rating_2500,
            "ratings[]"@,
            "2500"@,
        ) + opt_param(c.bullet, "speeds[]"@, "bullet"@) + opt_param(c.blitz, "speeds[]"@, "blitz"@)
            + opt_param(c.rapid, "speeds[]"@, "rapid"@) + opt_param(
            c.classical,
            "speeds[]"@,
            "classical"@,
        )
    }
}

fn push_param(v: &mut Vec<(String, String)>, k: &str, val: &str)
    ensures
        final(v).deep_view() == old(v).deep_view() + seq![(k@, val@)],
{
    v.push((k.to_owned(), val.to_owned()));
    proof {
        assert(v.deep_view() =~= old(v).deep_view() + seq![(k@, val@)]);
        assert(v.deep_view() == final(v).deep_view());
    }
}

/// Build the statistics request: the endpoint for the configured dataset
/// and the ordered query entries.
#[verifier::rlimit(60)]
pub fn explorer_request(fen: &String, c: &Config) -> (r: (String, Vec<(String, String)>))
    ensures
        r.0@ == explorer_base(c.master_games),
        r.1.deep_view() == explorer_params(fen@, *c),
{
    let mut p: Vec<(String, String)> = Vec::new();
    p.push(("fen".to_owned(), fen.clone()));
    p.push(("moves".to_owned(), "50".to_owned()));
    let ghost base = seq![("fen"@, fen@), ("moves"@, "50"@)];
    proof {
        assert(p.deep_view() =~= base);
    }
    if c.master_games {
        return ("https://explorer.lichess.ovh/master".to_owned(), p);
    }
    push_param(&mut p, "variant", "standard");
    let ghost g0 = p.deep_view();
    if c.rating_1600 {
        push_param(&mut p, "ratings[]", "1600");
    }
    let ghost g1 = p.deep_view();
    proof {
        assert(g1 =~= g0 + opt_param(c.rating_1600, "ratings[]"@, "1600"@));
    }
    if c.rating_1800 {
        push_param(&mut p, "ratings[]", "1800");
    }
    let ghost g2 = p.deep_view();
    proof {
        assert(g2 =~= g1 + opt_param(c.rating_1800, "ratings[]"@, "1800"@));
    }
    if c.rating_2000 {
        push_param(&mut p, "ratings[]", "2000");
    }
    let ghost g3 = p.deep_view();
    proof {
        assert(g3 =~= g2 + opt_param(c.rating_2000, "ratings[]"@, "2000"@));
    }
    if c.rating_2200 {
        push_param(&mut p, "ratings[]", "2200");
    }
    let ghost g4 = p.deep_view();
    proof {
        assert(g4 =~= g3 + opt_param(c.rating_2200, "ratings[]"@, "2200"@));
    }
    if c.rating_2500 {
        push_param(&mut p, "ratings[]", "2500");
    }
    let ghost g5 = p.deep_view();
    proof {
        assert(g5 =~= g4 + opt_param(c.rating_2500, "ratings[]"@, "2500"@));
    }
    if c.bullet {
        push_param(&mut p, "speeds[]", "bullet");
    }
    let ghost g6 = p.deep_view();
    proof {
        assert(g6 =~= g5 + opt_param(c.bullet, "speeds[]"@, "bullet"@));
    }
    if c.blitz {
        push_param(&mut p, "speeds[]", "blitz");
    }
    let ghost g7 = p.deep_view();
    proof {
        assert(g7 =~= g6 + opt_param(c.blitz, "speeds[]"@, "blitz"@));
    }
    if c.rapid {
        push_param(&mut p, "speeds[]", "rapid");
    }
    let ghost g8 = p.deep_view();
    proof {
        assert(g8 =~= g7 + opt_param(c.rapid, "speeds[]"@, "rapid"@));
    }
    if c.classical {
        push_param(&mut p, "speeds[]", "classical");
    }
    let ghost g9 = p.deep_view();
    proof {
        assert(g9 =~= g8 + opt_param(c.classical, "speeds[]"@, "classical"@));
        assert(p.deep_view() =~= explorer_params(fen@, *c));
    }
    ("https://explorer.lichess.ovh/lichess".to_owned(), p)
}

} // verus!
