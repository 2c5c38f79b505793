//! Rewriting of castling moves from king-captures-rook notation to the
//! king-two-square-hop notation that the front-end protocol expects.

use vstd::prelude::*;

verus! {

/// The four king-captures-rook castling encodings map to their two-square-hop
/// forms; every other notation is left unchanged.
pub open spec fn fix_castle_spec(s: Seq<char>) -> Seq<char> {
    if s == "e1h1"@ {
        "e1g1"@
    } else if s == "e1a1"@ {
        "e1c1"@
    } else if s == "e8h8"@ {
        "e8g8"@
    } else if s == "e8a8"@ {
        "e8c8"@
    } else {
        s
    }
}

/// Rewrite a move notation, replacing the four castling encodings and
/// passing every other string through unchanged.
pub fn fix_castle(lichess_move: &String) -> (r: String)
    ensures
        r@ == fix_castle_spec(lichess_move@),
{
    if *lichess_move == "e1h1".to_owned() {
        "e1g1".to_owned()
    } else if *lichess_move == "e1a1".to_owned() {
        "e1c1".to_owned()
    } else if *lichess_move == "e8h8".to_owned() {
        "e8g8".to_owned()
    } else if *lichess_move == "e8a8".to_owned() {
        "e8c8".to_owned()
    } else {
        lichess_move.clone()
    }
}

/// The rewrite is idempotent: applying it to its own output changes nothing.
pub proof fn lemma_fix_castle_idempotent(s: Seq<char>)
    ensures
        fix_castle_spec(fix_castle_spec(s)) == fix_castle_spec(s),
{
    reveal_strlit("e1h1");
    reveal_strlit("e1g1");
    reveal_strlit("e1a1");
    reveal_strlit("e1c1");
    reveal_strlit("e8h8");
    reveal_strlit("e8g8");
    reveal_strlit("e8a8");
    reveal_strlit("e8c8");
}

/// The rewrite is the identity away from the four castling encodings.
pub proof fn lemma_fix_castle_identity(s: Seq<char>)
    requires
        s != "e1h1"@,
        s != "e1a1"@,
        s != "e8h8"@,
        s != "e8a8"@,
    ensures
        fix_castle_spec(s) == s,
{
}

} // verus!
