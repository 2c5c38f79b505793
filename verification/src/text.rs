//! Small text operations the protocol layer is specified over: token
//! comparison, ASCII-whitespace trimming, prefix tests, and the joins that
//! rebuild command lines from their tokens.

use vstd::prelude::*;

verus! {

/// Whether a token equals a literal, by view.
pub fn tok_is(t: &String, lit: &str) -> (r: bool)
    ensures
        r == (t@ == lit@),
{
    *t == lit.to_owned()
}

pub open spec fn is_ws(c: char) -> bool {
    c == ' ' || c == '\t' || c == '\r' || c == '\n'
}

pub open spec fn trim_start_spec(s: Seq<char>) -> Seq<char>
    decreases s.len(),
{
    if s.len() > 0 && is_ws(s[0]) {
        trim_start_spec(s.drop_first())
    } else {
        s
    }
}

pub open spec fn trim_end_spec(s: Seq<char>) -> Seq<char>
    decreases s.len(),
{
    if s.len() > 0 && is_ws(s.last()) {
        trim_end_spec(s.drop_last())
    } else {
        s
    }
}

/// The string with its leading and trailing ASCII whitespace removed.
pub open spec fn trim_spec(s: Seq<char>) -> Seq<char> {
    trim_end_spec(trim_start_spec(s))
}

fn is_ws_exec(c: char) -> (r: bool)
    ensures
        r == is_ws(c),
{
    c == ' ' || c == '\t' || c == '\r' || c == '\n'
}

/// Remove leading and trailing ASCII whitespace.
pub fn trim_line(s: &str) -> (r: String)
    ensures
        r@ == trim_spec(s@),
{
    let n = s.unicode_len();
    proof {
        assert(s@.subrange(0, n as int) =~= s@);
    }
    let mut a: usize = 0;
    while a < n && is_ws_exec(s.get_char(a))
        invariant
            0 <= a <= n,
            n == s@.len(),
            trim_start_spec(s@) == trim_start_spec(s@.subrange(a as int, n as int)),
        decreases n - a,
    {
        proof {
            let t = s@.subrange(a as int, n as int);
            assert(t.drop_first() =~= s@.subrange(a + 1, n as int));
        }
        a = a + 1;
    }
    proof {
        let t = s@.subrange(a as int, n as int);
        assert(trim_start_spec(t) == t);
    }
    let mut b: usize = n;
    while b > a && is_ws_exec(s.get_char(b - 1))
        invariant
            0 <= a <= b <= n,
            n == s@.len(),
            trim_start_spec(s@) == s@.subrange(a as int, n as int),
            trim_end_spec(s@.subrange(a as int, n as int)) == trim_end_spec(
                s@.subrange(a as int, b as int),
            ),
        decreases b,
    {
        proof {
            let t = s@.subrange(a as int, b as int);
            assert(t.drop_last() =~= s@.subrange(a as int, b - 1));
            assert(t.last() == s@[b - 1]);
        }
        b = b - 1;
    }
    proof {
        let t = s@.subrange(a as int, b as int);
        assert(trim_end_spec(t) == t);
    }
    s.substring_char(a, b).to_owned()
}

/// Whether the line's trimmed form equals a literal, by view.
pub fn trimmed_is(line: &String, lit: &str) -> (r: bool)
    ensures
        r == (trim_spec(line@) == lit@),
{
    trim_line(line.as_str()) == lit.to_owned()
}

pub open spec fn starts_with_spec(s: Seq<char>, p: Seq<char>) -> bool {
    s.len() >= p.len() && s.subrange(0, p.len() as int) == p
}

/// Whether the line starts with the given literal prefix, by view.
pub fn starts_with_lit(line: &String, lit: &str) -> (r: bool)
    ensures
        r == starts_with_spec(line@, lit@),
{
    let n = line.as_str().unicode_len();
    let p = lit.unicode_len();
    if n < p {
        false
    } else {
        let pre = line.as_str().substring_char(0, p);
        pre.to_owned() == lit.to_owned()
    }
}

/// Index just past the ASCII-whitespace-free word starting at `i`.
pub open spec fn word_end(s: Seq<char>, i: int) -> int
    decreases s.len() - i,
{
    if i < 0 || i >= s.len() || is_ws(s[i]) {
        i
    } else {
        word_end(s, i + 1)
    }
}

pub proof fn lemma_word_end_bounds(s: Seq<char>, i: int)
    requires
        0 <= i <= s.len(),
    ensures
        i <= word_end(s, i) <= s.len(),
        i < s.len() && !is_ws(s[i]) ==> word_end(s, i) > i,
    decreases s.len() - i,
{
    if i < s.len() && !is_ws(s[i]) {
        lemma_word_end_bounds(s, i + 1);
    }
}

/// The ASCII-whitespace-separated words of `s` from position `i` on.
pub open spec fn split_from(s: Seq<char>, i: int) -> Seq<Seq<char>>
    decreases s.len() - i,
    via split_from_decreases
{
    if i < 0 || i >= s.len() {
        Seq::empty()
    } else if is_ws(s[i]) {
        split_from(s, i + 1)
    } else {
        seq![s.subrange(i, word_end(s, i))] + split_from(s, word_end(s, i))
    }
}

#[via_fn]
proof fn split_from_decreases(s: Seq<char>, i: int) {
    if 0 <= i < s.len() && !is_ws(s[i]) {
        lemma_word_end_bounds(s, i);
    }
}

/// Split a line into its ASCII-whitespace-separated tokens.
pub fn tokenize(s: &str) -> (r: Vec<String>)
    ensures
        r.deep_view() == split_from(s@, 0),
{
    let n = s.unicode_len();
    let mut v: Vec<String> = Vec::new();
    let mut i: usize = 0;
    while i < n
        invariant
            0 <= i <= n,
            n == s@.len(),
            split_from(s@, 0) == v.deep_view() + split_from(s@, i as int),
        decreases n - i,
    {
        if is_ws_exec(s.get_char(i)) {
            i = i + 1;
        } else {
            let mut j = i + 1;
            while j < n && !is_ws_exec(s.get_char(j))
                invariant
                    i < j <= n,
                    n == s@.len(),
                    word_end(s@, i as int) == word_end(s@, j as int),
                decreases n - j,
            {
                j = j + 1;
            }
            proof {
                assert(word_end(s@, j as int) == j);
                lemma_word_end_bounds(s@, i as int);
            }
            let w = s.substring_char(i, j).to_owned();
            let ghost dvold = v.deep_view();
            v.push(w);
            proof {
                assert(v.deep_view() =~= dvold + seq![w@]);
                assert(split_from(s@, i as int) == seq![s@.subrange(i as int, j as int)]
                    + split_from(s@, j as int));
                assert(split_from(s@, 0) =~= v.deep_view() + split_from(s@, j as int));
            }
            i = j;
        }
    }
    proof {
        assert(split_from(s@, n as int) =~= Seq::<Seq<char>>::empty());
        assert(split_from(s@, 0) =~= v.deep_view());
    }
    v
}

/// Left fold that joins tokens onto a prefix, one space before each token.
pub open spec fn joined_with_spaces(prefix: Seq<char>, toks: Seq<Seq<char>>) -> Seq<char>
    decreases toks.len(),
{
    if toks.len() == 0 {
        prefix
    } else {
        joined_with_spaces(prefix + " "@ + toks.first(), toks.drop_first())
    }
}

/// Rebuild a command line: the command word followed by each token with a
/// space before it.
pub fn join_tokens(prefix: &str, args: &Vec<String>) -> (r: String)
    ensures
        r@ == joined_with_spaces(prefix@, args.deep_view()),
{
    let ghost dv = args.deep_view();
    let mut acc: String = prefix.to_owned();
    let n = args.len();
    proof {
        assert(dv.len() == n) by {
            assert(forall|i: int| 0 <= i < n ==> dv[i] == args@[i]@);
        }
    }
    proof {
        assert(dv.skip(0) =~= dv);
    }
    let mut i: usize = 0;
    while i < n
        invariant
            0 <= i <= n,
            n == args@.len(),
            dv == args.deep_view(),
            dv.len() == n,
            forall|j: int| 0 <= j < n ==> #[trigger] dv[j] == args@[j]@,
            joined_with_spaces(prefix@, dv) == joined_with_spaces(acc@, dv.skip(i as int)),
        decreases n - i,
    {
        acc.append(" ");
        acc.append(args[i].as_str());
        proof {
            let rest = dv.skip(i as int);
            assert(rest.first() == dv[i as int]);
            assert(rest.drop_first() =~= dv.skip(i + 1));
        }
        i = i + 1;
    }
    proof {
        assert(dv.skip(n as int) =~= Seq::<Seq<char>>::empty());
    }
    acc
}

/// Left fold that appends each token and then one space, as the position
/// handler stores a position encoding.
pub open spec fn joined_trailing(acc: Seq<char>, toks: Seq<Seq<char>>) -> Seq<char>
    decreases toks.len(),
{
    if toks.len() == 0 {
        acc
    } else {
        joined_trailing(acc + toks.first() + " "@, toks.drop_first())
    }
}

/// Join the tokens from `from` on, each followed by a space.
pub fn join_trailing_from(args: &Vec<String>, from: usize) -> (r: String)
    requires
        from <= args@.len(),
    ensures
        r@ == joined_trailing(Seq::<char>::empty(), args.deep_view().skip(from as int)),
{
    let ghost dv = args.deep_view();
    let mut acc = String::new();
    let n = args.len();
    proof {
        assert(dv.len() == n) by {
            assert(forall|i: int| 0 <= i < n ==> dv[i] == args@[i]@);
        }
    }
    let mut i: usize = from;
    while i < n
        invariant
            from <= i <= n,
            n == args@.len(),
            dv == args.deep_view(),
            dv.len() == n,
            forall|j: int| 0 <= j < n ==> #[trigger] dv[j] == args@[j]@,
            joined_trailing(Seq::<char>::empty(), dv.skip(from as int)) == joined_trailing(
                acc@,
                dv.skip(i as int),
            ),
        decreases n - i,
    {
        acc.append(args[i].as_str());
        acc.append(" ");
        proof {
            let rest = dv.skip(i as int);
            assert(rest.first() == dv[i as int]);
            assert(rest.drop_first() =~= dv.skip(i + 1));
        }
        i = i + 1;
    }
    proof {
        assert(dv.skip(n as int) =~= Seq::<Seq<char>>::empty());
    }
    acc
}

} // verus!
