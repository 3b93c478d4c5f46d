//! Whitespace tokenization of a submitted command line.
//!
//! A line is split on runs of whitespace into tokens; the first token names
//! the program to run and the rest are its arguments. A line with no tokens
//! (empty or all whitespace) runs nothing.

use vstd::prelude::*;

verus! {

/// The characters with the Unicode `White_Space` property, the same set that
/// `char::is_whitespace` recognizes.
pub open spec fn is_space(c: char) -> bool {
    c == ' ' || c == '\t' || c == '\n' || c == '\r' || c == '\u{b}' || c == '\u{c}'
        || c == '\u{85}' || c == '\u{a0}' || c == '\u{1680}' || c == '\u{2000}'
        || c == '\u{2001}' || c == '\u{2002}' || c == '\u{2003}' || c == '\u{2004}'
        || c == '\u{2005}' || c == '\u{2006}' || c == '\u{2007}' || c == '\u{2008}'
        || c == '\u{2009}' || c == '\u{200a}' || c == '\u{2028}' || c == '\u{2029}'
        || c == '\u{202f}' || c == '\u{205f}' || c == '\u{3000}'
}

/// Decides whether `c` separates tokens.
pub fn is_space_char(c: char) -> (r: bool)
    ensures
        r == is_space(c),
{
    c == ' ' || c == '\t' || c == '\n' || c == '\r' || c == '\u{b}' || c == '\u{c}'
        || c == '\u{85}' || c == '\u{a0}' || c == '\u{1680}' || c == '\u{2000}'
        || c == '\u{2001}' || c == '\u{2002}' || c == '\u{2003}' || c == '\u{2004}'
        || c == '\u{2005}' || c == '\u{2006}' || c == '\u{2007}' || c == '\u{2008}'
        || c == '\u{2009}' || c == '\u{200a}' || c == '\u{2028}' || c == '\u{2029}'
        || c == '\u{202f}' || c == '\u{205f}' || c == '\u{3000}'
}

/// The tokens of the suffix `s`, given that the characters of the token
/// currently being read are `cur`. Scans one character at a time: whitespace
/// closes the current token (if any), anything else extends it.
pub open spec fn split_from(s: Seq<char>, cur: Seq<char>) -> Seq<Seq<char>>
    decreases s.len(),
{
    if s.len() == 0 {
        if cur.len() == 0 {
            Seq::empty()
        } else {
            seq![cur]
        }
    } else if is_space(s[0]) {
        if cur.len() == 0 {
            split_from(s.skip(1), Seq::empty())
        } else {
            seq![cur] + split_from(s.skip(1), Seq::empty())
        }
    } else {
        split_from(s.skip(1), cur.push(s[0]))
    }
}

/// The whitespace-separated tokens of a whole line.
pub open spec fn tokens_of(s: Seq<char>) -> Seq<Seq<char>> {
    split_from(s, Seq::empty())
}

/// The character sequences held by a vector of token vectors.
pub open spec fn views_of(ts: Seq<Vec<char>>) -> Seq<Seq<char>> {
    ts.map_values(|t: Vec<char>| t@)
}

/// Splits `line` on runs of whitespace into its tokens, in order, with no
/// empty token and no leading or trailing whitespace kept.
pub fn tokenize(line: &Vec<char>) -> (toks: Vec<Vec<char>>)
    ensures
        views_of(toks@) =~~= tokens_of(line@),
{
    let mut toks: Vec<Vec<char>> = Vec::new();
    let mut cur: Vec<char> = Vec::new();
    let mut i: usize = 0;
    proof {
        assert(line@.skip(0) =~= line@);
        assert(views_of(toks@) + split_from(line@, cur@) =~~= split_from(line@, Seq::empty()));
    }
    while i < line.len()
        invariant
            i <= line.len(),
            tokens_of(line@) =~~= views_of(toks@) + split_from(line@.skip(i as int), cur@),
        decreases line.len() - i,
    {
        let ghost rest = line@.skip(i as int);
        proof {
            assert(rest.len() == line@.len() - i);
            assert(rest.skip(1) =~= line@.skip(i as int + 1));
            assert(rest[0] == line@[i as int]);
        }
        let c = line[i];
        if is_space_char(c) {
            if cur.len() > 0 {
                let ghost prev = toks@;
                let ghost curv = cur@;
                toks.push(cur);
                cur = Vec::new();
                proof {
                    assert(cur@ =~= Seq::<char>::empty());
                    assert(split_from(rest, curv) == seq![curv] + split_from(rest.skip(1), Seq::empty()));
                    assert(views_of(toks@) =~~= views_of(prev) + seq![curv]);
                    assert(views_of(toks@) + split_from(line@.skip(i as int + 1), cur@) =~~= views_of(
                        prev,
                    ) + split_from(rest, curv));
                }
            } else {
                proof {
                    assert(cur@ =~= Seq::<char>::empty());
                    assert(split_from(rest, cur@) == split_from(rest.skip(1), cur@));
                }
            }
        } else {
            let ghost curv = cur@;
            cur.push(c);
            proof {
                assert(split_from(rest, curv) == split_from(rest.skip(1), curv.push(rest[0])));
                assert(cur@ == curv.push(c));
            }
        }
        i = i + 1;
    }
    proof {
        assert(line@.skip(line.len() as int) =~= Seq::<char>::empty());
    }
    if cur.len() > 0 {
        let ghost prev = toks@;
        let ghost curv = cur@;
        toks.push(cur);
        proof {
            assert(split_from(Seq::<char>::empty(), curv) == seq![curv]);
            assert(views_of(toks@) =~~= views_of(prev) + seq![curv]);
        }
    }
    toks
}

/// A line made of whitespace alone (the empty line included) has no tokens,
/// so submitting it runs nothing.
pub proof fn lemma_whitespace_only_no_tokens(s: Seq<char>)
    requires
        forall|j: int| 0 <= j < s.len() ==> is_space(#[trigger] s[j]),
    ensures
        tokens_of(s).len() == 0,
{
    lemma_split_from_all_space(s);
}

proof fn lemma_split_from_all_space(s: Seq<char>)
    requires
        forall|j: int| 0 <= j < s.len() ==> is_space(#[trigger] s[j]),
    ensures
        split_from(s, Seq::empty()).len() == 0,
    decreases s.len(),
{
    if s.len() > 0 {
        lemma_split_from_all_space(s.skip(1));
    }
}

/// Conversely, a line holding any non-whitespace character has a token, so
/// submitting it attempts a run.
pub proof fn lemma_nonspace_gives_token(s: Seq<char>)
    requires
        exists|j: int| 0 <= j < s.len() && !is_space(#[trigger] s[j]),
    ensures
        tokens_of(s).len() > 0,
{
    lemma_split_from_nonspace(s, Seq::empty());
}

proof fn lemma_split_from_nonspace(s: Seq<char>, cur: Seq<char>)
    requires
        cur.len() > 0 || exists|j: int| 0 <= j < s.len() && !is_space(#[trigger] s[j]),
    ensures
        split_from(s, cur).len() > 0,
    decreases s.len(),
{
    if s.len() == 0 {
    } else if is_space(s[0]) {
        if cur.len() == 0 {
            let j = choose|j: int| 0 <= j < s.len() && !is_space(#[trigger] s[j]);
            assert(s.skip(1)[j - 1] == s[j]);
            lemma_split_from_nonspace(s.skip(1), Seq::empty());
        }
    } else {
        lemma_split_from_nonspace(s.skip(1), cur.push(s[0]));
    }
}

} // verus!
