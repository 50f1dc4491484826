//! Tokenization of an input line.
//!
//! A line is split into whitespace-delimited tokens; empty fields are
//! discarded, so every token is non-empty. Only ASCII whitespace counts
//! as a separator: treating non-ASCII whitespace as ordinary characters
//! is a deliberate policy of the grammar.

use vstd::prelude::*;
use vstd::string::StrSliceExecFns;

verus! {

/// The separators of the line grammar: ASCII whitespace only.
pub open spec fn is_space(c: char) -> bool {
    c == ' ' || c == '\t' || c == '\n' || c == '\u{c}' || c == '\r'
}

/// ASCII case folding to upper case; any other character is untouched.
pub open spec fn upper_char(c: char) -> char {
    if 97 <= c as u32 && c as u32 <= 122 {
        (((c as u32) - 32) as u8) as char
    } else {
        c
    }
}

/// A whole sequence of characters folded to ASCII upper case.
pub open spec fn upper_seq(s: Seq<char>) -> Seq<char> {
    s.map_values(|c: char| upper_char(c))
}

/// The tokens of `s`, given a partial token `cur` accumulated so far.
pub open spec fn split_tokens(s: Seq<char>, cur: Seq<char>) -> Seq<Seq<char>>
    decreases s.len(),
{
    if s.len() == 0 {
        if cur.len() == 0 {
            Seq::empty()
        } else {
            seq![cur]
        }
    } else if is_space(s[0]) {
        if cur.len() == 0 {
            split_tokens(s.drop_first(), Seq::empty())
        } else {
            seq![cur] + split_tokens(s.drop_first(), Seq::empty())
        }
    } else {
        split_tokens(s.drop_first(), cur.push(s[0]))
    }
}

/// The whitespace-delimited tokens of a line, in order, empty fields
/// discarded.
pub open spec fn tokens_of(s: Seq<char>) -> Seq<Seq<char>> {
    split_tokens(s, Seq::empty())
}

/// The view of each string in a sequence of tokens.
pub open spec fn views_of(toks: Seq<String>) -> Seq<Seq<char>> {
    toks.map_values(|t: String| t@)
}

/// Splits a line into its whitespace-delimited tokens, discarding empty
/// fields, exactly as [`tokens_of`] describes.
pub fn tokenize(s: &str) -> (toks: Vec<String>)
    ensures
        views_of(toks@) == tokens_of(s@),
{
    let n = s.unicode_len();
    let mut toks: Vec<String> = Vec::new();
    let mut i: usize = 0;
    proof {
        assert(s@.skip(0) =~= s@);
    }
    while i < n
        invariant
            n == s@.len(),
            i <= n,
            views_of(toks@) + split_tokens(s@.skip(i as int), Seq::empty()) == tokens_of(s@),
        decreases n - i,
    {
        let c = s.get_char(i);
        if is_space_char(c) {
            proof {
                assert(s@.skip(i as int)[0] == s@[i as int]);
                assert(s@.skip(i as int).drop_first() =~= s@.skip(i as int + 1));
            }
            i = i + 1;
        } else {
            let start = i;
            let mut j = i;
            proof {
                assert(s@.subrange(start as int, start as int) =~= Seq::<char>::empty());
            }
            while j < n
                invariant
                    n == s@.len(),
                    start <= j <= n,
                    start < n,
                    !is_space(s@[start as int]),
                    views_of(toks@) + split_tokens(
                        s@.skip(j as int),
                        s@.subrange(start as int, j as int),
                    ) == tokens_of(s@),
                ensures
                    start <= j <= n,
                    j == n || is_space(s@[j as int]),
                    views_of(toks@) + split_tokens(
                        s@.skip(j as int),
                        s@.subrange(start as int, j as int),
                    ) == tokens_of(s@),
                decreases n - j,
            {
                let cj = s.get_char(j);
                if is_space_char(cj) {
                    break;
                }
                proof {
                    assert(s@.skip(j as int)[0] == s@[j as int]);
                    assert(s@.skip(j as int).drop_first() =~= s@.skip(j as int + 1));
                    assert(s@.subrange(start as int, j as int).push(s@[j as int]) =~= s@.subrange(
                        start as int,
                        j as int + 1,
                    ));
                }
                j = j + 1;
            }
            let tok = s.substring_char(start, j).to_owned();
            proof {
                let cur = s@.subrange(start as int, j as int);
                assert(j > start) by {
                    if j == start {
                        assert(is_space(s@[start as int]));
                    }
                }
                assert(cur.len() > 0);
                assert(views_of(toks@.push(tok)) =~= views_of(toks@) + seq![cur]);
                if j == n {
                    assert(s@.skip(j as int) =~= Seq::<char>::empty());
                    assert(split_tokens(s@.skip(j as int), cur) == seq![cur]);
                    assert(views_of(toks@.push(tok)) + split_tokens(
                        s@.skip(j as int),
                        Seq::empty(),
                    ) =~= views_of(toks@) + split_tokens(s@.skip(j as int), cur));
                } else {
                    assert(s@.skip(j as int)[0] == s@[j as int]);
                    assert(split_tokens(s@.skip(j as int), cur) == seq![cur] + split_tokens(
                        s@.skip(j as int).drop_first(),
                        Seq::empty(),
                    ));
                    assert(split_tokens(s@.skip(j as int), Seq::empty()) == split_tokens(
                        s@.skip(j as int).drop_first(),
                        Seq::empty(),
                    ));
                    assert(views_of(toks@.push(tok)) + split_tokens(
                        s@.skip(j as int),
                        Seq::empty(),
                    ) =~= views_of(toks@) + (seq![cur] + split_tokens(
                        s@.skip(j as int).drop_first(),
                        Seq::empty(),
                    )));
                }
            }
            toks.push(tok);
            i = j;
        }
    }
    proof {
        assert(s@.skip(n as int) =~= Seq::<char>::empty());
        assert(views_of(toks@) + split_tokens(Seq::<char>::empty(), Seq::<char>::empty())
            =~= views_of(toks@));
    }
    toks
}

fn is_space_char(c: char) -> (b: bool)
    ensures
        b == is_space(c),
{
    c == ' ' || c == '\t' || c == '\n' || c == '\u{c}' || c == '\r'
}

/// Compares a token against a pattern: returns whether the token,
/// folded to ASCII upper case, equals the pattern exactly.
pub fn matches_upper(a: &str, b: &str) -> (r: bool)
    ensures
        r == (upper_seq(a@) == b@),
{
    let an = a.unicode_len();
    let bn = b.unicode_len();
    if an != bn {
        proof {
            assert(upper_seq(a@).len() == a@.len());
        }
        return false;
    }
    let mut k: usize = 0;
    while k < an
        invariant
            an == a@.len(),
            an == b@.len(),
            k <= an,
            forall|m: int| 0 <= m < k ==> upper_char(a@[m]) == b@[m],
        decreases an - k,
    {
        let ca = upper_char_exec(a.get_char(k));
        let cb = b.get_char(k);
        if ca != cb {
            proof {
                assert(upper_seq(a@)[k as int] == upper_char(a@[k as int]));
            }
            return false;
        }
        k = k + 1;
    }
    proof {
        assert(upper_seq(a@) =~= b@);
    }
    true
}

/// Every token that tokenization produces is non-empty: empty fields
/// are discarded by the splitter.
pub proof fn lemma_tokens_nonempty(s: Seq<char>)
    ensures
        forall|i: int| 0 <= i < tokens_of(s).len() ==> #[trigger] tokens_of(s)[i].len() > 0,
{
    lemma_split_tokens_nonempty(s, Seq::empty());
}

proof fn lemma_split_tokens_nonempty(s: Seq<char>, cur: Seq<char>)
    ensures
        forall|i: int|
            0 <= i < split_tokens(s, cur).len() ==> #[trigger] split_tokens(s, cur)[i].len() > 0,
    decreases s.len(),
{
    if s.len() == 0 {
        if cur.len() != 0 {
            assert(split_tokens(s, cur) == seq![cur]);
            assert(split_tokens(s, cur)[0] == cur);
        }
    } else if is_space(s[0]) {
        lemma_split_tokens_nonempty(s.drop_first(), Seq::empty());
        let rest = split_tokens(s.drop_first(), Seq::empty());
        if cur.len() != 0 {
            assert forall|i: int| 0 <= i < split_tokens(s, cur).len() implies #[trigger] split_tokens(
                s,
                cur,
            )[i].len() > 0 by {
                if i > 0 {
                    assert(split_tokens(s, cur)[i] == rest[i - 1]);
                } else {
                    assert(split_tokens(s, cur)[0] == cur);
                }
            }
        } else {
            assert forall|i: int| 0 <= i < split_tokens(s, cur).len() implies #[trigger] split_tokens(
                s,
                cur,
            )[i].len() > 0 by {
                assert(split_tokens(s, cur)[i] == rest[i]);
            }
        }
    } else {
        lemma_split_tokens_nonempty(s.drop_first(), cur.push(s[0]));
        let rest = split_tokens(s.drop_first(), cur.push(s[0]));
        assert forall|i: int| 0 <= i < split_tokens(s, cur).len() implies #[trigger] split_tokens(
            s,
            cur,
        )[i].len() > 0 by {
            assert(split_tokens(s, cur)[i] == rest[i]);
        }
    }
}

/// A line of nothing but separators — an empty line included — has no
/// tokens.
pub proof fn lemma_blank_line_no_tokens(s: Seq<char>)
    requires
        forall|i: int| 0 <= i < s.len() ==> is_space(#[trigger] s[i]),
    ensures
        tokens_of(s) == Seq::<Seq<char>>::empty(),
    decreases s.len(),
{
    if s.len() > 0 {
        assert(is_space(s[0]));
        assert(forall|i: int|
            0 <= i < s.drop_first().len() ==> is_space(#[trigger] s.drop_first()[i]));
        lemma_blank_line_no_tokens(s.drop_first());
    }
}

fn upper_char_exec(c: char) -> (r: char)
    ensures
        r == upper_char(c),
{
    let u = c as u32;
    if 97 <= u && u <= 122 {
        ((u - 32) as u8) as char
    } else {
        c
    }
}

} // verus!
