//! The keyword tokenizer for a channel's free-text keyword field.
//!
//! The field is scanned character by character: a double quote toggles an
//! "inside quotes" flag, an unquoted space ends the current token, a
//! backslash is dropped outright, and every token is trimmed, with empty
//! tokens discarded. This is neither CSV nor shell-word splitting; the
//! scanner below is the definition.

use vstd::prelude::*;
use vstd::string::StrSliceExecFns;
use crate::strutil::{push_char, trim_spec, trim_str};

verus! {

/// Appends the trimmed token `cur` to `acc`, unless nothing of it survives
/// trimming.
pub open spec fn push_token(acc: Seq<Seq<char>>, cur: Seq<char>) -> Seq<Seq<char>> {
    if trim_spec(cur).len() > 0 {
        acc.push(trim_spec(cur))
    } else {
        acc
    }
}

/// The scanner, from position `i` with the quote flag, the token built so
/// far, and the tokens already emitted.
pub open spec fn scan_keywords(
    s: Seq<char>,
    i: int,
    in_quotes: bool,
    cur: Seq<char>,
    acc: Seq<Seq<char>>,
) -> Seq<Seq<char>>
    decreases s.len() - i,
{
    if i >= s.len() {
        if cur.len() > 0 {
            push_token(acc, cur)
        } else {
            acc
        }
    } else {
        let c = s[i];
        if c == '"' {
            scan_keywords(s, i + 1, !in_quotes, cur, acc)
        } else if c == ' ' && !in_quotes {
            if cur.len() > 0 {
                scan_keywords(s, i + 1, in_quotes, Seq::empty(), push_token(acc, cur))
            } else {
                scan_keywords(s, i + 1, in_quotes, cur, acc)
            }
        } else if c == '\\' {
            scan_keywords(s, i + 1, in_quotes, cur, acc)
        } else {
            scan_keywords(s, i + 1, in_quotes, cur.push(c), acc)
        }
    }
}

/// The tokens of a keyword field: what the scanner yields over the whole
/// string, starting outside quotes with nothing accumulated.
pub open spec fn keyword_tokens(s: Seq<char>) -> Seq<Seq<char>> {
    scan_keywords(s, 0, false, Seq::empty(), Seq::empty())
}

/// Splits a keyword field into its tokens.
pub fn parse_keywords(s: &str) -> (r: Vec<String>)
    ensures
        r.deep_view() == keyword_tokens(s@),
{
    let n: usize = s.unicode_len();
    let mut tags: Vec<String> = Vec::new();
    let mut cur: String = String::new();
    let mut in_quotes: bool = false;
    let mut i: usize = 0;
    proof {
        assert(tags.deep_view() =~= Seq::<Seq<char>>::empty());
    }
    while i < n
        invariant
            n == s@.len(),
            i <= n,
            scan_keywords(s@, i as int, in_quotes, cur@, tags.deep_view()) == keyword_tokens(s@),
        decreases n - i,
    {
        let ghost pre_cur = cur@;
        let ghost pre_tags = tags.deep_view();
        let ghost pre_i = i as int;
        let ghost pre_q = in_quotes;
        let c = s.get_char(i);
        if c == '"' {
            in_quotes = !in_quotes;
        } else if c == ' ' && !in_quotes {
            if !cur.as_str().is_empty() {
                let tok = trim_str(cur.as_str());
                if !tok.is_empty() {
                    let owned = tok.to_owned();
                    tags.push(owned);
                    proof {
                        assert(tags.deep_view() =~= push_token(pre_tags, pre_cur));
                    }
                }
                cur = String::new();
            }
        } else if c == '\\' {
            // dropped: a backslash has no escape meaning and is removed
        } else {
            push_char(&mut cur, c);
        }
        i += 1;
        proof {
            assert(scan_keywords(s@, pre_i, pre_q, pre_cur, pre_tags) == scan_keywords(
                s@,
                i as int,
                in_quotes,
                cur@,
                tags.deep_view(),
            ));
        }
    }
    if !cur.as_str().is_empty() {
        let ghost pre_tags = tags.deep_view();
        let tok = trim_str(cur.as_str());
        if !tok.is_empty() {
            let owned = tok.to_owned();
            tags.push(owned);
            proof {
                assert(tags.deep_view() =~= push_token(pre_tags, cur@));
            }
        }
    }
    tags
}

} // verus!
