//! The scan: one pass over the text from left to right, which at each
//! position takes the first rule of the table that matches there, and moves
//! on by one character where none does.

use vstd::prelude::*;
use vstd::string::StrSliceExecFns;
use crate::pattern::chars_of;
use crate::rules::Rule;
use crate::token::models;
use crate::token::Token;
use crate::token::TokenModel;

verus! {

/// The index of the first rule, from index `r` on, whose pattern has a
/// non-empty match at position `i`.
pub open spec fn first_rule(rules: Seq<Rule>, s: Seq<char>, i: int, r: int) -> Option<int>
    decreases rules.len() - r,
{
    if r < 0 || r >= rules.len() {
        None
    } else if rules[r].pattern.longest(s, i) > i {
        Some(r)
    } else {
        first_rule(rules, s, i, r + 1)
    }
}

/// The rule that `first_rule` picks is a rule of the table, none before it
/// from `from` on matches, and its longest match is not empty.
pub proof fn lemma_first_rule(rules: Seq<Rule>, s: Seq<char>, i: int, from: int)
    requires
        0 <= from,
    ensures
        match first_rule(rules, s, i, from) {
            Some(r) => from <= r < rules.len() && rules[r].pattern.longest(s, i) > i && forall|
                q: int,
            |
                from <= q < r ==> (#[trigger] rules[q]).pattern.longest(s, i) <= i,
            None => forall|q: int|
                from <= q < rules.len() ==> (#[trigger] rules[q]).pattern.longest(s, i) <= i,
        },
    decreases rules.len() - from,
{
    if from < rules.len() && !(rules[from].pattern.longest(s, i) > i) {
        lemma_first_rule(rules, s, i, from + 1);
    }
}

/// The tokens that a scan of `s` yields from position `i` on.
///
/// Where a rule matches, the scan goes on behind the match, with the rule's
/// token if the rule could make one of the matched text and with nothing if
/// it could not. Where no rule matches, it goes on one character further.
pub open spec fn scan(rules: Seq<Rule>, s: Seq<char>, i: int) -> Seq<TokenModel>
    decreases s.len() - i,
    via scan_moves_on
{
    if i < 0 || i >= s.len() {
        Seq::empty()
    } else {
        match first_rule(rules, s, i, 0) {
            None => scan(rules, s, i + 1),
            Some(r) => {
                let j = rules[r].pattern.longest(s, i);
                match rules[r].make.build(s.subrange(i, j)) {
                    Some(t) => seq![t] + scan(rules, s, j),
                    None => scan(rules, s, j),
                }
            },
        }
    }
}

/// The scan ends: the match of the rule that `first_rule` picks is not
/// empty and does not leave the text.
#[via_fn]
proof fn scan_moves_on(rules: Seq<Rule>, s: Seq<char>, i: int) {
    if 0 <= i < s.len() {
        lemma_first_rule(rules, s, i, 0);
        match first_rule(rules, s, i, 0) {
            Some(r) => {
                rules[r].pattern.lemma_longest_bounds(s, i);
            },
            None => {},
        }
    }
}

/// Finds the first rule of the table that has a non-empty match at `at`,
/// and the end of its longest match there.
pub fn first_match(table: &Vec<Rule>, chars: &Vec<char>, at: usize) -> (found: Option<
    (usize, usize),
>)
    ensures
        match found {
            Some((r, end)) => r < table@.len() && first_rule(table@, chars@, at as int, 0) == Some(
                r as int,
            ) && end == table@[r as int].pattern.longest(chars@, at as int) && end > at,
            None => first_rule(table@, chars@, at as int, 0) is None,
        },
{
    let mut r: usize = 0;
    while r < table.len()
        invariant
            r <= table@.len(),
            first_rule(table@, chars@, at as int, 0) == first_rule(
                table@,
                chars@,
                at as int,
                r as int,
            ),
        decreases table@.len() - r,
    {
        let end = table[r].pattern.longest_match(chars, at);
        if end > at {
            return Some((r, end));
        }
        r += 1;
    }
    None
}

/// Scans `text` with the rules of `table` and returns the tokens found, in
/// the order of their positions.
pub fn tokenize(table: &Vec<Rule>, text: &str) -> (tokens: Vec<Token>)
    ensures
        models(tokens@) == scan(table@, text@, 0),
{
    let chars = chars_of(text);
    let n = chars.len();
    let mut tokens: Vec<Token> = Vec::new();
    let mut i: usize = 0;
    assert(models(tokens@) =~= Seq::<TokenModel>::empty());
    while i < n
        invariant
            i <= n,
            n == chars@.len(),
            chars@ == text@,
            models(tokens@) + scan(table@, text@, i as int) == scan(table@, text@, 0),
        decreases n - i,
    {
        match first_match(table, &chars, i) {
            None => {
                i += 1;
            },
            Some((r, end)) => {
                proof {
                    table@[r as int].pattern.lemma_longest_bounds(chars@, i as int);
                }
                let made = table[r].make.make(text.substring_char(i, end));
                match made {
                    Some(t) => {
                        let ghost before = tokens@;
                        let ghost m = t@;
                        tokens.push(t);
                        proof {
                            assert(models(tokens@) =~= models(before).push(m));
                            assert(models(before).push(m) + scan(table@, text@, end as int)
                                =~= models(before) + (seq![m] + scan(table@, text@, end as int)));
                        }
                    },
                    None => {},
                }
                i = end;
            },
        }
    }
    assert(scan(table@, text@, n as int) =~= Seq::<TokenModel>::empty());
    assert(models(tokens@) + Seq::<TokenModel>::empty() =~= models(tokens@));
    tokens
}

} // verus!
