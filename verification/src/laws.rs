//! What holds of every scan and every record, stated over the same
//! functions that the contracts of the library use.

use vstd::prelude::*;
use crate::lexer::first_rule;
use crate::lexer::lemma_first_rule;
use crate::lexer::scan;
use crate::parse::lowercased;
use crate::parse::parsed;
use crate::record::last_of;
use crate::record::record_of;
use crate::record::RecordModel;
use crate::number::all_digits;
use crate::pattern::cut;
use crate::pattern::is_digit;
use crate::rules::ch;
use crate::rules::digit;
use crate::rules::rules;
use crate::rules::then;
use crate::rules::Rule;
use crate::token::Category;
use crate::token::TokenModel;

verus! {

/// The record of a file name is a function of the file name: two records
/// that are both what `parse` promises for one name are equal.
pub proof fn law_same_name_same_record(raw: Seq<char>, a: RecordModel, b: RecordModel)
    ensures
        a == parsed(raw, lowercased(raw)) && b == parsed(raw, lowercased(raw)) ==> a == b,
{
}

/// Case does not matter to what is detected: two file names with the same
/// lowercase form have the same title and the same value in every detected
/// field. Only the file name kept in the record tells them apart.
pub proof fn law_same_lowercase_same_fields(a: Seq<char>, b: Seq<char>)
    ensures
        lowercased(a) == lowercased(b) ==> parsed(a, lowercased(a)) == (RecordModel {
            file_name: a,
            ..parsed(b, lowercased(b))
        }),
{
}

/// The last token of a category in two sequences put together is the last
/// one of the second sequence, and that of the first only where the second
/// has none.
pub proof fn lemma_last_of_concat(a: Seq<TokenModel>, b: Seq<TokenModel>, c: Category)
    ensures
        last_of(a + b, c) == (if last_of(b, c) is Some {
            last_of(b, c)
        } else {
            last_of(a, c)
        }),
    decreases b.len(),
{
    if b.len() == 0 {
        assert(a + b =~= a);
    } else {
        assert((a + b).drop_last() =~= a + b.drop_last());
        assert((a + b).last() == b.last());
        if b.last().category() != c {
            lemma_last_of_concat(a, b.drop_last(), c);
        }
    }
}

/// A sequence without a token of category `c` has no last token of it.
pub proof fn lemma_last_of_none(tokens: Seq<TokenModel>, c: Category)
    requires
        forall|k: int| 0 <= k < tokens.len() ==> (#[trigger] tokens[k]).category() != c,
    ensures
        last_of(tokens, c) is None,
    decreases tokens.len(),
{
    if tokens.len() > 0 {
        assert(tokens.last() == tokens[tokens.len() - 1]);
        lemma_last_of_none(tokens.drop_last(), c);
    }
}

/// Last match wins, for tokens: where no token behind position `k` has the
/// category of the token at `k`, that token is the last of its category,
/// and the record holds its value.
pub proof fn law_last_match_wins(
    file_name: Seq<char>,
    title: Seq<char>,
    tokens: Seq<TokenModel>,
    k: int,
)
    requires
        0 <= k < tokens.len(),
        forall|m: int| k < m < tokens.len() ==> (#[trigger] tokens[m]).category() != tokens[k].category(),
    ensures
        last_of(tokens, tokens[k].category()) == Some(tokens[k]),
        record_of(file_name, title, tokens) == record_of(file_name, title, tokens).with(tokens[k]),
    decreases tokens.len(),
{
    if k < tokens.len() - 1 {
        assert(tokens.last() == tokens[tokens.len() - 1]);
        law_last_match_wins(file_name, title, tokens.drop_last(), k);
    }
}

/// Last match wins, for positions: where a rule matches at position `i` and
/// makes a token, that token is the scan's last of its category only if the
/// scan finds no token of the category behind the match; a token found
/// there takes its place.
pub proof fn law_later_match_wins(rules: Seq<Rule>, s: Seq<char>, i: int)
    requires
        0 <= i < s.len(),
    ensures
        match first_rule(rules, s, i, 0) {
            Some(r) => {
                let j = rules[r].pattern.longest(s, i);
                match rules[r].make.build(s.subrange(i, j)) {
                    Some(t) => i < j <= s.len() && scan(rules, s, i) == seq![t] + scan(rules, s, j)
                        && last_of(scan(rules, s, i), t.category()) == (if last_of(
                        scan(rules, s, j),
                        t.category(),
                    ) is Some {
                        last_of(scan(rules, s, j), t.category())
                    } else {
                        Some(t)
                    }),
                    None => scan(rules, s, i) == scan(rules, s, j),
                }
            },
            None => scan(rules, s, i) == scan(rules, s, i + 1),
        },
{
    lemma_first_rule(rules, s, i, 0);
    match first_rule(rules, s, i, 0) {
        Some(r) => {
            let j = rules[r].pattern.longest(s, i);
            rules[r].pattern.lemma_longest_bounds(s, i);
            match rules[r].make.build(s.subrange(i, j)) {
                Some(t) => {
                    lemma_last_of_concat(seq![t], scan(rules, s, j), t.category());
                    assert(seq![t].drop_last() =~= Seq::<TokenModel>::empty());
                    assert(seq![t].last() == t);
                },
                None => {},
            }
        },
        None => {},
    }
}

/// No token of category `c` comes out of a scan in which no rule of that
/// category makes a token of any text that it matches.
pub proof fn lemma_scan_without_category(rules: Seq<Rule>, s: Seq<char>, c: Category, i: int)
    requires
        forall|r: int, p: int, q: int|
            0 <= r < rules.len() && rules[r].make.category() == c && 0 <= p < q <= s.len()
                && #[trigger] rules[r].pattern.spans(s, p, q) ==> rules[r].make.build(
                s.subrange(p, q),
            ) is None,
    ensures
        forall|k: int|
            0 <= k < scan(rules, s, i).len() ==> (#[trigger] scan(rules, s, i)[k]).category() != c,
    decreases s.len() - i,
{
    if 0 <= i < s.len() {
        lemma_first_rule(rules, s, i, 0);
        match first_rule(rules, s, i, 0) {
            None => {
                lemma_scan_without_category(rules, s, c, i + 1);
            },
            Some(r) => {
                let j = rules[r].pattern.longest(s, i);
                rules[r].pattern.lemma_longest_bounds(s, i);
                lemma_scan_without_category(rules, s, c, j);
                assert(rules[r].pattern.spans(s, i, j));
            },
        }
    }
}

/// Absence: where no rule of category `c` matches a non-empty stretch
/// anywhere in the text, the scan yields no token of that category and the
/// record's field of that category is empty.
pub proof fn law_absent_without_match(
    rules: Seq<Rule>,
    s: Seq<char>,
    c: Category,
    file_name: Seq<char>,
    title: Seq<char>,
)
    requires
        forall|r: int, p: int, q: int|
            0 <= r < rules.len() && rules[r].make.category() == c && 0 <= p < q <= s.len()
                ==> !#[trigger] rules[r].pattern.spans(s, p, q),
    ensures
        last_of(scan(rules, s, 0), c) is None,
        !record_of(file_name, title, scan(rules, s, 0)).detected(c),
{
    lemma_scan_without_category(rules, s, c, 0);
    lemma_last_of_none(scan(rules, s, 0), c);
}

/// Of the rules of the pattern table only the last makes episode tokens, and
/// every text that it matches begins with a capital letter.
pub proof fn lemma_episode_rule(s: Seq<char>, r: int, p: int, q: int)
    requires
        0 <= r < rules().len(),
        rules()[r].make.category() == Category::Episode,
        rules()[r].pattern.spans(s, p, q),
    ensures
        0 <= p < q <= s.len(),
        s[p] == 'S',
{
    assert(rules().len() == 32);
    assert(r == 31);
    let k = choose|k: int|
        #[trigger] cut(k) && p <= k <= q && ch('S').spans(s, p, k) && then(
            digit(),
            then(digit(), then(ch('E'), then(digit(), digit()))),
        ).spans(s, k, q);
    assert(ch('S').spans(s, p, k));
}

/// The pattern table never yields an episode: its one episode rule reads
/// the whole match as a number, and no match of it is a run of digits.
pub proof fn law_episode_never_detected(raw: Seq<char>, normal: Seq<char>)
    ensures
        last_of(scan(rules(), normal, 0), Category::Episode) is None,
        parsed(raw, normal).episode is None,
{
    let s = normal;
    assert forall|r: int, p: int, q: int|
        0 <= r < rules().len() && rules()[r].make.category() == Category::Episode && 0 <= p < q
            <= s.len() && #[trigger] rules()[r].pattern.spans(s, p, q) implies rules()[r].make.build(
        s.subrange(p, q),
    ) is None by {
        lemma_episode_rule(s, r, p, q);
        let matched = s.subrange(p, q);
        assert(matched[0] == 'S');
        assert(!is_digit(matched[0]));
        assert(!all_digits(matched));
    }
    lemma_scan_without_category(rules(), s, Category::Episode, 0);
    lemma_last_of_none(scan(rules(), s, 0), Category::Episode);
}

} // verus!
