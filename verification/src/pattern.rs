//! Patterns over characters and a matcher that finds, for one pattern and one
//! start position, the longest stretch of text that the pattern covers.

use vstd::prelude::*;
use vstd::string::StrSliceExecFns;

verus! {

/// Whether `c` is one of the ten decimal digits.
pub open spec fn is_digit(c: char) -> bool {
    '0' <= c && c <= '9'
}

/// Whether `c` is a letter of the basic Latin alphabet, a decimal digit or an
/// underscore.
pub open spec fn is_word(c: char) -> bool {
    ('a' <= c && c <= 'z') || ('A' <= c && c <= 'Z') || is_digit(c) || c == '_'
}

/// Names a position at which a match is cut in two. It holds of every
/// position, and serves to pick the position in a proof.
pub open spec fn cut(k: int) -> bool {
    true
}

/// The characters that one position of a pattern accepts.
#[derive(Clone, Copy, Debug, PartialEq, Eq, Structural)]
pub enum CharSet {
    /// Exactly this character.
    Is(char),
    /// Any character but a line feed.
    Any,
    /// A decimal digit.
    Digit,
    /// Anything that is not a word character.
    NonWord,
    /// Anything that is not a word character, and the underscore.
    Delimiter,
}

impl CharSet {
    /// Whether the set holds `c`.
    pub open spec fn has(self, c: char) -> bool {
        match self {
            CharSet::Is(d) => c == d,
            CharSet::Any => c != '\n',
            CharSet::Digit => is_digit(c),
            CharSet::NonWord => !is_word(c),
            CharSet::Delimiter => !is_word(c) || c == '_',
        }
    }

    /// Tests membership of `c`.
    pub fn contains(&self, c: char) -> (r: bool)
        ensures
            r == self.has(c),
    {
        let digit = '0' <= c && c <= '9';
        let word = ('a' <= c && c <= 'z') || ('A' <= c && c <= 'Z') || digit || c == '_';
        match self {
            CharSet::Is(d) => c == *d,
            CharSet::Any => c != '\n',
            CharSet::Digit => digit,
            CharSet::NonWord => !word,
            CharSet::Delimiter => !word || c == '_',
        }
    }
}

/// A pattern: what a regular expression without anchors can say with single
/// characters, sequence, choice, option and repetition.
#[derive(Debug)]
pub enum Pattern {
    /// The empty text.
    Empty,
    /// One character of the set.
    One(CharSet),
    /// The first pattern, then the second.
    Then(Box<Pattern>, Box<Pattern>),
    /// Either pattern.
    Or(Box<Pattern>, Box<Pattern>),
    /// The pattern, or nothing.
    Opt(Box<Pattern>),
    /// The pattern once or several times in a row.
    Many(Box<Pattern>),
}

impl Pattern {
    /// Whether the pattern covers exactly the characters of `s` from position
    /// `i` up to, not including, position `j`.
    pub open spec fn spans(self, s: Seq<char>, i: int, j: int) -> bool
        decreases self, j - i,
    {
        if !(0 <= i <= j <= s.len()) {
            false
        } else {
            match self {
                Pattern::Empty => i == j,
                Pattern::One(set) => j == i + 1 && set.has(s[i]),
                Pattern::Then(a, b) => exists|k: int|
                    #[trigger] cut(k) && i <= k <= j && a.spans(s, i, k) && b.spans(s, k, j),
                Pattern::Or(a, b) => a.spans(s, i, j) || b.spans(s, i, j),
                Pattern::Opt(a) => i == j || a.spans(s, i, j),
                Pattern::Many(a) => a.spans(s, i, j) || exists|k: int|
                    #[trigger] cut(k) && i <= k < j && self.spans(s, i, k) && a.spans(s, k, j),
            }
        }
    }

    /// Whether some marked start position `i` has the pattern cover `i..j`.
    pub open spec fn reaches(self, s: Seq<char>, from: Seq<bool>, j: int) -> bool {
        exists|i: int| 0 <= i <= j && i < from.len() && from[i] && #[trigger] self.spans(s, i, j)
    }

    /// The greatest end `e` with `i < e <= hi` such that the pattern covers
    /// `i..e`, or `i` where there is none.
    pub open spec fn last_end(self, s: Seq<char>, i: int, hi: int) -> int
        decreases hi - i,
    {
        if hi <= i {
            i
        } else if self.spans(s, i, hi) {
            hi
        } else {
            self.last_end(s, i, hi - 1)
        }
    }

    /// The end of the longest non-empty match that starts at `i`, or `i`
    /// where the pattern covers no non-empty stretch from there.
    pub open spec fn longest(self, s: Seq<char>, i: int) -> int {
        self.last_end(s, i, s.len() as int)
    }
}

/// The characters of `text`, in order: the form in which the matcher reads
/// a text.
pub fn chars_of(text: &str) -> (chars: Vec<char>)
    ensures
        chars@ == text@,
{
    let n = text.unicode_len();
    let mut chars: Vec<char> = Vec::new();
    let mut k: usize = 0;
    while k < n
        invariant
            k <= n,
            n == text@.len(),
            chars@ == text@.take(k as int),
        decreases n - k,
    {
        let c = text.get_char(k);
        chars.push(c);
        assert(chars@ =~= text@.take(k + 1));
        k += 1;
    }
    assert(text@.take(n as int) =~= text@);
    chars
}

/// Marks exactly the position `at` among `0..=n`.
fn only(n: usize, at: usize) -> (out: Vec<bool>)
    ensures
        out@.len() == n + 1,
        forall|j: int| 0 <= j <= n ==> out@[j] == (j == at),
{
    let mut out: Vec<bool> = Vec::new();
    let mut j: usize = 0;
    while j < n
        invariant
            j <= n,
            out@.len() == j,
            forall|m: int| 0 <= m < j ==> out@[m] == (m == at),
        decreases n - j,
    {
        out.push(j == at);
        j += 1;
    }
    out.push(n == at);
    out
}

/// Marks the positions that `a` marks, and those after `k` that `b` marks.
fn merge_after(a: &Vec<bool>, b: &Vec<bool>, k: usize) -> (out: Vec<bool>)
    requires
        a@.len() == b@.len(),
    ensures
        out@.len() == a@.len(),
        forall|j: int| 0 <= j < out@.len() ==> out@[j] == (a@[j] || (j > k && b@[j])),
{
    let n = a.len();
    let mut out: Vec<bool> = Vec::new();
    let mut j: usize = 0;
    while j < n
        invariant
            j <= n,
            n == a@.len(),
            n == b@.len(),
            out@.len() == j,
            forall|m: int| 0 <= m < j ==> out@[m] == (a@[m] || (m > k && b@[m])),
        decreases n - j,
    {
        out.push(a[j] || (j > k && b[j]));
        j += 1;
    }
    out
}

/// Marks the positions that `a` or `b` marks.
fn either(a: &Vec<bool>, b: &Vec<bool>) -> (out: Vec<bool>)
    requires
        a@.len() == b@.len(),
    ensures
        out@.len() == a@.len(),
        forall|j: int| 0 <= j < out@.len() ==> out@[j] == (a@[j] || b@[j]),
{
    let n = a.len();
    let mut out: Vec<bool> = Vec::new();
    let mut j: usize = 0;
    while j < n
        invariant
            j <= n,
            n == a@.len(),
            n == b@.len(),
            out@.len() == j,
            forall|m: int| 0 <= m < j ==> out@[m] == (a@[m] || b@[m]),
        decreases n - j,
    {
        out.push(a[j] || b[j]);
        j += 1;
    }
    out
}

impl Pattern {
    /// For a set of start positions, the set of positions at which a match
    /// of the pattern from one of them ends.
    fn advance(&self, text: &Vec<char>, from: &Vec<bool>) -> (out: Vec<bool>)
        requires
            from@.len() == text@.len() + 1,
        ensures
            out@.len() == from@.len(),
            forall|j: int| 0 <= j < out@.len() ==> out@[j] == self.reaches(text@, from@, j),
        decreases self,
    {
        match self {
            Pattern::Empty => {
                let out = from.clone();
                assert forall|j: int| 0 <= j < out@.len() implies out@[j] == self.reaches(
                    text@,
                    from@,
                    j,
                ) by {
                    if from@[j] {
                        assert(self.spans(text@, j, j));
                    }
                }
                out
            },
            Pattern::One(set) => self.advance_one(set, text, from),
            Pattern::Then(a, b) => {
                let mid = a.advance(text, from);
                let out = b.advance(text, &mid);
                assert forall|j: int| 0 <= j < out@.len() implies out@[j] == self.reaches(
                    text@,
                    from@,
                    j,
                ) by {
                    if out@[j] {
                        let k = choose|k: int|
                            0 <= k <= j && k < mid@.len() && mid@[k] && #[trigger] b.spans(
                                text@,
                                k,
                                j,
                            );
                        let i = choose|i: int|
                            0 <= i <= k && i < from@.len() && from@[i] && #[trigger] a.spans(
                                text@,
                                i,
                                k,
                            );
                        assert(cut(k));
                        assert(self.spans(text@, i, j));
                    }
                    if self.reaches(text@, from@, j) {
                        let i = choose|i: int|
                            0 <= i <= j && i < from@.len() && from@[i] && #[trigger] self.spans(
                                text@,
                                i,
                                j,
                            );
                        let k = choose|k: int|
                            #[trigger] cut(k) && i <= k <= j && a.spans(text@, i, k) && b.spans(
                                text@,
                                k,
                                j,
                            );
                        assert(a.reaches(text@, from@, k));
                        assert(mid@[k] && b.spans(text@, k, j));
                        assert(b.reaches(text@, mid@, j));
                    }
                }
                out
            },
            Pattern::Or(a, b) => {
                let left = a.advance(text, from);
                let right = b.advance(text, from);
                let out = either(&left, &right);
                assert forall|j: int| 0 <= j < out@.len() implies out@[j] == self.reaches(
                    text@,
                    from@,
                    j,
                ) by {
                    if left@[j] {
                        let i = choose|i: int|
                            0 <= i <= j && i < from@.len() && from@[i] && #[trigger] a.spans(
                                text@,
                                i,
                                j,
                            );
                        assert(self.spans(text@, i, j));
                    }
                    if right@[j] {
                        let i = choose|i: int|
                            0 <= i <= j && i < from@.len() && from@[i] && #[trigger] b.spans(
                                text@,
                                i,
                                j,
                            );
                        assert(self.spans(text@, i, j));
                    }
                    if self.reaches(text@, from@, j) {
                        let i = choose|i: int|
                            0 <= i <= j && i < from@.len() && from@[i] && #[trigger] self.spans(
                                text@,
                                i,
                                j,
                            );
                        if a.spans(text@, i, j) {
                            assert(a.reaches(text@, from@, j));
                        } else {
                            assert(b.spans(text@, i, j));
                            assert(b.reaches(text@, from@, j));
                        }
                    }
                }
                out
            },
            Pattern::Opt(a) => {
                let inner = a.advance(text, from);
                let out = either(from, &inner);
                assert forall|j: int| 0 <= j < out@.len() implies out@[j] == self.reaches(
                    text@,
                    from@,
                    j,
                ) by {
                    if from@[j] {
                        assert(self.spans(text@, j, j));
                    }
                    if inner@[j] {
                        let i = choose|i: int|
                            0 <= i <= j && i < from@.len() && from@[i] && #[trigger] a.spans(
                                text@,
                                i,
                                j,
                            );
                        assert(self.spans(text@, i, j));
                    }
                    if self.reaches(text@, from@, j) {
                        let i = choose|i: int|
                            0 <= i <= j && i < from@.len() && from@[i] && #[trigger] self.spans(
                                text@,
                                i,
                                j,
                            );
                        if i != j {
                            assert(a.spans(text@, i, j));
                            assert(a.reaches(text@, from@, j));
                        }
                    }
                }
                out
            },
            Pattern::Many(a) => {
                let n = text.len();
                let mut out = a.advance(text, from);
                proof {
                    assert forall|j: int| 0 <= j <= n && out@[j] implies self.reaches(text@, from@, j) by {
                        let i = choose|i: int|
                            0 <= i <= j && i < from@.len() && from@[i] && #[trigger] a.spans(text@, i, j);
                        assert(self.spans(text@, i, j));
                    }
                }
                let mut k: usize = 0;
                while k < n
                    invariant
                        k <= n,
                        n == text@.len(),
                        from@.len() == n + 1,
                        *self == Pattern::Many(*a),
                        out@.len() == n + 1,
                        forall|j: int| 0 <= j <= n && out@[j] ==> self.reaches(text@, from@, j),
                        forall|j: int| 0 <= j <= n && a.reaches(text@, from@, j) ==> out@[j],
                        forall|m: int, j: int|
                            0 <= m < k && m < j <= n && self.reaches(text@, from@, m) && #[trigger] a.spans(
                                text@,
                                m,
                                j,
                            ) ==> out@[j],
                    decreases n - k,
                {
                    proof {
                        self.lemma_many_step(**a, text@, from@, out@, k as int);
                    }
                    if out[k] {
                        let start = only(n, k);
                        let step = a.advance(text, &start);
                        let grown = merge_after(&out, &step, k);
                        proof {
                            let i = choose|i: int|
                                0 <= i <= k && i < from@.len() && from@[i] && #[trigger] self.spans(
                                    text@,
                                    i,
                                    k as int,
                                );
                            assert forall|j: int| 0 <= j <= n && grown@[j] implies self.reaches(
                                text@,
                                from@,
                                j,
                            ) by {
                                if !out@[j] {
                                    let m = choose|m: int|
                                        0 <= m <= j && m < start@.len() && start@[m] && #[trigger] a.spans(
                                            text@,
                                            m,
                                            j,
                                        );
                                    assert(m == k);
                                    assert(cut(k as int));
                                    assert(self.spans(text@, i, j));
                                }
                            }
                            assert forall|m: int, j: int|
                                0 <= m < k + 1 && m < j <= n && self.reaches(text@, from@, m)
                                    && #[trigger] a.spans(text@, m, j) implies grown@[j] by {
                                if m == k {
                                    assert(start@[m]);
                                    assert(a.reaches(text@, start@, j));
                                }
                            }
                        }
                        out = grown;
                    }
                    k += 1;
                }
                proof {
                    assert forall|j: int| 0 <= j <= n && self.reaches(text@, from@, j) implies out@[j] by {
                        let i = choose|i: int|
                            0 <= i <= j && i < from@.len() && from@[i] && #[trigger] self.spans(text@, i, j);
                        if a.spans(text@, i, j) {
                            assert(a.reaches(text@, from@, j));
                        } else {
                            let m = choose|m: int|
                                #[trigger] cut(m) && i <= m < j && self.spans(text@, i, m) && a.spans(
                                    text@,
                                    m,
                                    j,
                                );
                            assert(self.reaches(text@, from@, m));
                        }
                    }
                }
                out
            },
        }
    }

    /// `advance` for a pattern of one character.
    fn advance_one(&self, set: &CharSet, text: &Vec<char>, from: &Vec<bool>) -> (out: Vec<bool>)
        requires
            from@.len() == text@.len() + 1,
            *self == Pattern::One(*set),
        ensures
            out@.len() == from@.len(),
            forall|j: int| 0 <= j < out@.len() ==> out@[j] == self.reaches(text@, from@, j),
    {
        let n = text.len();
        let mut out: Vec<bool> = Vec::new();
        out.push(false);
        assert(!self.reaches(text@, from@, 0));
        let mut j: usize = 0;
        while j < n
            invariant
                j <= n,
                n == text@.len(),
                from@.len() == n + 1,
                *self == Pattern::One(*set),
                out@.len() == j + 1,
                forall|m: int| 0 <= m <= j ==> out@[m] == self.reaches(text@, from@, m),
            decreases n - j,
        {
            let hit = from[j] && set.contains(text[j]);
            out.push(hit);
            proof {
                if hit {
                    assert(self.spans(text@, j as int, j + 1));
                }
                if self.reaches(text@, from@, j + 1) {
                    let i = choose|i: int|
                        0 <= i <= j + 1 && i < from@.len() && from@[i] && #[trigger] self.spans(
                            text@,
                            i,
                            j + 1,
                        );
                    assert(i == j);
                }
            }
            j += 1;
        }
        out
    }

    /// While a repetition is being closed from left to right, the marks at
    /// position `k` are final once every position before it has been used
    /// as a start.
    proof fn lemma_many_step(self, a: Pattern, s: Seq<char>, from: Seq<bool>, out: Seq<bool>, k: int)
        requires
            self == Pattern::Many(Box::new(a)),
            0 <= k <= s.len(),
            from.len() == s.len() + 1,
            out.len() == s.len() + 1,
            forall|j: int| 0 <= j <= s.len() && out[j] ==> self.reaches(s, from, j),
            forall|j: int| 0 <= j <= s.len() && a.reaches(s, from, j) ==> out[j],
            forall|m: int, j: int|
                0 <= m < k && m < j <= s.len() && self.reaches(s, from, m) && #[trigger] a.spans(
                    s,
                    m,
                    j,
                ) ==> out[j],
        ensures
            out[k] == self.reaches(s, from, k),
    {
        if self.reaches(s, from, k) {
            let i = choose|i: int|
                0 <= i <= k && i < from.len() && from[i] && #[trigger] self.spans(s, i, k);
            if a.spans(s, i, k) {
                assert(a.reaches(s, from, k));
            } else {
                let m = choose|m: int|
                    #[trigger] cut(m) && i <= m < k && self.spans(s, i, m) && a.spans(s, m, k);
                assert(self.reaches(s, from, m));
            }
        }
    }

    /// Finds the end of the longest non-empty match of the pattern that
    /// starts at `at`; gives `at` back where there is none.
    pub fn longest_match(&self, text: &Vec<char>, at: usize) -> (end: usize)
        ensures
            end == self.longest(text@, at as int),
    {
        let n = text.len();
        if at >= n {
            return at;
        }
        let start = only(n, at);
        let ends = self.advance(text, &start);
        let mut hi: usize = n;
        while hi > at
            invariant
                at <= hi <= n,
                n == text@.len(),
                ends@.len() == n + 1,
                start@.len() == n + 1,
                forall|j: int| 0 <= j <= n ==> start@[j] == (j == at),
                forall|j: int| 0 <= j <= n ==> ends@[j] == self.reaches(text@, start@, j),
                self.longest(text@, at as int) == self.last_end(text@, at as int, hi as int),
            decreases hi,
        {
            if ends[hi] {
                proof {
                    let i = choose|i: int|
                        0 <= i <= hi && i < start@.len() && start@[i] && #[trigger] self.spans(
                            text@,
                            i,
                            hi as int,
                        );
                    assert(i == at);
                }
                return hi;
            }
            proof {
                if self.spans(text@, at as int, hi as int) {
                    assert(start@[at as int]);
                    assert(self.reaches(text@, start@, hi as int));
                }
            }
            hi -= 1;
        }
        at
    }
    /// `last_end` lies between `i` and `hi`; where it is past `i` the pattern
    /// covers the text up to it, and no text up to a later end within `hi`.
    pub proof fn lemma_last_end(self, s: Seq<char>, i: int, hi: int)
        requires
            0 <= i,
            hi <= s.len(),
        ensures
            i <= self.last_end(s, i, hi),
            self.last_end(s, i, hi) <= hi || self.last_end(s, i, hi) == i,
            self.last_end(s, i, hi) > i ==> self.spans(s, i, self.last_end(s, i, hi)),
            forall|j: int| self.last_end(s, i, hi) < j <= hi && i < j ==> !self.spans(s, i, j),
        decreases hi - i,
    {
        if hi > i && !self.spans(s, i, hi) {
            self.lemma_last_end(s, i, hi - 1);
        }
    }

    /// The longest match ends within the text; where it is not empty the
    /// pattern covers it, and covers no longer stretch from the same start.
    pub proof fn lemma_longest_bounds(self, s: Seq<char>, i: int)
        requires
            0 <= i,
        ensures
            i <= self.longest(s, i),
            self.longest(s, i) > i ==> self.longest(s, i) <= s.len() && self.spans(
                s,
                i,
                self.longest(s, i),
            ),
            forall|j: int| self.longest(s, i) < j ==> !self.spans(s, i, j),
    {
        self.lemma_last_end(s, i, s.len() as int);
    }
}

} // verus!
