//! The pattern table: the rules of every category, in the order in which
//! they are tried.
//!
//! Order is priority. At one position the first rule of the table that
//! matches there is taken, whatever a later rule would match; the text that
//! the taken rule covers is the longest that its own pattern allows.

use vstd::prelude::*;
use vstd::string::StrSliceExecFns;
use vstd::string::StringExecFns;
use crate::kinds::AudioCodecKind;
use crate::kinds::VideoCodecKind;
use crate::kinds::VideoColorRangeKind;
use crate::kinds::VideoResolutionKind;
use crate::kinds::VideoSourceKind;
use crate::number::number;
use crate::number::read_number;
use crate::pattern::chars_of;
use crate::pattern::CharSet;
use crate::pattern::Pattern;
use crate::token::Category;
use crate::token::Token;
use crate::token::TokenModel;

verus! {

/// What a rule makes of the text that its pattern matched.
#[derive(Clone, Copy, Debug, PartialEq, Eq, Structural)]
pub enum Constructor {
    VideoCodec(VideoCodecKind),
    VideoResolution(VideoResolutionKind),
    VideoSource(VideoSourceKind),
    VideoColorRange(VideoColorRangeKind),
    AudioCodec(AudioCodecKind),
    /// Keeps the matched text.
    AudioChannels,
    /// Reads the matched text as a decimal number.
    Year,
    /// Reads the matched text as a decimal number.
    Episode,
}

/// A pattern and what becomes of its matches.
#[derive(Debug)]
pub struct Rule {
    pub pattern: Pattern,
    pub make: Constructor,
}

impl Constructor {
    /// The category of the tokens that the constructor makes.
    pub open spec fn category(self) -> Category {
        match self {
            Constructor::VideoCodec(_) => Category::VideoCodec,
            Constructor::VideoResolution(_) => Category::VideoResolution,
            Constructor::VideoSource(_) => Category::VideoSource,
            Constructor::VideoColorRange(_) => Category::VideoColorRange,
            Constructor::AudioCodec(_) => Category::AudioCodec,
            Constructor::AudioChannels => Category::AudioChannels,
            Constructor::Year => Category::Year,
            Constructor::Episode => Category::Episode,
        }
    }

    /// The token made of the matched text, or `None` where the text is not
    /// a number that the token can hold.
    pub open spec fn build(self, matched: Seq<char>) -> Option<TokenModel> {
        match self {
            Constructor::VideoCodec(k) => Some(TokenModel::VideoCodec(k)),
            Constructor::VideoResolution(k) => Some(TokenModel::VideoResolution(k)),
            Constructor::VideoSource(k) => Some(TokenModel::VideoSource(k)),
            Constructor::VideoColorRange(k) => Some(TokenModel::VideoColorRange(k)),
            Constructor::AudioCodec(k) => Some(TokenModel::AudioCodec(k)),
            Constructor::AudioChannels => Some(TokenModel::AudioChannels(matched)),
            Constructor::Year => match number(matched) {
                Some(y) => Some(TokenModel::Year(y)),
                None => None,
            },
            Constructor::Episode => match number(matched) {
                Some(e) => Some(TokenModel::Episode(e)),
                None => None,
            },
        }
    }

    /// Makes the token of the matched text.
    pub fn make(&self, matched: &str) -> (r: Option<Token>)
        ensures
            match r {
                Some(t) => self.build(matched@) == Some(t@),
                None => self.build(matched@) is None,
            },
    {
        match self {
            Constructor::VideoCodec(k) => Some(Token::VideoCodec(*k)),
            Constructor::VideoResolution(k) => Some(Token::VideoResolution(*k)),
            Constructor::VideoSource(k) => Some(Token::VideoSource(*k)),
            Constructor::VideoColorRange(k) => Some(Token::VideoColorRange(*k)),
            Constructor::AudioCodec(k) => Some(Token::AudioCodec(*k)),
            Constructor::AudioChannels => Some(Token::AudioChannels(String::from_str(matched))),
            Constructor::Year => match read_number(&chars_of(matched)) {
                Some(y) => Some(Token::Year(y)),
                None => None,
            },
            Constructor::Episode => match read_number(&chars_of(matched)) {
                Some(e) => Some(Token::Episode(e)),
                None => None,
            },
        }
    }
}

/// The pattern that covers exactly the text `s`.
pub open spec fn text(s: Seq<char>) -> Pattern
    decreases s.len(),
{
    if s.len() == 0 {
        Pattern::Empty
    } else {
        Pattern::Then(Box::new(Pattern::One(CharSet::Is(s[0]))), Box::new(text(s.drop_first())))
    }
}

/// What `lit` builds.
pub open spec fn spec_lit(s: &str) -> Pattern {
    text(s@)
}

/// What `ch` builds.
pub open spec fn spec_ch(c: char) -> Pattern {
    Pattern::One(CharSet::Is(c))
}

/// What `any` builds.
pub open spec fn spec_any() -> Pattern {
    Pattern::One(CharSet::Any)
}

/// What `digit` builds.
pub open spec fn spec_digit() -> Pattern {
    Pattern::One(CharSet::Digit)
}

/// What `non_word` builds.
pub open spec fn spec_non_word() -> Pattern {
    Pattern::One(CharSet::NonWord)
}

/// What `delimiter` builds.
pub open spec fn spec_delimiter() -> Pattern {
    Pattern::One(CharSet::Delimiter)
}

/// What `then` builds.
pub open spec fn spec_then(a: Pattern, b: Pattern) -> Pattern {
    Pattern::Then(Box::new(a), Box::new(b))
}

/// What `or` builds.
pub open spec fn spec_or(a: Pattern, b: Pattern) -> Pattern {
    Pattern::Or(Box::new(a), Box::new(b))
}

/// What `opt` builds.
pub open spec fn spec_opt(a: Pattern) -> Pattern {
    Pattern::Opt(Box::new(a))
}

/// What `many` builds.
pub open spec fn spec_many(a: Pattern) -> Pattern {
    Pattern::Many(Box::new(a))
}

/// The pattern that covers exactly the text `s`.
#[verifier::when_used_as_spec(spec_lit)]
pub fn lit(s: &str) -> (p: Pattern)
    ensures
        p == spec_lit(s),
{
    let n = s.unicode_len();
    let mut p = Pattern::Empty;
    let mut k: usize = n;
    assert(s@.subrange(n as int, n as int) =~= Seq::<char>::empty());
    while k > 0
        invariant
            k <= n,
            n == s@.len(),
            p == text(s@.subrange(k as int, n as int)),
        decreases k,
    {
        k -= 1;
        let c = s.get_char(k);
        proof {
            assert(s@.subrange(k as int, n as int).drop_first() =~= s@.subrange(k + 1, n as int));
        }
        p = Pattern::Then(Box::new(Pattern::One(CharSet::Is(c))), Box::new(p));
    }
    assert(s@.subrange(0, n as int) =~= s@);
    p
}

/// The pattern of the one character `c`.
#[verifier::when_used_as_spec(spec_ch)]
pub fn ch(c: char) -> (p: Pattern)
    ensures
        p == spec_ch(c),
{
    Pattern::One(CharSet::Is(c))
}

/// The pattern of any one character but a line feed.
#[verifier::when_used_as_spec(spec_any)]
pub fn any() -> (p: Pattern)
    ensures
        p == spec_any(),
{
    Pattern::One(CharSet::Any)
}

/// The pattern of one decimal digit.
#[verifier::when_used_as_spec(spec_digit)]
pub fn digit() -> (p: Pattern)
    ensures
        p == spec_digit(),
{
    Pattern::One(CharSet::Digit)
}

/// The pattern of one character that is no word character.
#[verifier::when_used_as_spec(spec_non_word)]
pub fn non_word() -> (p: Pattern)
    ensures
        p == spec_non_word(),
{
    Pattern::One(CharSet::NonWord)
}

/// The pattern of one character that is no word character, or an underscore.
#[verifier::when_used_as_spec(spec_delimiter)]
pub fn delimiter() -> (p: Pattern)
    ensures
        p == spec_delimiter(),
{
    Pattern::One(CharSet::Delimiter)
}

/// `a`, then `b`.
#[verifier::when_used_as_spec(spec_then)]
pub fn then(a: Pattern, b: Pattern) -> (p: Pattern)
    ensures
        p == spec_then(a, b),
{
    Pattern::Then(Box::new(a), Box::new(b))
}

/// `a` or `b`.
#[verifier::when_used_as_spec(spec_or)]
pub fn or(a: Pattern, b: Pattern) -> (p: Pattern)
    ensures
        p == spec_or(a, b),
{
    Pattern::Or(Box::new(a), Box::new(b))
}

/// `a`, or nothing.
#[verifier::when_used_as_spec(spec_opt)]
pub fn opt(a: Pattern) -> (p: Pattern)
    ensures
        p == spec_opt(a),
{
    Pattern::Opt(Box::new(a))
}

/// `a` once or several times in a row.
#[verifier::when_used_as_spec(spec_many)]
pub fn many(a: Pattern) -> (p: Pattern)
    ensures
        p == spec_many(a),
{
    Pattern::Many(Box::new(a))
}

/// The table, as contracts see it.
pub open spec fn rules() -> Seq<Rule> {
    seq![
        Rule {
            pattern:
                lit("divx"),
            make: Constructor::VideoCodec(VideoCodecKind::Divx),
        },
        Rule {
            pattern:
                lit("xvid"),
            make: Constructor::VideoCodec(VideoCodecKind::Xvid),
        },
        Rule {
            pattern:
                lit("vp9"),
            make: Constructor::VideoCodec(VideoCodecKind::Vp9),
        },
        Rule {
            pattern:
                then(or(ch('h'), ch('x')), then(opt(any()), lit("264"))),
            make: Constructor::VideoCodec(VideoCodecKind::H264),
        },
        Rule {
            pattern:
                or(then(or(ch('h'), ch('x')), then(opt(any()), lit("265"))), lit("hevc")),
            make: Constructor::VideoCodec(VideoCodecKind::H265),
        },
        Rule {
            pattern:
                then(lit("360"), opt(ch('p'))),
            make: Constructor::VideoResolution(VideoResolutionKind::R360P),
        },
        Rule {
            pattern:
                then(lit("480"), opt(ch('p'))),
            make: Constructor::VideoResolution(VideoResolutionKind::R480P),
        },
        Rule {
            pattern:
                then(lit("540"), opt(ch('p'))),
            make: Constructor::VideoResolution(VideoResolutionKind::R540P),
        },
        Rule {
            pattern:
                then(lit("576"), opt(ch('p'))),
            make: Constructor::VideoResolution(VideoResolutionKind::R576P),
        },
        Rule {
            pattern:
                then(
                    opt(lit("1280x")),
                    then(
                        lit("720"),
                        then(
                            opt(or(ch('p'), lit("hd"))),
                            then(opt(ch('x')), opt(then(or(ch('5'), ch('6')), ch('0')))),
                        ),
                    ),
                ),
            make: Constructor::VideoResolution(VideoResolutionKind::R720P),
        },
        Rule {
            pattern:
                then(
                    opt(lit("1920x")),
                    then(
                        lit("1080"),
                        then(
                            opt(ch('p')),
                            then(opt(ch('x')), opt(then(or(ch('5'), ch('6')), ch('0')))),
                        ),
                    ),
                ),
            make: Constructor::VideoResolution(VideoResolutionKind::R1080P),
        },
        Rule {
            pattern:
                or(
                    then(
                        opt(lit("3840x")),
                        then(
                            lit("2160"),
                            then(
                                opt(ch('p')),
                                then(opt(ch('x')), opt(then(or(ch('5'), ch('6')), ch('0')))),
                            ),
                        ),
                    ),
                    lit("4k"),
                ),
            make: Constructor::VideoResolution(VideoResolutionKind::R2160P),
        },
        Rule {
            pattern:
                or(
                    then(
                        ch('b'),
                        then(or(ch('d'), ch('r')), then(opt(delimiter()), lit("rip"))),
                    ),
                    then(
                        lit("blu"),
                        then(
                            opt(delimiter()),
                            then(lit("ray"), opt(then(opt(delimiter()), lit("rip")))),
                        ),
                    ),
                ),
            make: Constructor::VideoSource(VideoSourceKind::BluRay),
        },
        Rule {
            pattern:
                then(lit("blura"), opt(ch('y'))),
            make: Constructor::VideoSource(VideoSourceKind::BluRay),
        },
        Rule {
            pattern:
                then(lit("web"), opt(then(opt(delimiter()), or(lit("dl"), lit("hd"))))),
            make: Constructor::VideoSource(VideoSourceKind::Webdl),
        },
        Rule {
            pattern:
                or(
                    then(ch('8'), then(opt(non_word()), then(lit("bit"), opt(ch('s'))))),
                    then(lit("hi8"), opt(ch('p'))),
                ),
            make: Constructor::VideoColorRange(VideoColorRangeKind::C8Bit),
        },
        Rule {
            pattern:
                or(
                    then(lit("10"), then(opt(non_word()), then(lit("bit"), opt(ch('s'))))),
                    then(lit("hi10"), opt(ch('p'))),
                ),
            make: Constructor::VideoColorRange(VideoColorRangeKind::C10Bit),
        },
        Rule {
            pattern:
                then(
                    lit("hdr"),
                    then(
                        opt(lit("10")),
                        then(opt(non_word()), or(ch('+'), or(ch('p'), lit("plus")))),
                    ),
                ),
            make: Constructor::VideoColorRange(VideoColorRangeKind::HDRplus),
        },
        Rule {
            pattern:
                then(lit("hdr"), opt(then(opt(non_word()), lit("10")))),
            make: Constructor::VideoColorRange(VideoColorRangeKind::HDR),
        },
        Rule {
            pattern:
                or(
                    then(lit("dolby"), then(opt(non_word()), lit("vision"))),
                    or(lit("dv"), lit("dovi")),
                ),
            make: Constructor::VideoColorRange(VideoColorRangeKind::DolbyVision),
        },
        Rule {
            pattern:
                lit("mp3"),
            make: Constructor::AudioCodec(AudioCodecKind::MP3),
        },
        Rule {
            pattern:
                lit("aac"),
            make: Constructor::AudioCodec(AudioCodecKind::AAC),
        },
        Rule {
            pattern:
                then(lit("dd5"), then(any(), ch('1'))),
            make: Constructor::AudioCodec(AudioCodecKind::DD51),
        },
        Rule {
            pattern:
                lit("ac3"),
            make: Constructor::AudioCodec(AudioCodecKind::AC3),
        },
        Rule {
            pattern:
                then(lit("dd"), or(ch('p'), ch('+'))),
            make: Constructor::AudioCodec(AudioCodecKind::DDPLUS51),
        },
        Rule {
            pattern:
                lit("flac"),
            make: Constructor::AudioCodec(AudioCodecKind::FLAC),
        },
        Rule {
            pattern:
                then(
                    lit("dts"),
                    then(
                        opt(delimiter()),
                        then(lit("hd"), opt(then(opt(delimiter()), lit("ma")))),
                    ),
                ),
            make: Constructor::AudioCodec(AudioCodecKind::DTSHD),
        },
        Rule {
            pattern:
                lit("dts"),
            make: Constructor::AudioCodec(AudioCodecKind::DTS),
        },
        Rule {
            pattern:
                lit("truehd"),
            make: Constructor::AudioCodec(AudioCodecKind::TRUEHD),
        },
        Rule {
            pattern:
                then(
                    or(ch('7'), or(ch('6'), ch('5'))),
                    then(opt(any()), or(ch('0'), ch('1'))),
                ),
            make: Constructor::AudioChannels,
        },
        Rule {
            pattern:
                many(
                    then(
                        or(then(ch('1'), or(ch('8'), ch('9'))), lit("20")),
                        then(digit(), digit()),
                    ),
                ),
            make: Constructor::Year,
        },
        Rule {
            pattern:
                then(
                    ch('S'),
                    then(digit(), then(digit(), then(ch('E'), then(digit(), digit())))),
                ),
            make: Constructor::Episode,
        },
    ]
}

/// Builds the table.
pub fn pattern_table() -> (table: Vec<Rule>)
    ensures
        table@ == rules(),
{
    let mut table: Vec<Rule> = Vec::new();
    table.push(
        Rule {
            pattern:
                lit("divx"),
            make: Constructor::VideoCodec(VideoCodecKind::Divx),
        },
    );
    table.push(
        Rule {
            pattern:
                lit("xvid"),
            make: Constructor::VideoCodec(VideoCodecKind::Xvid),
        },
    );
    table.push(
        Rule {
            pattern:
                lit("vp9"),
            make: Constructor::VideoCodec(VideoCodecKind::Vp9),
        },
    );
    table.push(
        Rule {
            pattern:
                then(or(ch('h'), ch('x')), then(opt(any()), lit("264"))),
            make: Constructor::VideoCodec(VideoCodecKind::H264),
        },
    );
    table.push(
        Rule {
            pattern:
                or(then(or(ch('h'), ch('x')), then(opt(any()), lit("265"))), lit("hevc")),
            make: Constructor::VideoCodec(VideoCodecKind::H265),
        },
    );
    table.push(
        Rule {
            pattern:
                then(lit("360"), opt(ch('p'))),
            make: Constructor::VideoResolution(VideoResolutionKind::R360P),
        },
    );
    table.push(
        Rule {
            pattern:
                then(lit("480"), opt(ch('p'))),
            make: Constructor::VideoResolution(VideoResolutionKind::R480P),
        },
    );
    table.push(
        Rule {
            pattern:
                then(lit("540"), opt(ch('p'))),
            make: Constructor::VideoResolution(VideoResolutionKind::R540P),
        },
    );
    table.push(
        Rule {
            pattern:
                then(lit("576"), opt(ch('p'))),
            make: Constructor::VideoResolution(VideoResolutionKind::R576P),
        },
    );
    table.push(
        Rule {
            pattern:
                then(
                    opt(lit("1280x")),
                    then(
                        lit("720"),
                        then(
                            opt(or(ch('p'), lit("hd"))),
                            then(opt(ch('x')), opt(then(or(ch('5'), ch('6')), ch('0')))),
                        ),
                    ),
                ),
            make: Constructor::VideoResolution(VideoResolutionKind::R720P),
        },
    );
    table.push(
        Rule {
            pattern:
                then(
                    opt(lit("1920x")),
                    then(
                        lit("1080"),
                        then(
                            opt(ch('p')),
                            then(opt(ch('x')), opt(then(or(ch('5'), ch('6')), ch('0')))),
                        ),
                    ),
                ),
            make: Constructor::VideoResolution(VideoResolutionKind::R1080P),
        },
    );
    table.push(
        Rule {
            pattern:
                or(
                    then(
                        opt(lit("3840x")),
                        then(
                            lit("2160"),
                            then(
                                opt(ch('p')),
                                then(opt(ch('x')), opt(then(or(ch('5'), ch('6')), ch('0')))),
                            ),
                        ),
                    ),
                    lit("4k"),
                ),
            make: Constructor::VideoResolution(VideoResolutionKind::R2160P),
        },
    );
    table.push(
        Rule {
            pattern:
                or(
                    then(
                        ch('b'),
                        then(or(ch('d'), ch('r')), then(opt(delimiter()), lit("rip"))),
                    ),
                    then(
                        lit("blu"),
                        then(
                            opt(delimiter()),
                            then(lit("ray"), opt(then(opt(delimiter()), lit("rip")))),
                        ),
                    ),
                ),
            make: Constructor::VideoSource(VideoSourceKind::BluRay),
        },
    );
    table.push(
        Rule {
            pattern:
                then(lit("blura"), opt(ch('y'))),
            make: Constructor::VideoSource(VideoSourceKind::BluRay),
        },
    );
    table.push(
        Rule {
            pattern:
                then(lit("web"), opt(then(opt(delimiter()), or(lit("dl"), lit("hd"))))),
            make: Constructor::VideoSource(VideoSourceKind::Webdl),
        },
    );
    table.push(
        Rule {
            pattern:
                or(
                    then(ch('8'), then(opt(non_word()), then(lit("bit"), opt(ch('s'))))),
                    then(lit("hi8"), opt(ch('p'))),
                ),
            make: Constructor::VideoColorRange(VideoColorRangeKind::C8Bit),
        },
    );
    table.push(
        Rule {
            pattern:
                or(
                    then(lit("10"), then(opt(non_word()), then(lit("bit"), opt(ch('s'))))),
                    then(lit("hi10"), opt(ch('p'))),
                ),
            make: Constructor::VideoColorRange(VideoColorRangeKind::C10Bit),
        },
    );
    table.push(
        Rule {
            pattern:
                then(
                    lit("hdr"),
                    then(
                        opt(lit("10")),
                        then(opt(non_word()), or(ch('+'), or(ch('p'), lit("plus")))),
                    ),
                ),
            make: Constructor::VideoColorRange(VideoColorRangeKind::HDRplus),
        },
    );
    table.push(
        Rule {
            pattern:
                then(lit("hdr"), opt(then(opt(non_word()), lit("10")))),
            make: Constructor::VideoColorRange(VideoColorRangeKind::HDR),
        },
    );
    table.push(
        Rule {
            pattern:
                or(
                    then(lit("dolby"), then(opt(non_word()), lit("vision"))),
                    or(lit("dv"), lit("dovi")),
                ),
            make: Constructor::VideoColorRange(VideoColorRangeKind::DolbyVision),
        },
    );
    table.push(
        Rule {
            pattern:
                lit("mp3"),
            make: Constructor::AudioCodec(AudioCodecKind::MP3),
        },
    );
    table.push(
        Rule {
            pattern:
                lit("aac"),
            make: Constructor::AudioCodec(AudioCodecKind::AAC),
        },
    );
    table.push(
        Rule {
            pattern:
                then(lit("dd5"), then(any(), ch('1'))),
            make: Constructor::AudioCodec(AudioCodecKind::DD51),
        },
    );
    table.push(
        Rule {
            pattern:
                lit("ac3"),
            make: Constructor::AudioCodec(AudioCodecKind::AC3),
        },
    );
    table.push(
        Rule {
            pattern:
                then(lit("dd"), or(ch('p'), ch('+'))),
            make: Constructor::AudioCodec(AudioCodecKind::DDPLUS51),
        },
    );
    table.push(
        Rule {
            pattern:
                lit("flac"),
            make: Constructor::AudioCodec(AudioCodecKind::FLAC),
        },
    );
    table.push(
        Rule {
            pattern:
                then(
                    lit("dts"),
                    then(
                        opt(delimiter()),
                        then(lit("hd"), opt(then(opt(delimiter()), lit("ma")))),
                    ),
                ),
            make: Constructor::AudioCodec(AudioCodecKind::DTSHD),
        },
    );
    table.push(
        Rule {
            pattern:
                lit("dts"),
            make: Constructor::AudioCodec(AudioCodecKind::DTS),
        },
    );
    table.push(
        Rule {
            pattern:
                lit("truehd"),
            make: Constructor::AudioCodec(AudioCodecKind::TRUEHD),
        },
    );
    table.push(
        Rule {
            pattern:
                then(
                    or(ch('7'), or(ch('6'), ch('5'))),
                    then(opt(any()), or(ch('0'), ch('1'))),
                ),
            make: Constructor::AudioChannels,
        },
    );
    table.push(
        Rule {
            pattern:
                many(
                    then(
                        or(then(ch('1'), or(ch('8'), ch('9'))), lit("20")),
                        then(digit(), digit()),
                    ),
                ),
            make: Constructor::Year,
        },
    );
    table.push(
        Rule {
            pattern:
                then(
                    ch('S'),
                    then(digit(), then(digit(), then(ch('E'), then(digit(), digit())))),
                ),
            make: Constructor::Episode,
        },
    );
    assert(table@ =~= rules());
    table
}

} // verus!
