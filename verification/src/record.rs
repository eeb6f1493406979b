//! The metadata record and the fold of a token sequence into it.

use vstd::prelude::*;
use crate::kinds::AudioCodecKind;
use crate::kinds::VideoCodecKind;
use crate::kinds::VideoColorRangeKind;
use crate::kinds::VideoResolutionKind;
use crate::kinds::VideoSourceKind;
use crate::token::models;
use crate::token::Category;
use crate::token::Token;
use crate::token::TokenModel;

verus! {

/// What was detected in one file name. A field that is `None` was not
/// detected.
#[derive(Clone, Debug, PartialEq, Eq)]
pub struct ParseResult {
    pub title: String,
    pub year: Option<i32>,
    pub episode: Option<i32>,
    pub video_codec: Option<VideoCodecKind>,
    pub video_resolution: Option<VideoResolutionKind>,
    pub video_color_range: Option<VideoColorRangeKind>,
    pub audio_codec: Option<AudioCodecKind>,
    pub audio_channels: Option<String>,
    pub source: Option<VideoSourceKind>,
    pub file_name: String,
}

/// What a `ParseResult` is in contracts: the same fields, with text as a
/// sequence of characters.
pub struct RecordModel {
    pub title: Seq<char>,
    pub year: Option<i32>,
    pub episode: Option<i32>,
    pub video_codec: Option<VideoCodecKind>,
    pub video_resolution: Option<VideoResolutionKind>,
    pub video_color_range: Option<VideoColorRangeKind>,
    pub audio_codec: Option<AudioCodecKind>,
    pub audio_channels: Option<Seq<char>>,
    pub source: Option<VideoSourceKind>,
    pub file_name: Seq<char>,
}

impl RecordModel {
    /// The record of a file name in which nothing was detected.
    pub open spec fn blank(file_name: Seq<char>, title: Seq<char>) -> RecordModel {
        RecordModel {
            title,
            year: None,
            episode: None,
            video_codec: None,
            video_resolution: None,
            video_color_range: None,
            audio_codec: None,
            audio_channels: None,
            source: None,
            file_name,
        }
    }

    /// The record with the field of the token's category overwritten by the
    /// token's value, and every other field as it was.
    pub open spec fn with(self, t: TokenModel) -> RecordModel {
        match t {
            TokenModel::VideoCodec(k) => RecordModel { video_codec: Some(k), ..self },
            TokenModel::VideoResolution(k) => RecordModel { video_resolution: Some(k), ..self },
            TokenModel::VideoSource(k) => RecordModel { source: Some(k), ..self },
            TokenModel::VideoColorRange(k) => RecordModel { video_color_range: Some(k), ..self },
            TokenModel::AudioCodec(k) => RecordModel { audio_codec: Some(k), ..self },
            TokenModel::AudioChannels(text) => RecordModel { audio_channels: Some(text), ..self },
            TokenModel::Year(y) => RecordModel { year: Some(y), ..self },
            TokenModel::Episode(e) => RecordModel { episode: Some(e), ..self },
        }
    }

    /// Whether the field of category `c` holds a value.
    pub open spec fn detected(self, c: Category) -> bool {
        match c {
            Category::VideoCodec => self.video_codec is Some,
            Category::VideoResolution => self.video_resolution is Some,
            Category::VideoSource => self.source is Some,
            Category::VideoColorRange => self.video_color_range is Some,
            Category::AudioCodec => self.audio_codec is Some,
            Category::AudioChannels => self.audio_channels is Some,
            Category::Year => self.year is Some,
            Category::Episode => self.episode is Some,
        }
    }
}

/// The last token of category `c` in `tokens`.
pub open spec fn last_of(tokens: Seq<TokenModel>, c: Category) -> Option<TokenModel>
    decreases tokens.len(),
{
    if tokens.len() == 0 {
        None
    } else if tokens.last().category() == c {
        Some(tokens.last())
    } else {
        last_of(tokens.drop_last(), c)
    }
}

/// The record of a token sequence: each field holds the value of the last
/// token of its category, and nothing where the sequence has no such token.
pub open spec fn record_of(
    file_name: Seq<char>,
    title: Seq<char>,
    tokens: Seq<TokenModel>,
) -> RecordModel {
    RecordModel {
        title,
        year: match last_of(tokens, Category::Year) {
            Some(TokenModel::Year(y)) => Some(y),
            _ => None,
        },
        episode: match last_of(tokens, Category::Episode) {
            Some(TokenModel::Episode(e)) => Some(e),
            _ => None,
        },
        video_codec: match last_of(tokens, Category::VideoCodec) {
            Some(TokenModel::VideoCodec(k)) => Some(k),
            _ => None,
        },
        video_resolution: match last_of(tokens, Category::VideoResolution) {
            Some(TokenModel::VideoResolution(k)) => Some(k),
            _ => None,
        },
        video_color_range: match last_of(tokens, Category::VideoColorRange) {
            Some(TokenModel::VideoColorRange(k)) => Some(k),
            _ => None,
        },
        audio_codec: match last_of(tokens, Category::AudioCodec) {
            Some(TokenModel::AudioCodec(k)) => Some(k),
            _ => None,
        },
        audio_channels: match last_of(tokens, Category::AudioChannels) {
            Some(TokenModel::AudioChannels(text)) => Some(text),
            _ => None,
        },
        source: match last_of(tokens, Category::VideoSource) {
            Some(TokenModel::VideoSource(k)) => Some(k),
            _ => None,
        },
        file_name,
    }
}

/// The record of a sequence with one more token at its end is the record of
/// the sequence with that token's field overwritten.
pub proof fn lemma_record_push(
    file_name: Seq<char>,
    title: Seq<char>,
    tokens: Seq<TokenModel>,
    t: TokenModel,
)
    ensures
        record_of(file_name, title, tokens.push(t)) == record_of(file_name, title, tokens).with(t),
{
    let longer = tokens.push(t);
    assert(longer.drop_last() =~= tokens);
    assert(longer.last() == t);
    assert forall|c: Category| #[trigger]
        last_of(longer, c) == (if t.category() == c {
            Some(t)
        } else {
            last_of(tokens, c)
        }) by {}
}

impl View for ParseResult {
    type V = RecordModel;

    open spec fn view(&self) -> RecordModel {
        RecordModel {
            title: self.title@,
            year: self.year,
            episode: self.episode,
            video_codec: self.video_codec,
            video_resolution: self.video_resolution,
            video_color_range: self.video_color_range,
            audio_codec: self.audio_codec,
            audio_channels: match self.audio_channels {
                Some(text) => Some(text@),
                None => None,
            },
            source: self.source,
            file_name: self.file_name@,
        }
    }
}

impl ParseResult {
    /// A record for `file_name` with an empty title and nothing detected.
    pub fn new(file_name: String) -> (r: Self)
        ensures
            r@ == RecordModel::blank(file_name@, Seq::empty()),
    {
        ParseResult {
            title: String::new(),
            year: None,
            episode: None,
            video_codec: None,
            video_resolution: None,
            video_color_range: None,
            audio_codec: None,
            audio_channels: None,
            source: None,
            file_name,
        }
    }

    /// Overwrites the field of the token's category with the token's value.
    pub fn record(&mut self, token: &Token)
        ensures
            final(self)@ == old(self)@.with(token@),
    {
        match token {
            Token::VideoCodec(k) => {
                self.video_codec = Some(*k);
            },
            Token::VideoResolution(k) => {
                self.video_resolution = Some(*k);
            },
            Token::VideoSource(k) => {
                self.source = Some(*k);
            },
            Token::VideoColorRange(k) => {
                self.video_color_range = Some(*k);
            },
            Token::AudioCodec(k) => {
                self.audio_codec = Some(*k);
            },
            Token::AudioChannels(text) => {
                self.audio_channels = Some(text.clone());
            },
            Token::Year(y) => {
                self.year = Some(*y);
            },
            Token::Episode(e) => {
                self.episode = Some(*e);
            },
        }
    }
}

impl Default for ParseResult {
    fn default() -> (r: Self)
        ensures
            r@ == RecordModel::blank(Seq::empty(), Seq::empty()),
    {
        ParseResult::new(String::new())
    }
}

/// Folds `tokens`, in order, into a record for `file_name` with the title
/// `title`: a later token of a category replaces an earlier one.
pub fn reduce(file_name: String, title: String, tokens: &Vec<Token>) -> (r: ParseResult)
    ensures
        r@ == record_of(file_name@, title@, models(tokens@)),
{
    let mut result = ParseResult::new(file_name);
    result.title = title;
    let mut k: usize = 0;
    assert(models(tokens@).take(0) =~= Seq::<TokenModel>::empty());
    while k < tokens.len()
        invariant
            k <= tokens@.len(),
            result@ == record_of(file_name@, title@, models(tokens@).take(k as int)),
        decreases tokens@.len() - k,
    {
        result.record(&tokens[k]);
        proof {
            let all = models(tokens@);
            assert(all.take(k + 1) =~= all.take(k as int).push(tokens@[k as int]@));
            lemma_record_push(file_name@, title@, all.take(k as int), tokens@[k as int]@);
        }
        k += 1;
    }
    assert(models(tokens@).take(k as int) =~= models(tokens@));
    result
}

} // verus!
