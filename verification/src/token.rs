//! The tokens that a scan yields, tagged by the category they belong to.

use vstd::prelude::*;
use crate::kinds::AudioCodecKind;
use crate::kinds::VideoCodecKind;
use crate::kinds::VideoColorRangeKind;
use crate::kinds::VideoResolutionKind;
use crate::kinds::VideoSourceKind;

verus! {

/// One dimension of the metadata.
#[derive(Clone, Copy, Debug, PartialEq, Eq, Structural)]
pub enum Category {
    VideoCodec,
    VideoResolution,
    VideoSource,
    VideoColorRange,
    AudioCodec,
    AudioChannels,
    Year,
    Episode,
}

/// A match of a rule, with what the rule made of the matched text.
#[derive(Clone, Debug, PartialEq, Eq)]
pub enum Token {
    VideoCodec(VideoCodecKind),
    VideoResolution(VideoResolutionKind),
    VideoSource(VideoSourceKind),
    VideoColorRange(VideoColorRangeKind),
    AudioCodec(AudioCodecKind),
    /// The matched text itself.
    AudioChannels(String),
    Year(i32),
    Episode(i32),
}

/// What a `Token` is in contracts: the same cases, with text as a sequence
/// of characters.
pub enum TokenModel {
    VideoCodec(VideoCodecKind),
    VideoResolution(VideoResolutionKind),
    VideoSource(VideoSourceKind),
    VideoColorRange(VideoColorRangeKind),
    AudioCodec(AudioCodecKind),
    AudioChannels(Seq<char>),
    Year(i32),
    Episode(i32),
}

impl TokenModel {
    /// The category of the token.
    pub open spec fn category(self) -> Category {
        match self {
            TokenModel::VideoCodec(_) => Category::VideoCodec,
            TokenModel::VideoResolution(_) => Category::VideoResolution,
            TokenModel::VideoSource(_) => Category::VideoSource,
            TokenModel::VideoColorRange(_) => Category::VideoColorRange,
            TokenModel::AudioCodec(_) => Category::AudioCodec,
            TokenModel::AudioChannels(_) => Category::AudioChannels,
            TokenModel::Year(_) => Category::Year,
            TokenModel::Episode(_) => Category::Episode,
        }
    }
}

impl View for Token {
    type V = TokenModel;

    open spec fn view(&self) -> TokenModel {
        match self {
            Token::VideoCodec(k) => TokenModel::VideoCodec(*k),
            Token::VideoResolution(k) => TokenModel::VideoResolution(*k),
            Token::VideoSource(k) => TokenModel::VideoSource(*k),
            Token::VideoColorRange(k) => TokenModel::VideoColorRange(*k),
            Token::AudioCodec(k) => TokenModel::AudioCodec(*k),
            Token::AudioChannels(t) => TokenModel::AudioChannels(t@),
            Token::Year(y) => TokenModel::Year(*y),
            Token::Episode(e) => TokenModel::Episode(*e),
        }
    }
}

impl Token {
    /// Returns the category of the token.
    pub fn category(&self) -> (c: Category)
        ensures
            c == self@.category(),
    {
        match self {
            Token::VideoCodec(_) => Category::VideoCodec,
            Token::VideoResolution(_) => Category::VideoResolution,
            Token::VideoSource(_) => Category::VideoSource,
            Token::VideoColorRange(_) => Category::VideoColorRange,
            Token::AudioCodec(_) => Category::AudioCodec,
            Token::AudioChannels(_) => Category::AudioChannels,
            Token::Year(_) => Category::Year,
            Token::Episode(_) => Category::Episode,
        }
    }
}

/// The models of a sequence of tokens, in the same order.
pub open spec fn models(tokens: Seq<Token>) -> Seq<TokenModel> {
    tokens.map_values(|t: Token| t@)
}

} // verus!
