use video_filename_parser::kinds::VideoCodecKind;
use video_filename_parser::lexer::first_match;
use video_filename_parser::lexer::tokenize;
use video_filename_parser::number::read_number;
use video_filename_parser::pattern::chars_of;
use video_filename_parser::pattern::CharSet;
use video_filename_parser::record::reduce;
use video_filename_parser::record::ParseResult;
use video_filename_parser::rules::any;
use video_filename_parser::rules::ch;
use video_filename_parser::rules::delimiter;
use video_filename_parser::rules::digit;
use video_filename_parser::rules::lit;
use video_filename_parser::rules::many;
use video_filename_parser::rules::non_word;
use video_filename_parser::rules::opt;
use video_filename_parser::rules::or;
use video_filename_parser::rules::pattern_table;
use video_filename_parser::rules::then;
use video_filename_parser::rules::Constructor;
use video_filename_parser::rules::Rule;
use video_filename_parser::token::Category;
use video_filename_parser::token::Token;

#[test]
fn character_sets() {
    assert!(CharSet::Is('x').contains('x'));
    assert!(!CharSet::Is('x').contains('y'));
    assert!(CharSet::Any.contains('é'));
    assert!(!CharSet::Any.contains('\n'));
    assert!(CharSet::Digit.contains('0'));
    assert!(CharSet::Digit.contains('9'));
    assert!(!CharSet::Digit.contains('a'));
    assert!(CharSet::NonWord.contains('-'));
    assert!(!CharSet::NonWord.contains('_'));
    assert!(!CharSet::NonWord.contains('Z'));
    assert!(CharSet::Delimiter.contains('_'));
    assert!(CharSet::Delimiter.contains(' '));
    assert!(!CharSet::Delimiter.contains('7'));
}

#[test]
fn longest_match_of_one_pattern() {
    let text = chars_of("abab-c");
    assert_eq!(lit("ab").longest_match(&text, 0), 2);
    assert_eq!(lit("ab").longest_match(&text, 1), 1);
    assert_eq!(many(lit("ab")).longest_match(&text, 0), 4);
    assert_eq!(many(lit("ab")).longest_match(&text, 2), 4);
    assert_eq!(or(lit("a"), lit("abab")).longest_match(&text, 0), 4);
    assert_eq!(or(lit("abab"), lit("a")).longest_match(&text, 0), 4);
    assert_eq!(then(lit("abab"), opt(then(opt(delimiter()), ch('c')))).longest_match(&text, 0), 6);
    assert_eq!(then(lit("abab"), then(non_word(), any())).longest_match(&text, 0), 6);
    assert_eq!(then(lit("abab"), digit()).longest_match(&text, 0), 0);
    assert_eq!(opt(ch('z')).longest_match(&text, 0), 0);
    assert_eq!(lit("c").longest_match(&text, 5), 6);
    assert_eq!(lit("c").longest_match(&text, 6), 6);
    assert_eq!(lit("c").longest_match(&text, 9), 9);
    assert_eq!(lit("").longest_match(&text, 0), 0);
}

#[test]
fn repetition_of_a_pattern_that_may_be_empty() {
    let text = chars_of("aaab");
    assert_eq!(many(opt(ch('a'))).longest_match(&text, 0), 3);
    assert_eq!(many(or(ch('a'), ch('b'))).longest_match(&text, 1), 4);
}

#[test]
fn first_rule_of_the_table_wins() {
    let table = vec![
        Rule { pattern: lit("a"), make: Constructor::VideoCodec(VideoCodecKind::Divx) },
        Rule { pattern: lit("ab"), make: Constructor::VideoCodec(VideoCodecKind::Xvid) },
        Rule { pattern: lit("b"), make: Constructor::VideoCodec(VideoCodecKind::Vp9) },
    ];
    let text = chars_of("ab");
    assert_eq!(first_match(&table, &text, 0), Some((0, 1)));
    assert_eq!(first_match(&table, &text, 1), Some((2, 2)));
    assert_eq!(first_match(&table, &text, 2), None);
    assert_eq!(
        tokenize(&table, "ab"),
        vec![Token::VideoCodec(VideoCodecKind::Divx), Token::VideoCodec(VideoCodecKind::Vp9)]
    );
}

#[test]
fn taken_rule_covers_its_longest_match() {
    let table = pattern_table();
    assert_eq!(table.len(), 32);
    assert_eq!(tokenize(&table, "510"), vec![Token::AudioChannels("510".to_string())]);
    assert_eq!(tokenize(&table, "51 "), vec![Token::AudioChannels("51".to_string())]);
    assert_eq!(
        tokenize(&table, "x265 5.1"),
        vec![Token::VideoCodec(VideoCodecKind::H265), Token::AudioChannels("5.1".to_string())]
    );
    assert_eq!(tokenize(&table, "19992020"), vec![Token::Year(19992020)]);
    assert_eq!(tokenize(&table, "1999202"), vec![Token::Year(1999)]);
    assert_eq!(tokenize(&table, ""), Vec::<Token>::new());
    assert_eq!(tokenize(&table, "S01E02"), Vec::<Token>::new());
}

#[test]
fn resolution_is_tried_before_audio_channels() {
    let table = pattern_table();
    let tokens = tokenize(&table, "720");
    assert_eq!(tokens.len(), 1);
    assert_eq!(tokens[0].category(), Category::VideoResolution);
    let tokens = tokenize(&table, "7.1");
    assert_eq!(tokens, vec![Token::AudioChannels("7.1".to_string())]);
    assert_eq!(tokens[0].category(), Category::AudioChannels);
}

#[test]
fn numbers() {
    assert_eq!(read_number(&chars_of("2147483647")), Some(2147483647));
    assert_eq!(read_number(&chars_of("2147483648")), None);
    assert_eq!(read_number(&chars_of("214748364")), Some(214748364));
    assert_eq!(read_number(&chars_of("99999999999999999999999999")), None);
    assert_eq!(read_number(&chars_of("12a")), None);
    assert_eq!(read_number(&chars_of("12")), Some(12));
    assert_eq!(read_number(&chars_of("007")), Some(7));
    assert_eq!(read_number(&chars_of("0")), Some(0));
    assert_eq!(read_number(&chars_of("")), None);
    assert_eq!(read_number(&chars_of("-5")), None);
    assert_eq!(read_number(&chars_of("S01E02")), None);
}

#[test]
fn constructors() {
    assert_eq!(Constructor::Year.make("1999"), Some(Token::Year(1999)));
    assert_eq!(Constructor::Episode.make("1999"), Some(Token::Episode(1999)));
    assert_eq!(Constructor::Year.make("9 5"), None);
    assert_eq!(Constructor::Year.make("202020202020"), None);
    assert_eq!(
        Constructor::AudioChannels.make("5.1"),
        Some(Token::AudioChannels("5.1".to_string()))
    );
    assert_eq!(
        Constructor::VideoCodec(VideoCodecKind::Vp9).make("anything"),
        Some(Token::VideoCodec(VideoCodecKind::Vp9))
    );
}

#[test]
fn fold_keeps_the_last_token_of_each_category() {
    let tokens = vec![
        Token::Year(1999),
        Token::VideoCodec(VideoCodecKind::H264),
        Token::Year(2004),
        Token::AudioChannels("5.1".to_string()),
        Token::Episode(3),
        Token::AudioChannels("7.1".to_string()),
    ];
    let r = reduce("F".to_string(), "f".to_string(), &tokens);
    assert_eq!(
        r,
        ParseResult {
            file_name: "F".to_string(),
            title: "f".to_string(),
            year: Some(2004),
            episode: Some(3),
            video_codec: Some(VideoCodecKind::H264),
            audio_channels: Some("7.1".to_string()),
            ..ParseResult::default()
        }
    );
    let mut r = r;
    r.record(&Token::Year(1));
    assert_eq!(r.year, Some(1));
    assert_eq!(r.episode, Some(3));
}

#[test]
fn characters_of_a_text() {
    assert_eq!(chars_of("aé\u{1F600}"), vec!['a', 'é', '\u{1F600}']);
    assert_eq!(chars_of(""), Vec::<char>::new());
}
