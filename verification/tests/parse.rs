use video_filename_parser::kinds::AudioCodecKind;
use video_filename_parser::kinds::VideoCodecKind;
use video_filename_parser::kinds::VideoColorRangeKind;
use video_filename_parser::kinds::VideoResolutionKind;
use video_filename_parser::kinds::VideoSourceKind;
use video_filename_parser::parse::classify;
use video_filename_parser::parse;
use video_filename_parser::parse::parse_with;
use video_filename_parser::parse::classify_with;
use video_filename_parser::ParseResult;
use video_filename_parser::rules::lit;
use video_filename_parser::rules::pattern_table;
use video_filename_parser::rules::Constructor;
use video_filename_parser::rules::Rule;

#[test]
fn generic_test() {
    let entries: Vec<ParseResult> = vec![
        ParseResult {
            file_name: "Tenet 2020 2160p UHD Webdl DTS-HD MA 5.1 x265-LEGi0N".to_string(),
            title: "tenet 2020 2160p uhd webdl dts-hd ma 5.1 x265-legi0n".to_string(),
            year: Some(2020),
            video_codec: Some(VideoCodecKind::H265),
            video_resolution: Some(VideoResolutionKind::R2160P),
            source: Some(VideoSourceKind::Webdl),
            audio_codec: Some(AudioCodecKind::DTSHD),
            audio_channels: Some("5.1".to_string()),
            ..ParseResult::default()
        },
        ParseResult {
            file_name: "Tenet.2020.2160p.UHD.Webdl.dd5.1.x265-LEGi0N".to_string(),
            title: "tenet.2020.2160p.uhd.webdl.dd5.1.x265-legi0n".to_string(),
            year: Some(2020),
            video_codec: Some(VideoCodecKind::H265),
            video_resolution: Some(VideoResolutionKind::R2160P),
            source: Some(VideoSourceKind::Webdl),
            audio_codec: Some(AudioCodecKind::DD51),
            ..ParseResult::default()
        },
        ParseResult {
            file_name: "Sons.of.Anarchy.S03.720p.BluRay.CLUEREWARD".to_string(),
            title: "sons.of.anarchy.s03.720p.bluray.cluereward".to_string(),
            video_resolution: Some(VideoResolutionKind::R720P),
            source: Some(VideoSourceKind::BluRay),
            ..ParseResult::default()
        },
    ];
    for entry in entries {
        let result = parse(&entry.file_name);
        assert_eq!(result, entry);
    }
}

#[test]
fn movies() {
    let title = "Tenet 2020 2160p UHD BluRay DTS-HD MA 5.1 DV x265-LEGi0N".to_string();
    let result = parse(&title);
    assert_eq!(
        result,
        ParseResult {
            file_name: title.clone(),
            title: "tenet 2020 2160p uhd bluray dts-hd ma 5.1 dv x265-legi0n".to_string(),
            year: Some(2020),
            video_codec: Some(VideoCodecKind::H265),
            video_resolution: Some(VideoResolutionKind::R2160P),
            video_color_range: Some(VideoColorRangeKind::DolbyVision),
            source: Some(VideoSourceKind::BluRay),
            audio_codec: Some(AudioCodecKind::DTSHD),
            audio_channels: Some("5.1".to_string()),
            ..ParseResult::default()
        }
    );
}

#[test]
fn empty_name_detects_nothing() {
    let result = parse("");
    assert_eq!(result, ParseResult::default());
    assert_eq!(result.file_name, "");
    assert_eq!(result.year, None);
    assert_eq!(result.video_codec, None);
}

#[test]
fn new_record_is_blank() {
    let r = ParseResult::new("A.mkv".to_string());
    assert_eq!(r.file_name, "A.mkv");
    assert_eq!(r.title, "");
    assert_eq!(r.year, None);
    assert_eq!(r.episode, None);
    assert_eq!(r.video_codec, None);
    assert_eq!(r.video_resolution, None);
    assert_eq!(r.video_color_range, None);
    assert_eq!(r.audio_codec, None);
    assert_eq!(r.audio_channels, None);
    assert_eq!(r.source, None);
}

#[test]
fn later_resolution_wins() {
    let result = parse("show 720p remaster 1080p final");
    assert_eq!(result.video_resolution, Some(VideoResolutionKind::R1080P));
    let result = parse("show 1080p remaster 720p final");
    assert_eq!(result.video_resolution, Some(VideoResolutionKind::R720P));
}

#[test]
fn later_year_wins() {
    let result = parse("Blade Runner 1982 remaster 2007");
    assert_eq!(result.year, Some(2007));
}

#[test]
fn same_name_same_record() {
    let name = "Dune.2021.1080p.WEB-DL.AAC.x264";
    assert_eq!(parse(name), parse(name));
}

#[test]
fn title_is_lowercase_and_file_name_is_kept() {
    let result = parse("DUNE.2021.MKV");
    assert_eq!(result.file_name, "DUNE.2021.MKV");
    assert_eq!(result.title, "dune.2021.mkv");
    assert_eq!(result.year, Some(2021));
}

#[test]
fn normalizing_twice_changes_nothing() {
    let once = parse("Dune.2021.HEVC").title;
    let twice = parse(&once).title;
    assert_eq!(once, twice);
}

#[test]
fn upper_case_name_gives_the_same_fields() {
    let name = "Dune.2021.2160p.BluRay.HDR10.TrueHD.7.1.x265";
    let a = parse(name);
    let b = parse(&name.to_uppercase());
    assert_eq!(a.year, b.year);
    assert_eq!(a.episode, b.episode);
    assert_eq!(a.video_codec, b.video_codec);
    assert_eq!(a.video_resolution, b.video_resolution);
    assert_eq!(a.video_color_range, b.video_color_range);
    assert_eq!(a.audio_codec, b.audio_codec);
    assert_eq!(a.source, b.source);
    assert_eq!(a.year, Some(2021));
    assert_eq!(a.video_codec, Some(VideoCodecKind::H265));
    assert_eq!(a.video_resolution, Some(VideoResolutionKind::R2160P));
    assert_eq!(a.video_color_range, Some(VideoColorRangeKind::HDR));
    assert_eq!(a.audio_codec, Some(AudioCodecKind::TRUEHD));
    assert_eq!(a.audio_channels, Some("7.1".to_string()));
    assert_eq!(a.source, Some(VideoSourceKind::BluRay));
}

#[test]
fn unmatched_characters_are_skipped() {
    let result = parse("\u{1F3AC}!!§§ ~~ (née) — \n\t 1999 ?? \u{1F600}");
    assert_eq!(result.year, Some(1999));
    assert_eq!(result.video_codec, None);
    assert_eq!(result.video_resolution, None);
    assert_eq!(result.source, None);
    assert_eq!(result.audio_codec, None);
    let result = parse("zzzz qqqq ----");
    assert_eq!(
        result,
        ParseResult {
            file_name: "zzzz qqqq ----".to_string(),
            title: "zzzz qqqq ----".to_string(),
            ..ParseResult::default()
        }
    );
}

#[test]
fn field_without_a_match_is_absent() {
    let result = parse("Holiday.Video.1080p");
    assert_eq!(result.video_resolution, Some(VideoResolutionKind::R1080P));
    assert_eq!(result.year, None);
    assert_eq!(result.episode, None);
    assert_eq!(result.video_codec, None);
    assert_eq!(result.video_color_range, None);
    assert_eq!(result.audio_codec, None);
    assert_eq!(result.audio_channels, None);
    assert_eq!(result.source, None);
}

#[test]
fn year_too_large_is_dropped_and_the_scan_goes_on() {
    let result = parse("202020202020 720p");
    assert_eq!(result.year, None);
    assert_eq!(result.video_resolution, Some(VideoResolutionKind::R720P));
    let result = parse("20201999");
    assert_eq!(result.year, Some(20201999));
}

#[test]
fn episode_code_is_not_detected() {
    let result = parse("Show.S01E02.720p");
    assert_eq!(result.episode, None);
    assert_eq!(result.video_resolution, Some(VideoResolutionKind::R720P));
}

#[test]
fn each_category_is_detected() {
    let result = parse("a.divx.480p.web-hd.10bit.flac.6.1.1987");
    assert_eq!(result.video_codec, Some(VideoCodecKind::Divx));
    assert_eq!(result.video_resolution, Some(VideoResolutionKind::R480P));
    assert_eq!(result.source, Some(VideoSourceKind::Webdl));
    assert_eq!(result.video_color_range, Some(VideoColorRangeKind::C10Bit));
    assert_eq!(result.audio_codec, Some(AudioCodecKind::FLAC));
    assert_eq!(result.audio_channels, Some("6.1".to_string()));
    assert_eq!(result.year, Some(1987));
}

#[test]
fn more_patterns() {
    assert_eq!(parse("xvid").video_codec, Some(VideoCodecKind::Xvid));
    assert_eq!(parse("vp9").video_codec, Some(VideoCodecKind::Vp9));
    assert_eq!(parse("H.264").video_codec, Some(VideoCodecKind::H264));
    assert_eq!(parse("HEVC").video_codec, Some(VideoCodecKind::H265));
    assert_eq!(parse("360").video_resolution, Some(VideoResolutionKind::R360P));
    assert_eq!(parse("540p").video_resolution, Some(VideoResolutionKind::R540P));
    assert_eq!(parse("576p").video_resolution, Some(VideoResolutionKind::R576P));
    assert_eq!(parse("1280x720").video_resolution, Some(VideoResolutionKind::R720P));
    assert_eq!(parse("1920x1080").video_resolution, Some(VideoResolutionKind::R1080P));
    assert_eq!(parse("1920x1080").year, None);
    assert_eq!(parse("4K").video_resolution, Some(VideoResolutionKind::R2160P));
    assert_eq!(parse("BDRip").source, Some(VideoSourceKind::BluRay));
    assert_eq!(parse("Blu-Ray").source, Some(VideoSourceKind::BluRay));
    assert_eq!(parse("web").source, Some(VideoSourceKind::Webdl));
    assert_eq!(parse("8bit").video_color_range, Some(VideoColorRangeKind::C8Bit));
    assert_eq!(parse("hi10p").video_color_range, Some(VideoColorRangeKind::C10Bit));
    assert_eq!(parse("HDR10+").video_color_range, Some(VideoColorRangeKind::HDRplus));
    assert_eq!(parse("HDR").video_color_range, Some(VideoColorRangeKind::HDR));
    assert_eq!(parse("Dolby Vision").video_color_range, Some(VideoColorRangeKind::DolbyVision));
    assert_eq!(parse("mp3").audio_codec, Some(AudioCodecKind::MP3));
    assert_eq!(parse("AAC").audio_codec, Some(AudioCodecKind::AAC));
    assert_eq!(parse("AC3").audio_codec, Some(AudioCodecKind::AC3));
    assert_eq!(parse("DD+").audio_codec, Some(AudioCodecKind::DDPLUS51));
    assert_eq!(parse("DTS").audio_codec, Some(AudioCodecKind::DTS));
    assert_eq!(parse("DTS-HD").audio_codec, Some(AudioCodecKind::DTSHD));
}

#[test]
fn classify_reads_the_second_text_only() {
    let result = classify("Anything At All", "film 1999 x264");
    assert_eq!(result.file_name, "Anything At All");
    assert_eq!(result.title, "film 1999 x264");
    assert_eq!(result.year, Some(1999));
    assert_eq!(result.video_codec, Some(VideoCodecKind::H264));
    let upper = classify("x", "FILM 1999 X264 S01E02");
    assert_eq!(upper.year, Some(1999));
    assert_eq!(upper.video_codec, None);
    assert_eq!(upper.episode, None);
}

#[test]
fn identifiers_of_the_cases() {
    assert_eq!(VideoCodecKind::Divx.name(), "Divx");
    assert_eq!(VideoCodecKind::H265.name(), "h265");
    assert_eq!(VideoCodecKind::H264.name(), "h264");
    assert_eq!(VideoResolutionKind::R360P.name(), "360p");
    assert_eq!(VideoResolutionKind::R576P.name(), "576P");
    assert_eq!(VideoResolutionKind::R720P.name(), "720P");
    assert_eq!(VideoResolutionKind::R2160P.name(), "2160p");
    assert_eq!(VideoSourceKind::BluRay.name(), "BluRay");
    assert_eq!(VideoSourceKind::Webdl.name(), "Webdl");
    assert_eq!(VideoColorRangeKind::C8Bit.name(), "8Bit");
    assert_eq!(VideoColorRangeKind::C10Bit.name(), "10Bit");
    assert_eq!(VideoColorRangeKind::HDRplus.name(), "HDRplus");
    assert_eq!(AudioCodecKind::DD51.name(), "DD5.1");
    assert_eq!(AudioCodecKind::DDPLUS51.name(), "DD+5.1");
    assert_eq!(AudioCodecKind::TRUEHD.name(), "TRUEHD");
}

#[test]
fn kept_table_gives_the_same_records() {
    let table = pattern_table();
    for name in ["Dune.2021.1080p.WEB-DL.AAC.x264", "", "Tenet 2020 2160p UHD", "ÄÖ 8bit"] {
        assert_eq!(parse_with(&table, name), parse(name));
    }
}

#[test]
fn table_of_one_rule() {
    let table = vec![Rule { pattern: lit("cam"), make: Constructor::VideoSource(VideoSourceKind::Cam) }];
    let r = parse_with(&table, "Film.CAM.1080p");
    assert_eq!(
        r,
        ParseResult {
            file_name: "Film.CAM.1080p".to_string(),
            title: "film.cam.1080p".to_string(),
            source: Some(VideoSourceKind::Cam),
            ..ParseResult::default()
        }
    );
    let r = classify_with(&table, "Film.CAM.1080p", "Film.CAM.1080p");
    assert_eq!(r.source, None);
    assert_eq!(r.title, "Film.CAM.1080p");
}

#[test]
fn long_name() {
    let mut name = String::new();
    for _ in 0..12 {
        name.push_str("Some.Long.Title-part_");
    }
    name.push_str("1999.576p.DVDRip.AC3.XviD");
    let r = parse(&name);
    assert_eq!(r.file_name, name);
    assert_eq!(r.year, Some(1999));
    assert_eq!(r.video_resolution, Some(VideoResolutionKind::R576P));
    assert_eq!(r.audio_codec, Some(AudioCodecKind::AC3));
    assert_eq!(r.video_codec, Some(VideoCodecKind::Xvid));
    assert_eq!(r.source, None);
}

#[test]
fn letters_that_lowercasing_keeps_apart_stay_apart() {
    let name = "\u{FB02}ac";
    assert_eq!(parse(name).audio_codec, None);
    assert_eq!(parse(name).title, name);
    assert_eq!(parse(&name.to_uppercase()).audio_codec, Some(AudioCodecKind::FLAC));
    assert_eq!(parse("4\u{212A}").video_resolution, Some(VideoResolutionKind::R2160P));
}
