use earr::audio::artist::ArtistError;
use earr::audio::cover::CoverError;
use earr::audio::genre::GenreError;
use earr::audio::title::TitleError;
use earr::audio::year::YearError;
use earr::number::IntegerError;
use earr::parser::audiotags::{AudiotagsAudioParser, AudiotagsAudioParserError, AudiotagsTags};
use earr::parser::date::{date_year, DateError};
use earr::parser::error::{AudioParserError, InnerError};
use earr::parser::ffmpeg::{
    find_tag, FfmpegAudioParser, FfmpegAudioParserError, FfmpegSource, FfprobeFormat, FfprobeOutput,
    FfprobeTags,
};
use earr::text::is_same_name;
use earr::parser::{
    read_album_artist, read_album_title, read_artist, read_cover, read_genre, read_title,
    read_year, AudioEntry, AudioParser, TryableAudioParser,
};

fn entry(path: &str, has_extension: bool) -> AudioEntry {
    AudioEntry { path: path.to_string(), is_file: true, has_extension }
}

fn text(value: &str) -> Option<String> {
    Some(value.to_string())
}

fn full_tags() -> AudiotagsTags {
    AudiotagsTags {
        title: text(" So What "),
        artist: text("Miles Davis"),
        year: Some(1959),
        album_title: text("Kind of Blue"),
        album_artist: text("Miles Davis Sextet"),
        genre: text("Jazz"),
        album_cover: Some(vec![1, 2, 3, 4]),
    }
}

fn no_tags() -> AudiotagsTags {
    AudiotagsTags {
        title: None,
        artist: None,
        year: None,
        album_title: None,
        album_artist: None,
        genre: None,
        album_cover: None,
    }
}

fn probe(tags: FfprobeTags) -> FfprobeOutput {
    FfprobeOutput { format: FfprobeFormat { tags } }
}

fn probed(tags: FfprobeTags, cover: Vec<u8>) -> Result<FfmpegSource, FfmpegAudioParserError> {
    Ok(FfmpegSource { probe: probe(tags), cover: Ok(cover) })
}

fn year_of(year: Option<&str>, date: Option<&str>) -> Result<u16, AudioParserError> {
    let tags = FfprobeTags {
        year: year.map(str::to_string),
        date: date.map(str::to_string),
        ..FfprobeTags::default()
    };
    let attempt =
        FfmpegAudioParser.try_parse(&entry("a.mp3", true), probed(tags, vec![1])).unwrap();
    attempt.year.map(|year| year.value())
}

fn missing(name: &'static str) -> AudioParserError {
    AudioParserError::MissingField(name)
}

fn ffmpeg_error(error: FfmpegAudioParserError) -> AudioParserError {
    AudioParserError::Inner(InnerError::Ffmpeg(error))
}

#[test]
fn field_readers_read_their_tags() {
    assert_eq!(read_title(&text(" a ")).unwrap().as_str(), "a");
    assert_eq!(read_artist(&text(" b ")).unwrap().as_str(), "b");
    assert_eq!(read_album_title(&text(" c ")).unwrap().as_str(), "c");
    assert_eq!(read_album_artist(&text(" d ")).unwrap().as_str(), "d");
    assert_eq!(read_genre(&text(" e ")).unwrap().as_str(), "e");
    assert_eq!(read_year(1987).unwrap().value(), 1987);
    assert_eq!(read_cover(vec![7]).unwrap().as_bytes(), &vec![7]);
}

#[test]
fn field_readers_name_the_missing_tag() {
    assert_eq!(read_title(&None), Err(missing("title")));
    assert_eq!(read_artist(&None), Err(missing("artist")));
    assert_eq!(read_album_title(&None), Err(missing("album_title")));
    assert_eq!(read_album_artist(&None), Err(missing("album_artist")));
    assert_eq!(read_genre(&None), Err(missing("genre")));
}

#[test]
fn field_readers_say_what_is_wrong_with_a_tag() {
    assert_eq!(read_title(&text(" ")), Err(AudioParserError::Title(TitleError::Empty)));
    assert_eq!(read_artist(&text("")), Err(AudioParserError::Artist(ArtistError::Empty)));
    assert_eq!(read_album_title(&text("\t")), Err(AudioParserError::AlbumTitle(TitleError::Empty)));
    assert_eq!(
        read_album_artist(&text("\n")),
        Err(AudioParserError::AlbumArtist(ArtistError::Empty))
    );
    assert_eq!(read_genre(&text("  ")), Err(AudioParserError::Genre(GenreError::Empty)));
    assert_eq!(read_year(0), Err(AudioParserError::Year(YearError::Invalid)));
    assert_eq!(read_cover(Vec::new()), Err(AudioParserError::Cover(CoverError::Empty)));
}

#[test]
fn audiotags_reads_every_field() {
    let attempt =
        AudiotagsAudioParser.try_parse(&entry("a.flac", true), Ok(full_tags())).unwrap();
    assert_eq!(attempt.title.unwrap().as_str(), "So What");
    assert_eq!(attempt.artist.unwrap().as_str(), "Miles Davis");
    assert_eq!(attempt.year.unwrap().value(), 1959);
    assert_eq!(attempt.album_title.unwrap().as_str(), "Kind of Blue");
    assert_eq!(attempt.album_artist.unwrap().as_str(), "Miles Davis Sextet");
    assert_eq!(attempt.genre.unwrap().as_str(), "Jazz");
    assert_eq!(attempt.album_cover.unwrap().into_bytes(), vec![1, 2, 3, 4]);
}

#[test]
fn audiotags_names_each_missing_field() {
    let attempt = AudiotagsAudioParser.try_parse(&entry("a.flac", true), Ok(no_tags())).unwrap();
    assert_eq!(attempt.title, Err(missing("title")));
    assert_eq!(attempt.artist, Err(missing("artist")));
    assert_eq!(attempt.year, Err(missing("year")));
    assert_eq!(attempt.album_title, Err(missing("album_title")));
    assert_eq!(attempt.album_artist, Err(missing("album_artist")));
    assert_eq!(attempt.genre, Err(missing("genre")));
    assert_eq!(attempt.album_cover, Err(missing("album_cover")));
}

#[test]
fn audiotags_keeps_what_it_read_beside_what_it_did_not() {
    let tags = AudiotagsTags {
        title: text("   "),
        year: Some(-3),
        album_cover: Some(Vec::new()),
        genre: None,
        ..full_tags()
    };
    let attempt = AudiotagsAudioParser.try_parse(&entry("a.mp3", true), Ok(tags)).unwrap();
    assert_eq!(attempt.title, Err(AudioParserError::Title(TitleError::Empty)));
    assert_eq!(attempt.artist.unwrap().as_str(), "Miles Davis");
    assert_eq!(attempt.year, Err(AudioParserError::Year(YearError::Invalid)));
    assert_eq!(attempt.album_title.unwrap().as_str(), "Kind of Blue");
    assert_eq!(attempt.album_artist.unwrap().as_str(), "Miles Davis Sextet");
    assert_eq!(attempt.genre, Err(missing("genre")));
    assert_eq!(attempt.album_cover, Err(AudioParserError::Cover(CoverError::Empty)));
}

#[test]
fn audiotags_refuses_a_file_without_extension() {
    let outcome = AudiotagsAudioParser.try_parse(&entry("README", false), Ok(full_tags()));
    assert_eq!(
        outcome,
        Err(AudioParserError::Inner(InnerError::Audiotags(AudiotagsAudioParserError::NoExtension)))
    );
}

#[test]
fn audiotags_checks_the_extension_before_the_tags() {
    let outcome = AudiotagsAudioParser.try_parse(&entry("README", false), Err("broken".to_string()));
    assert_eq!(
        outcome,
        Err(AudioParserError::Inner(InnerError::Audiotags(AudiotagsAudioParserError::NoExtension)))
    );
}

#[test]
fn audiotags_passes_on_what_the_tag_library_reported() {
    let outcome =
        AudiotagsAudioParser.try_parse(&entry("a.mp3", true), Err("not an mp3".to_string()));
    assert_eq!(
        outcome,
        Err(AudioParserError::Inner(InnerError::Audiotags(AudiotagsAudioParserError::Audiotags(
            "not an mp3".to_string()
        ))))
    );
}

#[test]
fn ffmpeg_reads_every_field() {
    let tags = FfprobeTags {
        title: text("Naima"),
        album: text("Giant Steps"),
        album_artist: text("John Coltrane"),
        artist: text(" John Coltrane "),
        date: text("1960-01-27"),
        year: None,
        genre: text("Jazz"),
    };
    let attempt =
        FfmpegAudioParser.try_parse(&entry("a.ogg", true), probed(tags, vec![9, 9])).unwrap();
    assert_eq!(attempt.title.unwrap().as_str(), "Naima");
    assert_eq!(attempt.artist.unwrap().as_str(), "John Coltrane");
    assert_eq!(attempt.year.unwrap().value(), 1960);
    assert_eq!(attempt.album_title.unwrap().as_str(), "Giant Steps");
    assert_eq!(attempt.album_artist.unwrap().as_str(), "John Coltrane");
    assert_eq!(attempt.genre.unwrap().as_str(), "Jazz");
    assert_eq!(attempt.album_cover.unwrap().into_bytes(), vec![9, 9]);
}

#[test]
fn ffmpeg_names_each_missing_field() {
    let attempt = FfmpegAudioParser
        .try_parse(&entry("a.ogg", true), probed(FfprobeTags::default(), Vec::new()))
        .unwrap();
    assert_eq!(attempt.title, Err(missing("title")));
    assert_eq!(attempt.artist, Err(missing("artist")));
    assert_eq!(attempt.year, Err(missing("date")));
    assert_eq!(attempt.album_title, Err(missing("album_title")));
    assert_eq!(attempt.album_artist, Err(missing("album_artist")));
    assert_eq!(attempt.genre, Err(missing("genre")));
    assert_eq!(attempt.album_cover, Err(AudioParserError::Cover(CoverError::Empty)));
}

#[test]
fn ffmpeg_needs_no_extension() {
    let tags = FfprobeTags { title: text("Naima"), ..FfprobeTags::default() };
    let attempt =
        FfmpegAudioParser.try_parse(&entry("track", false), probed(tags, vec![1])).unwrap();
    assert_eq!(attempt.title.unwrap().as_str(), "Naima");
}

#[test]
fn ffmpeg_passes_on_a_failed_probe() {
    for error in [
        FfmpegAudioParserError::Ffprobe("no such program".to_string()),
        FfmpegAudioParserError::FfprobeUtf8("invalid utf-8".to_string()),
        FfmpegAudioParserError::FfprobeJson("missing field `format`".to_string()),
    ] {
        let outcome = FfmpegAudioParser.try_parse(&entry("a.mp3", true), Err(error.clone()));
        assert_eq!(outcome, Err(ffmpeg_error(error)));
    }
}

#[test]
fn ffmpeg_keeps_the_tags_where_the_cover_tool_failed() {
    let source = FfmpegSource {
        probe: probe(FfprobeTags { title: text("Naima"), ..FfprobeTags::default() }),
        cover: Err(FfmpegAudioParserError::Ffmpeg("no such program".to_string())),
    };
    let attempt = FfmpegAudioParser.try_parse(&entry("a.mp3", true), Ok(source)).unwrap();
    assert_eq!(attempt.title.unwrap().as_str(), "Naima");
    assert_eq!(
        attempt.album_cover,
        Err(ffmpeg_error(FfmpegAudioParserError::Ffmpeg("no such program".to_string())))
    );
}

#[test]
fn year_comes_from_the_year_tag() {
    assert_eq!(year_of(Some("2001"), None), Ok(2001));
}

#[test]
fn year_tag_goes_before_the_date_tag() {
    assert_eq!(year_of(Some("2001"), Some("1999-05-01")), Ok(2001));
}

#[test]
fn year_comes_from_a_full_date() {
    assert_eq!(year_of(None, Some("1999-05-01")), Ok(1999));
}

#[test]
fn year_comes_from_a_date_that_is_a_year() {
    assert_eq!(year_of(None, Some("1987")), Ok(1987));
}

#[test]
fn date_makes_up_for_a_year_tag_that_is_no_number() {
    assert_eq!(year_of(Some("nineteen"), Some("1999-05-01")), Ok(1999));
    assert_eq!(year_of(Some(""), Some("1987")), Ok(1987));
}

#[test]
fn year_zero_is_absent() {
    assert_eq!(year_of(Some("0"), None), Err(AudioParserError::Year(YearError::Invalid)));
}

#[test]
fn negative_year_is_absent() {
    assert_eq!(year_of(Some("-44"), None), Err(AudioParserError::Year(YearError::Invalid)));
}

#[test]
fn date_does_not_make_up_for_a_number_that_is_no_year() {
    assert_eq!(
        year_of(Some("0"), Some("1999-05-01")),
        Err(AudioParserError::Year(YearError::Invalid))
    );
}

#[test]
fn year_is_absent_without_year_and_date() {
    assert_eq!(year_of(None, None), Err(missing("date")));
}

#[test]
fn year_is_absent_where_the_date_is_none() {
    assert_eq!(
        year_of(None, Some("yesterday")),
        Err(ffmpeg_error(FfmpegAudioParserError::InvalidDate(DateError::Invalid)))
    );
    assert!(year_of(Some("x"), Some("1999-13-01")).is_err());
    assert!(year_of(None, Some("1999-02-30")).is_err());
    assert!(year_of(None, Some("")).is_err());
}

#[test]
fn resolve_year_takes_the_year_tag_first() {
    let year = FfmpegAudioParser::resolve_year(&text("2001"), Some(Ok(1999)));
    assert_eq!(year.unwrap().value(), 2001);
}

#[test]
fn resolve_year_falls_back_on_the_date() {
    assert_eq!(FfmpegAudioParser::resolve_year(&None, Some(Ok(1999))).unwrap().value(), 1999);
    assert_eq!(FfmpegAudioParser::resolve_year(&text("x"), Some(Ok(1987))).unwrap().value(), 1987);
}

#[test]
fn resolve_year_reports_the_date() {
    assert_eq!(FfmpegAudioParser::resolve_year(&text("x"), None), Err(missing("date")));
    assert_eq!(
        FfmpegAudioParser::resolve_year(&None, Some(Err(DateError::TooLong))),
        Err(ffmpeg_error(FfmpegAudioParserError::InvalidDate(DateError::TooLong)))
    );
}

#[test]
fn resolve_year_checks_the_number() {
    assert_eq!(
        FfmpegAudioParser::resolve_year(&text("70000"), Some(Ok(1999))),
        Err(AudioParserError::Year(YearError::Invalid))
    );
    assert_eq!(
        FfmpegAudioParser::resolve_year(&None, Some(Ok(-5))),
        Err(AudioParserError::Year(YearError::Invalid))
    );
    assert_eq!(
        FfmpegAudioParser::resolve_year(&None, Some(Ok(0))),
        Err(AudioParserError::Year(YearError::Invalid))
    );
}

#[test]
fn date_year_reads_full_dates_and_years() {
    assert_eq!(date_year("1999-05-01"), Ok(1999));
    assert_eq!(date_year("1987"), Ok(1987));
    assert_eq!(date_year("2024-02-29"), Ok(2024));
    assert_eq!(date_year("0001-01-01"), Ok(1));
}

#[test]
fn date_year_rejects_what_is_no_date() {
    assert_eq!(date_year("yesterday"), Err(DateError::Invalid));
    assert_eq!(date_year("1999-05"), Err(DateError::TooLong));
    assert_eq!(date_year("1999-13-01"), Err(DateError::OutOfRange));
    assert!(date_year("2023-02-29").is_err());
    assert!(date_year("").is_err());
}

#[test]
fn date_year_is_not_its_argument() {
    assert_ne!(date_year("1999-05-01").map(|year| year.to_string()), Ok("1999-05-01".to_string()));
    assert_eq!(date_year("-0044-03-15"), Ok(-44));
}

#[test]
fn parse_puts_defaults_where_the_reader_read_nothing() {
    let audio = AudiotagsAudioParser.parse(&entry("a.mp3", true), Ok(no_tags())).unwrap();
    assert_eq!(audio.title().as_str(), "UNKNOWN");
    assert_eq!(audio.artist().as_str(), "UNKNOWN");
    assert_eq!(audio.year(), &None);
    assert_eq!(audio.album_title().as_str(), "UNKNOWN");
    assert_eq!(audio.album_artist().as_str(), "UNKNOWN");
    assert_eq!(audio.genre().as_str(), "UNKNOWN");
    assert_eq!(audio.album_cover().as_bytes().as_slice(), &earr::audio::cover::DEFAULT_COVER[..]);
}

#[test]
fn parse_keeps_what_the_reader_read() {
    let audio = AudiotagsAudioParser.parse(&entry("a.mp3", true), Ok(full_tags())).unwrap();
    assert_eq!(audio.title().as_str(), "So What");
    assert_eq!(audio.artist().as_str(), "Miles Davis");
    assert_eq!(audio.year().map(|year| year.value()), Some(1959));
    assert_eq!(audio.album_title().as_str(), "Kind of Blue");
    assert_eq!(audio.album_artist().as_str(), "Miles Davis Sextet");
    assert_eq!(audio.genre().as_str(), "Jazz");
    assert_eq!(audio.album_cover().as_bytes(), &vec![1, 2, 3, 4]);
}

#[test]
fn parse_fails_where_the_file_could_not_be_read() {
    let outcome = AudiotagsAudioParser.parse(&entry("a", false), Ok(full_tags()));
    assert_eq!(
        outcome.unwrap_err(),
        AudioParserError::Inner(InnerError::Audiotags(AudiotagsAudioParserError::NoExtension))
    );
    let outcome = FfmpegAudioParser
        .parse(&entry("a.mp3", true), Err(FfmpegAudioParserError::Ffprobe("gone".to_string())));
    assert_eq!(
        outcome.unwrap_err(),
        ffmpeg_error(FfmpegAudioParserError::Ffprobe("gone".to_string()))
    );
}

#[test]
fn ffmpeg_parse_leaves_out_a_year_that_is_none() {
    let tags = FfprobeTags { year: text("0"), title: text("x"), ..FfprobeTags::default() };
    let audio = FfmpegAudioParser.parse(&entry("a.mp3", true), probed(tags, vec![3])).unwrap();
    assert_eq!(audio.year(), &None);
    assert_eq!(audio.title().as_str(), "x");
    assert_eq!(audio.album_cover().as_bytes(), &vec![3]);
}

#[test]
fn parsing_twice_gives_the_same_record() {
    let first = AudiotagsAudioParser.parse(&entry("a.mp3", true), Ok(full_tags())).unwrap();
    let second = AudiotagsAudioParser.parse(&entry("a.mp3", true), Ok(full_tags())).unwrap();
    assert_eq!(first, second);
    assert_eq!(first.album_cover(), second.album_cover());
    let first = FfmpegAudioParser
        .parse(&entry("a.mp3", true), probed(FfprobeTags::default(), Vec::new()))
        .unwrap();
    let second = FfmpegAudioParser
        .parse(&entry("a.mp3", true), probed(FfprobeTags::default(), Vec::new()))
        .unwrap();
    assert_eq!(first, second);
    assert_eq!(first.album_cover(), second.album_cover());
}

#[test]
fn invalid_year_is_kept_for_the_year_tag() {
    let error = FfmpegAudioParserError::InvalidYear(IntegerError::InvalidDigit);
    assert_eq!(error.message(), "Invalid year: invalid digit found in string");
}

fn pairs(list: &[(&str, &str)]) -> Vec<(String, String)> {
    list.iter().map(|(name, value)| (name.to_string(), value.to_string())).collect()
}

#[test]
fn tags_are_found_whatever_the_case_of_their_names() {
    let tags = FfprobeTags::from_pairs(&pairs(&[
        ("ALBUM", "Giant Steps"),
        ("album_artist", "John Coltrane"),
        ("Artist", "Coltrane"),
        ("DATE", "1960"),
        ("encoder", "Lavf58"),
        ("gEnRe", "Jazz"),
        ("title", "Naima"),
        ("YEAR", "1960"),
    ]));
    assert_eq!(
        tags,
        FfprobeTags {
            title: text("Naima"),
            album: text("Giant Steps"),
            album_artist: text("John Coltrane"),
            artist: text("Coltrane"),
            date: text("1960"),
            year: text("1960"),
            genre: text("Jazz"),
        }
    );
}

#[test]
fn tags_that_are_not_there_are_absent() {
    assert_eq!(FfprobeTags::from_pairs(&Vec::new()), FfprobeTags::default());
    let tags = FfprobeTags::from_pairs(&pairs(&[("TITLE", "x"), ("comment", "y")]));
    assert_eq!(tags, FfprobeTags { title: text("x"), ..FfprobeTags::default() });
}

#[test]
fn only_whole_names_match() {
    let tags = FfprobeTags::from_pairs(&pairs(&[
        ("titles", "a"),
        ("titl", "b"),
        (" title", "c"),
        ("album-artist", "d"),
        ("albumartist", "e"),
        ("t\u{131}tle", "f"),
        ("\u{212a}", "g"),
    ]));
    assert_eq!(tags, FfprobeTags::default());
}

#[test]
fn the_first_of_two_tags_of_one_name_is_taken() {
    let tags = FfprobeTags::from_pairs(&pairs(&[("TITLE", "first"), ("title", "second")]));
    assert_eq!(tags.title, text("first"));
    let found = find_tag(&pairs(&[("a", "1"), ("A", "2"), ("a", "3")]), "A");
    assert_eq!(found, text("1"));
}

#[test]
fn find_tag_keeps_the_value_as_it_is() {
    let found = find_tag(&pairs(&[("genre", "  Jazz ")]), "GENRE");
    assert_eq!(found, text("  Jazz "));
    assert_eq!(find_tag(&pairs(&[("genre", "Jazz")]), "title"), None);
}

#[test]
fn names_are_compared_without_case() {
    assert!(is_same_name("", ""));
    assert!(is_same_name("album_artist", "ALBUM_ARTIST"));
    assert!(is_same_name("Date", "dATE"));
    assert!(!is_same_name("date", "dates"));
    assert!(!is_same_name("date", "data"));
    assert!(!is_same_name("@", "`"));
    assert!(!is_same_name("[", "{"));
    assert!(!is_same_name("\u{e9}", "\u{c9}"));
    for (one, other) in [("a", "A"), ("z", "Z"), ("a1_", "A1_"), ("", "x"), ("k", "\u{212a}")] {
        assert_eq!(is_same_name(one, other), one.eq_ignore_ascii_case(other));
    }
}

#[test]
fn tags_read_from_pairs_are_parsed() {
    let tags = FfprobeTags::from_pairs(&pairs(&[("TITLE", " Naima "), ("date", "1960-01-27")]));
    let attempt =
        FfmpegAudioParser.try_parse(&entry("a.flac", true), probed(tags, vec![1])).unwrap();
    assert_eq!(attempt.title.unwrap().as_str(), "Naima");
    assert_eq!(attempt.year.unwrap().value(), 1960);
}

#[test]
fn a_year_alone_is_the_date_of_its_first_day() {
    assert!(chrono::NaiveDate::parse_from_str("1987", "%Y").is_err());
    assert!(chrono::NaiveDate::parse_from_str("1987", "%Y-%m-%d").is_err());
    assert_eq!(
        chrono::NaiveDate::parse_from_str("1987-01-01", "%Y-%m-%d").ok(),
        chrono::NaiveDate::from_ymd_opt(1987, 1, 1)
    );
    assert_eq!(date_year("1987"), date_year("1987-01-01"));
}

#[test]
fn a_date_before_the_first_year_is_absent() {
    assert_eq!(date_year("0000-01-01"), Ok(0));
    assert_eq!(year_of(None, Some("0000-01-01")), Err(AudioParserError::Year(YearError::Invalid)));
    assert_eq!(year_of(None, Some("-0044-03-15")), Err(AudioParserError::Year(YearError::Invalid)));
    assert_eq!(year_of(None, Some("0")), Err(AudioParserError::Year(YearError::Invalid)));
}

#[test]
fn a_date_that_ends_early_is_too_short() {
    assert_eq!(date_year(""), Err(DateError::TooShort));
    assert_eq!(
        year_of(None, Some("")),
        Err(ffmpeg_error(FfmpegAudioParserError::InvalidDate(DateError::TooShort)))
    );
}
