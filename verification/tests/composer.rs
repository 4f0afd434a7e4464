use std::str::FromStr;

use earr::audio::artist::Artist;
use earr::audio::cover::Cover;
use earr::audio::genre::Genre;
use earr::audio::title::{Title, TitleError};
use earr::audio::year::Year;
use earr::parser::audiotags::AudiotagsAudioParserError;
use earr::parser::error::{AudioParserError, InnerError, ResilientAudioParserError};
use earr::parser::resilient_audio_parser::{ParseStep, ParserKind, ResilientAudioParser};
use earr::parser::{assemble, AudioEntry, AudioParser, ParsedAudioTry, TryableAudioParser};

type Outcome = Result<ParsedAudioTry, AudioParserError>;

fn complete(tag: &str) -> ParsedAudioTry {
    ParsedAudioTry {
        title: Ok(Title::from_str(&format!("title {}", tag)).unwrap()),
        artist: Ok(Artist::from_str(&format!("artist {}", tag)).unwrap()),
        year: Ok(Year::new(1900 + tag.len() as u16)),
        album_title: Ok(Title::from_str(&format!("album {}", tag)).unwrap()),
        album_artist: Ok(Artist::from_str(&format!("album artist {}", tag)).unwrap()),
        album_cover: Ok(Cover::new(tag.as_bytes().to_vec()).unwrap()),
        genre: Ok(Genre::from_str(&format!("genre {}", tag)).unwrap()),
    }
}

fn empty() -> ParsedAudioTry {
    ParsedAudioTry {
        title: Err(AudioParserError::MissingField("title")),
        artist: Err(AudioParserError::MissingField("artist")),
        year: Err(AudioParserError::MissingField("year")),
        album_title: Err(AudioParserError::MissingField("album_title")),
        album_artist: Err(AudioParserError::MissingField("album_artist")),
        album_cover: Err(AudioParserError::MissingField("album_cover")),
        genre: Err(AudioParserError::MissingField("genre")),
    }
}

fn no_parser_left() -> AudioParserError {
    AudioParserError::Inner(InnerError::Resilient(ResilientAudioParserError::NoParserLeft))
}

fn next_parser(error: AudioParserError) -> AudioParserError {
    AudioParserError::Inner(InnerError::Resilient(ResilientAudioParserError::NextParser(
        Box::new(error),
    )))
}

fn unreadable() -> AudioParserError {
    AudioParserError::Inner(InnerError::Audiotags(AudiotagsAudioParserError::NoExtension))
}

fn entry() -> AudioEntry {
    AudioEntry { path: "a.mp3".to_string(), is_file: true, has_extension: true }
}

/// Runs the composer over readers that answer with `outcomes`, one each, and
/// returns the result with the readers that were asked.
fn run(parsers: Vec<ParserKind>, outcomes: Vec<Outcome>) -> (Outcome, Vec<ParserKind>) {
    let mut outcomes = outcomes.into_iter();
    let mut asked = Vec::new();
    let mut step = ResilientAudioParser::begin(parsers);
    loop {
        match step {
            ParseStep::Finish(outcome) => return (outcome, asked),
            ParseStep::Invoke { session, parser } => {
                asked.push(parser);
                step = session.resume(outcomes.next().unwrap());
            },
        }
    }
}

#[test]
fn the_readers_are_asked_fast_one_first() {
    assert_eq!(ResilientAudioParser::parsers(), vec![ParserKind::Audiotags, ParserKind::Ffmpeg]);
}

#[test]
fn a_complete_first_attempt_ends_the_work() {
    let (outcome, asked) = run(ResilientAudioParser::parsers(), vec![Ok(complete("a"))]);
    assert_eq!(outcome, Ok(complete("a")));
    assert_eq!(asked, vec![ParserKind::Audiotags]);
}

#[test]
fn later_readers_are_never_asked_after_a_complete_attempt() {
    let parsers = vec![
        ParserKind::Ffmpeg,
        ParserKind::Audiotags,
        ParserKind::Ffmpeg,
        ParserKind::Audiotags,
    ];
    let (outcome, asked) = run(parsers, vec![Ok(complete("only"))]);
    assert_eq!(outcome, Ok(complete("only")));
    assert_eq!(asked, vec![ParserKind::Ffmpeg]);
}

#[test]
fn the_next_reader_is_asked_for_one_open_field() {
    let first = ParsedAudioTry { genre: Err(AudioParserError::MissingField("genre")), ..complete("a") };
    let (outcome, asked) =
        run(ResilientAudioParser::parsers(), vec![Ok(first), Ok(complete("b"))]);
    let expected = ParsedAudioTry { genre: complete("b").genre, ..complete("a") };
    assert_eq!(outcome, Ok(expected));
    assert_eq!(asked, vec![ParserKind::Audiotags, ParserKind::Ffmpeg]);
}

#[test]
fn each_field_comes_from_the_first_reader_that_read_it() {
    let first = ParsedAudioTry {
        title: Err(AudioParserError::Title(TitleError::Empty)),
        year: Err(AudioParserError::MissingField("year")),
        album_cover: Err(AudioParserError::MissingField("album_cover")),
        ..complete("a")
    };
    let second = ParsedAudioTry {
        artist: Err(AudioParserError::MissingField("artist")),
        year: Err(AudioParserError::MissingField("date")),
        ..complete("b")
    };
    let composed = ResilientAudioParser::compose(vec![Ok(first), Ok(second)]).unwrap();
    assert_eq!(composed.title, complete("b").title);
    assert_eq!(composed.artist, complete("a").artist);
    assert_eq!(
        composed.year,
        Err(next_parser(next_parser(no_parser_left())))
    );
    assert_eq!(composed.album_title, complete("a").album_title);
    assert_eq!(composed.album_artist, complete("a").album_artist);
    assert_eq!(composed.album_cover, complete("b").album_cover);
    assert_eq!(composed.genre, complete("a").genre);
}

#[test]
fn second_reader_fills_each_field_alone() {
    let fields: [fn(&mut ParsedAudioTry); 7] = [
        |a| a.title = Err(AudioParserError::MissingField("title")),
        |a| a.artist = Err(AudioParserError::MissingField("artist")),
        |a| a.year = Err(AudioParserError::MissingField("year")),
        |a| a.album_title = Err(AudioParserError::MissingField("album_title")),
        |a| a.album_artist = Err(AudioParserError::MissingField("album_artist")),
        |a| a.album_cover = Err(AudioParserError::MissingField("album_cover")),
        |a| a.genre = Err(AudioParserError::MissingField("genre")),
    ];
    for (at, open) in fields.iter().enumerate() {
        let mut first = complete("a");
        open(&mut first);
        let composed = ResilientAudioParser::compose(vec![Ok(first), Ok(complete("b"))]).unwrap();
        let a = complete("a");
        let b = complete("b");
        assert_eq!(composed.title, if at == 0 { b.title } else { a.title });
        assert_eq!(composed.artist, if at == 1 { b.artist } else { a.artist });
        assert_eq!(composed.year, if at == 2 { b.year } else { a.year });
        assert_eq!(composed.album_title, if at == 3 { b.album_title } else { a.album_title });
        assert_eq!(composed.album_artist, if at == 4 { b.album_artist } else { a.album_artist });
        assert_eq!(composed.album_cover, if at == 5 { b.album_cover } else { a.album_cover });
        assert_eq!(composed.genre, if at == 6 { b.genre } else { a.genre });
    }
}

#[test]
fn second_reader_fills_a_field_whatever_the_others_hold() {
    let first = ParsedAudioTry { artist: complete("a").artist, ..empty() };
    let second = ParsedAudioTry { title: complete("b").title, ..empty() };
    let composed = ResilientAudioParser::compose(vec![Ok(first), Ok(second)]).unwrap();
    assert_eq!(composed.title, complete("b").title);
    assert_eq!(composed.artist, complete("a").artist);
    assert!(composed.genre.is_err());
}

#[test]
fn a_reader_that_failed_on_the_file_is_passed_over() {
    let (outcome, asked) =
        run(ResilientAudioParser::parsers(), vec![Err(unreadable()), Ok(complete("b"))]);
    assert_eq!(outcome, Ok(complete("b")));
    assert_eq!(asked, vec![ParserKind::Audiotags, ParserKind::Ffmpeg]);
}

#[test]
fn file_read_by_the_second_reader_alone_gives_a_full_record() {
    let (outcome, _) =
        run(ResilientAudioParser::parsers(), vec![Err(unreadable()), Ok(complete("b"))]);
    let audio = assemble(outcome.unwrap()).unwrap();
    assert_eq!(audio.title().as_str(), "title b");
    assert_eq!(audio.artist().as_str(), "artist b");
    assert_eq!(audio.year().map(|year| year.value()), Some(1901));
    assert_eq!(audio.album_title().as_str(), "album b");
    assert_eq!(audio.album_artist().as_str(), "album artist b");
    assert_eq!(audio.album_cover().as_bytes(), &b"b".to_vec());
    assert_eq!(audio.genre().as_str(), "genre b");
}

#[test]
fn no_reader_at_all_leaves_no_parser() {
    let (outcome, asked) = run(Vec::new(), Vec::new());
    assert_eq!(outcome, Err(no_parser_left()));
    assert!(asked.is_empty());
    assert_eq!(ResilientAudioParser::compose(Vec::new()), Err(no_parser_left()));
}

#[test]
fn readers_that_all_failed_leave_no_parser() {
    let (outcome, asked) =
        run(ResilientAudioParser::parsers(), vec![Err(unreadable()), Err(unreadable())]);
    assert_eq!(outcome, Err(no_parser_left()));
    assert_eq!(asked, vec![ParserKind::Audiotags, ParserKind::Ffmpeg]);
}

#[test]
fn an_open_field_of_the_last_reader_stays_open() {
    let (outcome, asked) = run(vec![ParserKind::Audiotags], vec![Ok(empty())]);
    let composed = outcome.unwrap();
    assert_eq!(asked, vec![ParserKind::Audiotags]);
    assert_eq!(composed.title, Err(next_parser(no_parser_left())));
    assert_eq!(composed.album_cover, Err(next_parser(no_parser_left())));
}

#[test]
fn an_open_field_carries_the_error_of_the_next_reader() {
    let composed = ResilientAudioParser::compose(vec![Ok(empty()), Err(unreadable())]).unwrap();
    assert_eq!(composed.title, Err(next_parser(no_parser_left())));
    let second = ParsedAudioTry {
        title: Err(AudioParserError::Title(TitleError::Empty)),
        ..complete("b")
    };
    let composed = ResilientAudioParser::parse_inner(Ok(empty()), Ok(second)).unwrap();
    assert_eq!(composed.title, Err(next_parser(AudioParserError::Title(TitleError::Empty))));
    assert_eq!(composed.artist, complete("b").artist);
}

#[test]
fn parse_inner_hands_on_the_rest_where_the_reader_failed() {
    assert_eq!(
        ResilientAudioParser::parse_inner(Err(unreadable()), Ok(complete("b"))),
        Ok(complete("b"))
    );
    assert_eq!(
        ResilientAudioParser::parse_inner(Err(unreadable()), Err(no_parser_left())),
        Err(no_parser_left())
    );
}

#[test]
fn parse_inner_marks_the_error_of_the_rest_on_every_open_field() {
    let first = ParsedAudioTry { title: complete("a").title, ..empty() };
    let composed = ResilientAudioParser::parse_inner(Ok(first), Err(unreadable())).unwrap();
    assert_eq!(composed.title, complete("a").title);
    assert_eq!(composed.artist, Err(next_parser(unreadable())));
    assert_eq!(composed.year, Err(next_parser(unreadable())));
    assert_eq!(composed.album_title, Err(next_parser(unreadable())));
    assert_eq!(composed.album_artist, Err(next_parser(unreadable())));
    assert_eq!(composed.album_cover, Err(next_parser(unreadable())));
    assert_eq!(composed.genre, Err(next_parser(unreadable())));
}

#[test]
fn three_readers_are_asked_as_far_as_needed() {
    let parsers = vec![ParserKind::Audiotags, ParserKind::Ffmpeg, ParserKind::Audiotags];
    let first = ParsedAudioTry { title: complete("a").title, ..empty() };
    let second = ParsedAudioTry { title: Err(AudioParserError::MissingField("title")), ..complete("b") };
    let (outcome, asked) = run(parsers, vec![Ok(first), Ok(second), Ok(complete("c"))]);
    assert_eq!(asked.len(), 3);
    let composed = outcome.unwrap();
    assert_eq!(composed.title, complete("a").title);
    assert_eq!(composed.artist, complete("b").artist);
    assert_eq!(composed.genre, complete("b").genre);
}

#[test]
fn wants_next_where_something_is_open() {
    assert!(!ResilientAudioParser::wants_next(&Ok(complete("a"))));
    assert!(ResilientAudioParser::wants_next(&Ok(empty())));
    assert!(ResilientAudioParser::wants_next(&Err(unreadable())));
    let one_open = ParsedAudioTry { year: Err(AudioParserError::MissingField("year")), ..complete("a") };
    assert!(ResilientAudioParser::wants_next(&Ok(one_open)));
}

#[test]
fn complete_looks_at_every_field() {
    assert!(complete("a").complete());
    assert!(!empty().complete());
    assert!(!ParsedAudioTry { genre: empty().genre, ..complete("a") }.complete());
    assert!(!ParsedAudioTry { title: empty().title, ..complete("a") }.complete());
}

#[test]
fn the_composer_is_a_reader_of_outcomes() {
    let outcomes = vec![Err(unreadable()), Ok(complete("b"))];
    assert_eq!(ResilientAudioParser.try_parse(&entry(), outcomes), Ok(complete("b")));
    let first = ParsedAudioTry { artist: empty().artist, ..complete("a") };
    let audio = ResilientAudioParser.parse(&entry(), vec![Ok(first), Ok(empty())]).unwrap();
    assert_eq!(audio.title().as_str(), "title a");
    assert_eq!(audio.artist().as_str(), "UNKNOWN");
    assert!(ResilientAudioParser.parse(&entry(), Vec::new()).is_err());
}

#[test]
fn composing_twice_gives_the_same_attempt() {
    let outcomes = || vec![Ok(ParsedAudioTry { title: empty().title, ..complete("a") }), Ok(complete("b"))];
    let first = run(ResilientAudioParser::parsers(), outcomes());
    let second = run(ResilientAudioParser::parsers(), outcomes());
    assert_eq!(first, second);
    assert_eq!(assemble(first.0.unwrap()).unwrap(), assemble(second.0.unwrap()).unwrap());
}
