//! The reader that runs a probing tool on the file: slow, but it often finds
//! what the embedded tags do not show.

use vstd::prelude::*;
use vstd::string::StringExecFns;

use crate::audio::year::Year;
use crate::number::{parse_decimal, parse_decimal_spec, widen, IntegerError};
use crate::parser::date::{date_year, date_year_spec, DateError};
use crate::parser::error::{AudioParserError, InnerError};
use crate::parser::{
    album_artist_outcome, album_title_outcome, artist_outcome, cover_outcome, genre_outcome,
    outcome_view, read_album_artist, read_album_title, read_artist, read_cover, read_genre,
    read_title, read_year, title_outcome, year_outcome, AudioEntry, ParsedAudioTry,
    ParsedAudioTryView, TryableAudioParser,
};
use crate::text::{is_same_name, same_name};

verus! {

/// Reads what a probing tool printed about a file.
#[derive(Debug, Clone, Copy, Default)]
pub struct FfmpegAudioParser;

/// Why the probing tools gave nothing, or nothing of use.
#[derive(Debug, PartialEq, Eq)]
pub enum FfmpegAudioParserError {
    /// The probing tool could not be run.
    Ffprobe(String),
    /// What the probing tool printed is no text.
    FfprobeUtf8(String),
    /// What the probing tool printed is not the document expected.
    FfprobeJson(String),
    /// The tool that extracts the cover could not be run.
    Ffmpeg(String),
    /// The date tag holds no date.
    InvalidDate(DateError),
    /// The year tag holds no number.
    InvalidYear(IntegerError),
}

/// The tags of a file as the probing tool names them.
#[derive(Debug, PartialEq, Eq, Default)]
pub struct FfprobeTags {
    pub title: Option<String>,
    pub album: Option<String>,
    pub album_artist: Option<String>,
    pub artist: Option<String>,
    pub date: Option<String>,
    pub year: Option<String>,
    pub genre: Option<String>,
}

/// The tags of a file as plain values.
pub struct FfprobeTagsView {
    pub title: Option<Seq<char>>,
    pub album: Option<Seq<char>>,
    pub album_artist: Option<Seq<char>>,
    pub artist: Option<Seq<char>>,
    pub date: Option<Seq<char>>,
    pub year: Option<Seq<char>>,
    pub genre: Option<Seq<char>>,
}

impl View for FfprobeTags {
    type V = FfprobeTagsView;

    open spec fn view(&self) -> FfprobeTagsView {
        FfprobeTagsView {
            title: self.title.deep_view(),
            album: self.album.deep_view(),
            album_artist: self.album_artist.deep_view(),
            artist: self.artist.deep_view(),
            date: self.date.deep_view(),
            year: self.year.deep_view(),
            genre: self.genre.deep_view(),
        }
    }
}

/// The value of the tag `name` among the tags `pairs`, each a name with its
/// value: that of the first tag whose name is `name` but for the case of its
/// letters.
pub open spec fn tag_named(pairs: Seq<(String, String)>, name: Seq<char>) -> Option<Seq<char>>
    decreases pairs.len(),
{
    if pairs.len() == 0 {
        None
    } else if same_name(pairs[0].0@, name) {
        Some(pairs[0].1@)
    } else {
        tag_named(pairs.skip(1), name)
    }
}

/// The tags that this library knows, picked from all the tags of a file.
pub open spec fn tags_of(pairs: Seq<(String, String)>) -> FfprobeTagsView {
    FfprobeTagsView {
        title: tag_named(pairs, "title"@),
        album: tag_named(pairs, "album"@),
        album_artist: tag_named(pairs, "album_artist"@),
        artist: tag_named(pairs, "artist"@),
        date: tag_named(pairs, "date"@),
        year: tag_named(pairs, "year"@),
        genre: tag_named(pairs, "genre"@),
    }
}

/// The value of the tag `name` among `pairs`.
pub fn find_tag(pairs: &Vec<(String, String)>, name: &str) -> (result: Option<String>)
    ensures
        result.deep_view() == tag_named(pairs@, name@),
{
    let mut at: usize = 0;
    proof {
        assert(pairs@.skip(0) =~= pairs@);
    }
    while at < pairs.len()
        invariant
            at <= pairs@.len(),
            tag_named(pairs@, name@) == tag_named(pairs@.skip(at as int), name@),
        decreases pairs@.len() - at,
    {
        proof {
            let rest = pairs@.skip(at as int);
            assert(rest[0] == pairs@[at as int]);
            assert(rest.skip(1) =~= pairs@.skip(at + 1));
        }
        if is_same_name(pairs[at].0.as_str(), name) {
            return Some(pairs[at].1.clone());
        }
        at = at + 1;
    }
    None
}

impl FfprobeTags {
    /// The tags that this library knows, picked from all the tags of a file by
    /// their names, whatever the case of the letters in them.
    pub fn from_pairs(pairs: &Vec<(String, String)>) -> (result: Self)
        ensures
            result@ == tags_of(pairs@),
    {
        FfprobeTags {
            title: find_tag(pairs, "title"),
            album: find_tag(pairs, "album"),
            album_artist: find_tag(pairs, "album_artist"),
            artist: find_tag(pairs, "artist"),
            date: find_tag(pairs, "date"),
            year: find_tag(pairs, "year"),
            genre: find_tag(pairs, "genre"),
        }
    }
}

/// What the probing tool says of the file's container.
#[derive(Debug, PartialEq, Eq, Default)]
pub struct FfprobeFormat {
    pub tags: FfprobeTags,
}

/// All that the probing tool printed.
#[derive(Debug, PartialEq, Eq, Default)]
pub struct FfprobeOutput {
    pub format: FfprobeFormat,
}

/// What the two tools gave for one file: the probe's report, and the bytes of
/// the cover or the reason why there are none.
#[derive(Debug, PartialEq, Eq)]
pub struct FfmpegSource {
    pub probe: FfprobeOutput,
    pub cover: Result<Vec<u8>, FfmpegAudioParserError>,
}

impl FfmpegAudioParserError {
    /// The error in words.
    pub open spec fn message_spec(self) -> Seq<char> {
        match self {
            FfmpegAudioParserError::Ffprobe(report) => "Failed to execute ffprobe: "@ + report@,
            FfmpegAudioParserError::FfprobeUtf8(report) => "Failed to read ffprobe output: "@
                + report@,
            FfmpegAudioParserError::FfprobeJson(report) => "Failed to parse ffprobe output: "@
                + report@,
            FfmpegAudioParserError::Ffmpeg(report) => "Failed to execute ffmpeg: "@ + report@,
            FfmpegAudioParserError::InvalidDate(error) => "Invalid date: "@ + error.message_spec(),
            FfmpegAudioParserError::InvalidYear(error) => "Invalid year: "@ + error.message_spec(),
        }
    }

    /// The error in words.
    pub fn message(&self) -> (result: String)
        ensures
            result@ == self.message_spec(),
    {
        match self {
            FfmpegAudioParserError::Ffprobe(report) => {
                let mut text = "Failed to execute ffprobe: ".to_owned();
                text.append(report.as_str());
                text
            },
            FfmpegAudioParserError::FfprobeUtf8(report) => {
                let mut text = "Failed to read ffprobe output: ".to_owned();
                text.append(report.as_str());
                text
            },
            FfmpegAudioParserError::FfprobeJson(report) => {
                let mut text = "Failed to parse ffprobe output: ".to_owned();
                text.append(report.as_str());
                text
            },
            FfmpegAudioParserError::Ffmpeg(report) => {
                let mut text = "Failed to execute ffmpeg: ".to_owned();
                text.append(report.as_str());
                text
            },
            FfmpegAudioParserError::InvalidDate(error) => {
                let mut text = "Invalid date: ".to_owned();
                let inner = error.message();
                text.append(inner.as_str());
                text
            },
            FfmpegAudioParserError::InvalidYear(error) => {
                let mut text = "Invalid year: ".to_owned();
                let inner = error.message();
                text.append(inner.as_str());
                text
            },
        }
    }
}

impl Clone for FfmpegAudioParserError {
    fn clone(&self) -> (result: Self)
        ensures
            result == *self,
    {
        match self {
            FfmpegAudioParserError::Ffprobe(report) => FfmpegAudioParserError::Ffprobe(
                report.clone(),
            ),
            FfmpegAudioParserError::FfprobeUtf8(report) => FfmpegAudioParserError::FfprobeUtf8(
                report.clone(),
            ),
            FfmpegAudioParserError::FfprobeJson(report) => FfmpegAudioParserError::FfprobeJson(
                report.clone(),
            ),
            FfmpegAudioParserError::Ffmpeg(report) => FfmpegAudioParserError::Ffmpeg(
                report.clone(),
            ),
            FfmpegAudioParserError::InvalidDate(error) => FfmpegAudioParserError::InvalidDate(
                *error,
            ),
            FfmpegAudioParserError::InvalidYear(error) => FfmpegAudioParserError::InvalidYear(
                *error,
            ),
        }
    }
}

impl FfmpegAudioParser {
    /// The number in the year tag.
    pub open spec fn year_tag_number(tag: Option<Seq<char>>) -> Result<int, AudioParserError> {
        match tag {
            None => Err(AudioParserError::MissingField("year")),
            Some(raw) => match parse_decimal_spec(raw) {
                Ok(number) => Ok(number),
                Err(error) => Err(
                    AudioParserError::Inner(
                        InnerError::Ffmpeg(FfmpegAudioParserError::InvalidYear(error)),
                    ),
                ),
            },
        }
    }

    /// The year in the date tag, where `date` is what the tag was read as, if
    /// there is one.
    pub open spec fn date_tag_number(date: Option<Result<int, DateError>>) -> Result<
        int,
        AudioParserError,
    > {
        match date {
            None => Err(AudioParserError::MissingField("date")),
            Some(Ok(year)) => Ok(year),
            Some(Err(error)) => Err(
                AudioParserError::Inner(
                    InnerError::Ffmpeg(FfmpegAudioParserError::InvalidDate(error)),
                ),
            ),
        }
    }

    /// The year of a file: the number in its year tag; where that tag is
    /// missing or holds no number, the year of its date tag. A number that is
    /// no year is not made up for from the date.
    pub open spec fn year_of(year_tag: Option<Seq<char>>, date: Option<Result<int, DateError>>)
        -> Result<int, AudioParserError> {
        match Self::year_tag_number(year_tag) {
            Ok(number) => year_outcome(number),
            Err(_) => match Self::date_tag_number(date) {
                Ok(number) => year_outcome(number),
                Err(error) => Err(error),
            },
        }
    }

    /// What the date tag was read as, with the year as a mathematical integer.
    pub open spec fn widen_date(date: Option<Result<i32, DateError>>) -> Option<
        Result<int, DateError>,
    > {
        match date {
            None => None,
            Some(read) => Some(widen(read)),
        }
    }

    /// What the date tag is read as.
    pub open spec fn date_of(tag: Option<Seq<char>>) -> Option<Result<int, DateError>> {
        match tag {
            None => None,
            Some(text) => Some(date_year_spec(text)),
        }
    }

    /// What the bytes that the cover tool printed give.
    pub open spec fn cover_of(cover: Result<Vec<u8>, FfmpegAudioParserError>) -> Result<
        Seq<u8>,
        AudioParserError,
    > {
        match cover {
            Err(error) => Err(AudioParserError::Inner(InnerError::Ffmpeg(error))),
            Ok(bytes) => cover_outcome(bytes@),
        }
    }

    /// What the tools' output gives, field by field.
    pub open spec fn fields(source: FfmpegSource) -> ParsedAudioTryView {
        let tags = source.probe.format.tags@;
        ParsedAudioTryView {
            title: title_outcome(tags.title),
            artist: artist_outcome(tags.artist),
            year: Self::year_of(tags.year, Self::date_of(tags.date)),
            album_title: album_title_outcome(tags.album),
            album_artist: album_artist_outcome(tags.album_artist),
            album_cover: Self::cover_of(source.cover),
            genre: genre_outcome(tags.genre),
        }
    }

    /// The year of a file with the year tag `year_tag`, where `date` is what
    /// its date tag was read as, if it has one.
    pub fn resolve_year(year_tag: &Option<String>, date: Option<Result<i32, DateError>>) -> (result:
        Result<Year, AudioParserError>)
        ensures
            outcome_view(result) == Self::year_of(year_tag.deep_view(), Self::widen_date(date)),
    {
        let from_year_tag: Result<i32, AudioParserError> = match year_tag {
            None => Err(AudioParserError::MissingField("year")),
            Some(raw) => match parse_decimal(raw.as_str()) {
                Ok(number) => Ok(number),
                Err(error) => Err(
                    AudioParserError::Inner(
                        InnerError::Ffmpeg(FfmpegAudioParserError::InvalidYear(error)),
                    ),
                ),
            },
        };
        let number: i32 = match from_year_tag {
            Ok(number) => number,
            Err(_) => match date {
                None => {
                    return Err(AudioParserError::MissingField("date"));
                },
                Some(Ok(year)) => year,
                Some(Err(error)) => {
                    return Err(
                        AudioParserError::Inner(
                            InnerError::Ffmpeg(FfmpegAudioParserError::InvalidDate(error)),
                        ),
                    );
                },
            },
        };
        read_year(number)
    }
}

impl TryableAudioParser for FfmpegAudioParser {
    /// What the tools gave, or why the probe gave nothing.
    type Source = Result<FfmpegSource, FfmpegAudioParserError>;

    /// A file that the probe failed on is not read at all. Any other file
    /// gives an attempt.
    open spec fn attempt(
        &self,
        _entry: AudioEntry,
        source: Result<FfmpegSource, FfmpegAudioParserError>,
    ) -> Result<ParsedAudioTryView, AudioParserError> {
        match source {
            Err(error) => Err(AudioParserError::Inner(InnerError::Ffmpeg(error))),
            Ok(source) => Ok(Self::fields(source)),
        }
    }

    fn try_parse(
        &self,
        _entry: &AudioEntry,
        source: Result<FfmpegSource, FfmpegAudioParserError>,
    ) -> (result: Result<ParsedAudioTry, AudioParserError>) {
        let source = match source {
            Ok(source) => source,
            Err(error) => {
                return Err(AudioParserError::Inner(InnerError::Ffmpeg(error)));
            },
        };
        let tags = &source.probe.format.tags;
        let title = read_title(&tags.title);
        let artist = read_artist(&tags.artist);
        let date = match &tags.date {
            None => None,
            Some(text) => Some(date_year(text.as_str())),
        };
        let year = Self::resolve_year(&tags.year, date);
        let album_title = read_album_title(&tags.album);
        let album_artist = read_album_artist(&tags.album_artist);
        let genre = read_genre(&tags.genre);
        let album_cover = match source.cover {
            Err(error) => Err(AudioParserError::Inner(InnerError::Ffmpeg(error))),
            Ok(bytes) => read_cover(bytes),
        };
        Ok(ParsedAudioTry { title, artist, year, album_title, album_artist, album_cover, genre })
    }
}

} // verus!
