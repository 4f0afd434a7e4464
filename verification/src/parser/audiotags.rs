//! The reader of embedded tags: fast, and silent on what a file's tags lack.

use vstd::prelude::*;
use vstd::string::StringExecFns;

use crate::parser::error::{AudioParserError, InnerError};
use crate::parser::{
    album_artist_outcome, album_title_outcome, artist_outcome, cover_outcome, genre_outcome,
    read_album_artist, read_album_title, read_artist, read_cover, read_genre, read_title,
    read_year, title_outcome, year_outcome, AudioEntry, ParsedAudioTry, ParsedAudioTryView,
    TryableAudioParser,
};

verus! {

/// Reads the tags embedded in a file.
#[derive(Debug, Clone, Copy, Default)]
pub struct AudiotagsAudioParser;

/// Why the embedded tags of a file could not be read at all.
#[derive(Debug, PartialEq, Eq)]
pub enum AudiotagsAudioParserError {
    /// The tag library failed; this is what it reported.
    Audiotags(String),
    /// The file's name has no extension to tell its format by.
    NoExtension,
}

/// The tags embedded in one file, as the tag library handed them out.
#[derive(Debug, PartialEq, Eq)]
pub struct AudiotagsTags {
    pub title: Option<String>,
    pub artist: Option<String>,
    pub year: Option<i32>,
    pub album_title: Option<String>,
    pub album_artist: Option<String>,
    pub genre: Option<String>,
    pub album_cover: Option<Vec<u8>>,
}

impl AudiotagsAudioParserError {
    /// The error in words.
    pub open spec fn message_spec(self) -> Seq<char> {
        match self {
            AudiotagsAudioParserError::Audiotags(report) => "Failed to read tags: "@ + report@,
            AudiotagsAudioParserError::NoExtension => "No file extesion"@,
        }
    }

    /// The error in words.
    pub fn message(&self) -> (result: String)
        ensures
            result@ == self.message_spec(),
    {
        match self {
            AudiotagsAudioParserError::Audiotags(report) => {
                let mut text = "Failed to read tags: ".to_owned();
                text.append(report.as_str());
                text
            },
            AudiotagsAudioParserError::NoExtension => "No file extesion".to_owned(),
        }
    }
}

impl Clone for AudiotagsAudioParserError {
    fn clone(&self) -> (result: Self)
        ensures
            result == *self,
    {
        match self {
            AudiotagsAudioParserError::Audiotags(report) => AudiotagsAudioParserError::Audiotags(
                report.clone(),
            ),
            AudiotagsAudioParserError::NoExtension => AudiotagsAudioParserError::NoExtension,
        }
    }
}

impl AudiotagsAudioParser {
    /// What the year tag gives.
    pub open spec fn year_of(tag: Option<i32>) -> Result<int, AudioParserError> {
        match tag {
            None => Err(AudioParserError::MissingField("year")),
            Some(number) => year_outcome(number as int),
        }
    }

    /// What the embedded picture gives.
    pub open spec fn cover_of(picture: Option<Vec<u8>>) -> Result<Seq<u8>, AudioParserError> {
        match picture {
            None => Err(AudioParserError::MissingField("album_cover")),
            Some(bytes) => cover_outcome(bytes@),
        }
    }

    /// What the tags give, field by field.
    pub open spec fn fields(tags: AudiotagsTags) -> ParsedAudioTryView {
        ParsedAudioTryView {
            title: title_outcome(tags.title.deep_view()),
            artist: artist_outcome(tags.artist.deep_view()),
            year: Self::year_of(tags.year),
            album_title: album_title_outcome(tags.album_title.deep_view()),
            album_artist: album_artist_outcome(tags.album_artist.deep_view()),
            album_cover: Self::cover_of(tags.album_cover),
            genre: genre_outcome(tags.genre.deep_view()),
        }
    }
}

impl TryableAudioParser for AudiotagsAudioParser {
    /// The tags of the file, or what the tag library reported instead.
    type Source = Result<AudiotagsTags, String>;

    /// A file without an extension is not read at all, and no more is one
    /// that the tag library failed on. Any other file gives an attempt.
    open spec fn attempt(&self, entry: AudioEntry, source: Result<AudiotagsTags, String>) -> Result<
        ParsedAudioTryView,
        AudioParserError,
    > {
        if !entry.has_extension {
            Err(
                AudioParserError::Inner(
                    InnerError::Audiotags(AudiotagsAudioParserError::NoExtension),
                ),
            )
        } else {
            match source {
                Err(report) => Err(
                    AudioParserError::Inner(
                        InnerError::Audiotags(AudiotagsAudioParserError::Audiotags(report)),
                    ),
                ),
                Ok(tags) => Ok(Self::fields(tags)),
            }
        }
    }

    fn try_parse(&self, entry: &AudioEntry, source: Result<AudiotagsTags, String>) -> (result:
        Result<ParsedAudioTry, AudioParserError>) {
        if !entry.has_extension {
            return Err(
                AudioParserError::Inner(
                    InnerError::Audiotags(AudiotagsAudioParserError::NoExtension),
                ),
            );
        }
        let tags = match source {
            Ok(tags) => tags,
            Err(report) => {
                return Err(
                    AudioParserError::Inner(
                        InnerError::Audiotags(AudiotagsAudioParserError::Audiotags(report)),
                    ),
                );
            },
        };
        let title = read_title(&tags.title);
        let artist = read_artist(&tags.artist);
        let year = match tags.year {
            None => Err(AudioParserError::MissingField("year")),
            Some(number) => read_year(number),
        };
        let album_title = read_album_title(&tags.album_title);
        let album_artist = read_album_artist(&tags.album_artist);
        let genre = read_genre(&tags.genre);
        let album_cover = match tags.album_cover {
            None => Err(AudioParserError::MissingField("album_cover")),
            Some(bytes) => read_cover(bytes),
        };
        Ok(ParsedAudioTry { title, artist, year, album_title, album_artist, album_cover, genre })
    }
}

} // verus!
