//! Why a field, or a whole file, could not be read.

use vstd::prelude::*;
use vstd::string::StringExecFns;

use crate::audio::artist::ArtistError;
use crate::audio::AudioBuilderError;
use crate::audio::cover::CoverError;
use crate::audio::genre::GenreError;
use crate::audio::title::TitleError;
use crate::audio::year::YearError;
use crate::parser::audiotags::AudiotagsAudioParserError;
use crate::parser::ffmpeg::FfmpegAudioParserError;

verus! {

/// Why the composer of several readers gave no value.
#[derive(Debug, PartialEq, Eq)]
pub enum ResilientAudioParserError {
    /// Every reader in the list has been asked.
    NoParserLeft,
    /// The readers further down the list failed too; this is what the next of
    /// them reported.
    NextParser(Box<AudioParserError>),
}

/// An error that belongs to one way of reading rather than to a field.
#[derive(Debug, PartialEq, Eq)]
pub enum InnerError {
    /// The reader of embedded tags failed.
    Audiotags(AudiotagsAudioParserError),
    /// The reader that runs a probing tool failed.
    Ffmpeg(FfmpegAudioParserError),
    /// The composer of several readers failed.
    Resilient(ResilientAudioParserError),
}

/// Why a field, or a whole file, could not be read.
#[derive(Debug, PartialEq, Eq)]
pub enum AudioParserError {
    /// The record could not be put together.
    AudioBuilder(AudioBuilderError),
    /// The title tag holds no title.
    Title(TitleError),
    /// The artist tag holds no artist.
    Artist(ArtistError),
    /// The year is no year.
    Year(YearError),
    /// The album tag holds no title.
    AlbumTitle(TitleError),
    /// The album artist tag holds no artist.
    AlbumArtist(ArtistError),
    /// The genre tag holds no genre.
    Genre(GenreError),
    /// The cover holds no image.
    Cover(CoverError),
    /// The file has no tag of this name.
    MissingField(&'static str),
    /// The reader itself failed.
    Inner(InnerError),
}

/// A value, or the reason why it could not be read.
pub type AudioParserResult<T> = Result<T, AudioParserError>;

impl ResilientAudioParserError {
    /// A copy of the error.
    pub fn duplicate(&self) -> (result: Self)
        ensures
            result == *self,
        decreases self,
    {
        match self {
            ResilientAudioParserError::NoParserLeft => ResilientAudioParserError::NoParserLeft,
            ResilientAudioParserError::NextParser(next) => ResilientAudioParserError::NextParser(
                Box::new(next.duplicate()),
            ),
        }
    }

    /// The error in words.
    pub open spec fn message_spec(self) -> Seq<char>
        decreases self,
    {
        match self {
            ResilientAudioParserError::NoParserLeft => "No parser left"@,
            ResilientAudioParserError::NextParser(next) => "Next parser error: "@
                + next.message_spec(),
        }
    }

    /// The error in words.
    pub fn message(&self) -> (result: String)
        ensures
            result@ == self.message_spec(),
        decreases self,
    {
        match self {
            ResilientAudioParserError::NoParserLeft => "No parser left".to_owned(),
            ResilientAudioParserError::NextParser(next) => {
                let mut text = "Next parser error: ".to_owned();
                let inner = next.message();
                text.append(inner.as_str());
                text
            },
        }
    }
}

impl InnerError {
    /// A copy of the error.
    pub fn duplicate(&self) -> (result: Self)
        ensures
            result == *self,
        decreases self,
    {
        match self {
            InnerError::Audiotags(error) => InnerError::Audiotags(error.clone()),
            InnerError::Ffmpeg(error) => InnerError::Ffmpeg(error.clone()),
            InnerError::Resilient(error) => InnerError::Resilient(error.duplicate()),
        }
    }

    /// The error in words.
    pub open spec fn message_spec(self) -> Seq<char>
        decreases self,
    {
        match self {
            InnerError::Audiotags(error) => error.message_spec(),
            InnerError::Ffmpeg(error) => error.message_spec(),
            InnerError::Resilient(error) => error.message_spec(),
        }
    }

    /// The error in words.
    pub fn message(&self) -> (result: String)
        ensures
            result@ == self.message_spec(),
        decreases self,
    {
        match self {
            InnerError::Audiotags(error) => error.message(),
            InnerError::Ffmpeg(error) => error.message(),
            InnerError::Resilient(error) => error.message(),
        }
    }
}

impl AudioParserError {
    /// A copy of the error.
    pub fn duplicate(&self) -> (result: Self)
        ensures
            result == *self,
        decreases self,
    {
        match self {
            AudioParserError::AudioBuilder(error) => AudioParserError::AudioBuilder(*error),
            AudioParserError::Title(error) => AudioParserError::Title(*error),
            AudioParserError::Artist(error) => AudioParserError::Artist(*error),
            AudioParserError::Year(error) => AudioParserError::Year(*error),
            AudioParserError::AlbumTitle(error) => AudioParserError::AlbumTitle(*error),
            AudioParserError::AlbumArtist(error) => AudioParserError::AlbumArtist(*error),
            AudioParserError::Genre(error) => AudioParserError::Genre(*error),
            AudioParserError::Cover(error) => AudioParserError::Cover(*error),
            AudioParserError::MissingField(name) => AudioParserError::MissingField(name),
            AudioParserError::Inner(error) => AudioParserError::Inner(error.duplicate()),
        }
    }

    /// The error in words: what failed, then why.
    pub open spec fn message_spec(self) -> Seq<char>
        decreases self,
    {
        match self {
            AudioParserError::AudioBuilder(error) => "Failed to build audio: "@
                + error.message_spec(),
            AudioParserError::Title(error) => "Failed to parse title: "@ + error.message_spec(),
            AudioParserError::Artist(error) => "Failed to parse artist: "@ + error.message_spec(),
            AudioParserError::Year(error) => "Failed to parse year: "@ + error.message_spec(),
            AudioParserError::AlbumTitle(error) => "Failed to parse album title: "@
                + error.message_spec(),
            AudioParserError::AlbumArtist(error) => "Failed to parse album artist: "@
                + error.message_spec(),
            AudioParserError::Genre(error) => "Failed to parse genre: "@ + error.message_spec(),
            AudioParserError::Cover(error) => "Failed to parse cover: "@ + error.message_spec(),
            AudioParserError::MissingField(name) => "Missing field: "@ + name@,
            AudioParserError::Inner(error) => "Inner parser error: "@ + error.message_spec(),
        }
    }

    /// The error in words.
    pub fn message(&self) -> (result: String)
        ensures
            result@ == self.message_spec(),
        decreases self,
    {
        let (heading, cause): (&str, String) = match self {
            AudioParserError::AudioBuilder(error) => ("Failed to build audio: ", error.message()),
            AudioParserError::Title(error) => ("Failed to parse title: ", error.message()),
            AudioParserError::Artist(error) => ("Failed to parse artist: ", error.message()),
            AudioParserError::Year(error) => ("Failed to parse year: ", error.message()),
            AudioParserError::AlbumTitle(error) => (
                "Failed to parse album title: ",
                error.message(),
            ),
            AudioParserError::AlbumArtist(error) => (
                "Failed to parse album artist: ",
                error.message(),
            ),
            AudioParserError::Genre(error) => ("Failed to parse genre: ", error.message()),
            AudioParserError::Cover(error) => ("Failed to parse cover: ", error.message()),
            AudioParserError::MissingField(name) => ("Missing field: ", (*name).to_owned()),
            AudioParserError::Inner(error) => ("Inner parser error: ", error.message()),
        };
        let mut text = heading.to_owned();
        text.append(cause.as_str());
        text
    }
}

impl Clone for ResilientAudioParserError {
    fn clone(&self) -> (result: Self)
        ensures
            result == *self,
    {
        self.duplicate()
    }
}

impl Clone for InnerError {
    fn clone(&self) -> (result: Self)
        ensures
            result == *self,
    {
        self.duplicate()
    }
}

impl Clone for AudioParserError {
    fn clone(&self) -> (result: Self)
        ensures
            result == *self,
    {
        self.duplicate()
    }
}

} // verus!
