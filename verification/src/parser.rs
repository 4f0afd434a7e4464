//! Reading the metadata of one file: the attempt a tag reader makes, field by
//! field, and the errors it can meet.

use std::str::FromStr;
use vstd::prelude::*;

use crate::audio::artist::Artist;
use crate::audio::cover::Cover;
use crate::audio::genre::Genre;
use crate::audio::title::Title;
use crate::audio::year::Year;
use crate::audio::{Audio, AudioBuilder, AudioView};
use crate::parser::error::AudioParserError;

pub mod audiotags;
pub mod date;
pub mod error;
pub mod ffmpeg;
pub mod resilient_audio_parser;

verus! {

/// A file as the walk through a directory tree found it.
#[derive(Debug, PartialEq, Eq)]
pub struct AudioEntry {
    /// Where the file is.
    pub path: String,
    /// Whether it is a regular file rather than a directory or something else.
    pub is_file: bool,
    /// Whether its name ends in an extension.
    pub has_extension: bool,
}

impl Clone for AudioEntry {
    /// An entry of the same values.
    fn clone(&self) -> (result: Self)
        ensures
            result == *self,
    {
        AudioEntry {
            path: self.path.clone(),
            is_file: self.is_file,
            has_extension: self.has_extension,
        }
    }
}

/// What one reader made of one file: for each field by itself, the value it
/// read or the reason why it read none.
#[derive(Debug, PartialEq, Eq)]
pub struct ParsedAudioTry {
    pub title: Result<Title, AudioParserError>,
    pub artist: Result<Artist, AudioParserError>,
    pub year: Result<Year, AudioParserError>,
    pub album_title: Result<Title, AudioParserError>,
    pub album_artist: Result<Artist, AudioParserError>,
    pub album_cover: Result<Cover, AudioParserError>,
    pub genre: Result<Genre, AudioParserError>,
}

/// The fields of an audio record.
#[derive(Debug, Clone, Copy, PartialEq, Eq, Structural, Hash)]
pub enum Field {
    /// The title of the recording.
    Title,
    /// Who performs the recording.
    Artist,
    /// The year of the recording.
    Year,
    /// The title of the album.
    AlbumTitle,
    /// Who performs the album.
    AlbumArtist,
    /// The cover of the album.
    AlbumCover,
    /// The kind of music.
    Genre,
}

impl ParsedAudioTry {
    /// Whether the attempt holds a value for `field`.
    pub open spec fn succeeded(self, field: Field) -> bool {
        match field {
            Field::Title => self.title is Ok,
            Field::Artist => self.artist is Ok,
            Field::Year => self.year is Ok,
            Field::AlbumTitle => self.album_title is Ok,
            Field::AlbumArtist => self.album_artist is Ok,
            Field::AlbumCover => self.album_cover is Ok,
            Field::Genre => self.genre is Ok,
        }
    }

    /// Whether the two attempts hold the same outcome for `field`.
    pub open spec fn agrees(self, other: ParsedAudioTry, field: Field) -> bool {
        match field {
            Field::Title => self.title == other.title,
            Field::Artist => self.artist == other.artist,
            Field::Year => self.year == other.year,
            Field::AlbumTitle => self.album_title == other.album_title,
            Field::AlbumArtist => self.album_artist == other.album_artist,
            Field::AlbumCover => self.album_cover == other.album_cover,
            Field::Genre => self.genre == other.genre,
        }
    }

    /// Whether the attempt holds a value for every field.
    pub open spec fn is_complete(self) -> bool {
        forall|field: Field| self.succeeded(field)
    }

    /// Whether the attempt holds a value for every field.
    pub fn complete(&self) -> (result: bool)
        ensures
            result == self.is_complete(),
    {
        let result = self.title.is_ok() && self.artist.is_ok() && self.year.is_ok()
            && self.album_title.is_ok() && self.album_artist.is_ok() && self.album_cover.is_ok()
            && self.genre.is_ok();
        proof {
            if result {
                assert forall|field: Field| self.succeeded(field) by {}
            } else {
                assert(!self.succeeded(Field::Title) || !self.succeeded(Field::Artist)
                    || !self.succeeded(Field::Year) || !self.succeeded(Field::AlbumTitle)
                    || !self.succeeded(Field::AlbumArtist) || !self.succeeded(Field::AlbumCover)
                    || !self.succeeded(Field::Genre));
            }
        }
        result
    }
}

/// An attempt as plain values: texts, a number and bytes in place of the value
/// objects.
pub struct ParsedAudioTryView {
    pub title: Result<Seq<char>, AudioParserError>,
    pub artist: Result<Seq<char>, AudioParserError>,
    pub year: Result<int, AudioParserError>,
    pub album_title: Result<Seq<char>, AudioParserError>,
    pub album_artist: Result<Seq<char>, AudioParserError>,
    pub album_cover: Result<Seq<u8>, AudioParserError>,
    pub genre: Result<Seq<char>, AudioParserError>,
}

/// The outcome for one field, with the value taken by its view.
pub open spec fn outcome_view<T: View>(outcome: Result<T, AudioParserError>) -> Result<
    T::V,
    AudioParserError,
> {
    match outcome {
        Ok(value) => Ok(value@),
        Err(error) => Err(error),
    }
}

impl View for ParsedAudioTry {
    type V = ParsedAudioTryView;

    open spec fn view(&self) -> ParsedAudioTryView {
        ParsedAudioTryView {
            title: outcome_view(self.title),
            artist: outcome_view(self.artist),
            year: outcome_view(self.year),
            album_title: outcome_view(self.album_title),
            album_artist: outcome_view(self.album_artist),
            album_cover: outcome_view(self.album_cover),
            genre: outcome_view(self.genre),
        }
    }
}

/// The outcome for a whole file, with the attempt taken by its view.
pub open spec fn attempt_view(outcome: Result<ParsedAudioTry, AudioParserError>) -> Result<
    ParsedAudioTryView,
    AudioParserError,
> {
    match outcome {
        Ok(attempt) => Ok(attempt@),
        Err(error) => Err(error),
    }
}

/// A way of reading the metadata of one file that keeps apart what it found
/// for each field.
pub trait TryableAudioParser {
    /// What has been taken from the file for this reader to work on.
    type Source;

    /// What the reader makes of `source`: an attempt, or the reason why the
    /// file could not be read at all.
    spec fn attempt(&self, entry: AudioEntry, source: Self::Source) -> Result<
        ParsedAudioTryView,
        AudioParserError,
    >;

    /// Reads the fields of `entry` out of `source`.
    fn try_parse(&self, entry: &AudioEntry, source: Self::Source) -> (result: Result<
        ParsedAudioTry,
        AudioParserError,
    >)
        ensures
            attempt_view(result) == self.attempt(*entry, source),
    ;
}

/// What the title tag `tag` gives.
pub open spec fn title_outcome(tag: Option<Seq<char>>) -> Result<Seq<char>, AudioParserError> {
    match tag {
        None => Err(AudioParserError::MissingField("title")),
        Some(raw) => match Title::parse(raw) {
            Ok(text) => Ok(text),
            Err(error) => Err(AudioParserError::Title(error)),
        },
    }
}

/// What the artist tag `tag` gives.
pub open spec fn artist_outcome(tag: Option<Seq<char>>) -> Result<Seq<char>, AudioParserError> {
    match tag {
        None => Err(AudioParserError::MissingField("artist")),
        Some(raw) => match Artist::parse(raw) {
            Ok(text) => Ok(text),
            Err(error) => Err(AudioParserError::Artist(error)),
        },
    }
}

/// What the album tag `tag` gives.
pub open spec fn album_title_outcome(tag: Option<Seq<char>>) -> Result<
    Seq<char>,
    AudioParserError,
> {
    match tag {
        None => Err(AudioParserError::MissingField("album_title")),
        Some(raw) => match Title::parse(raw) {
            Ok(text) => Ok(text),
            Err(error) => Err(AudioParserError::AlbumTitle(error)),
        },
    }
}

/// What the album artist tag `tag` gives.
pub open spec fn album_artist_outcome(tag: Option<Seq<char>>) -> Result<
    Seq<char>,
    AudioParserError,
> {
    match tag {
        None => Err(AudioParserError::MissingField("album_artist")),
        Some(raw) => match Artist::parse(raw) {
            Ok(text) => Ok(text),
            Err(error) => Err(AudioParserError::AlbumArtist(error)),
        },
    }
}

/// What the genre tag `tag` gives.
pub open spec fn genre_outcome(tag: Option<Seq<char>>) -> Result<Seq<char>, AudioParserError> {
    match tag {
        None => Err(AudioParserError::MissingField("genre")),
        Some(raw) => match Genre::parse(raw) {
            Ok(text) => Ok(text),
            Err(error) => Err(AudioParserError::Genre(error)),
        },
    }
}

/// What the number `number` gives as a year.
pub open spec fn year_outcome(number: int) -> Result<int, AudioParserError> {
    if Year::accepts(number) {
        Ok(number)
    } else {
        Err(AudioParserError::Year(crate::audio::year::YearError::Invalid))
    }
}

/// What the bytes `bytes` give as a cover.
pub open spec fn cover_outcome(bytes: Seq<u8>) -> Result<Seq<u8>, AudioParserError> {
    match Cover::parse(bytes) {
        Ok(bytes) => Ok(bytes),
        Err(error) => Err(AudioParserError::Cover(error)),
    }
}

/// Reads the title tag.
pub fn read_title(tag: &Option<String>) -> (result: Result<Title, AudioParserError>)
    ensures
        outcome_view(result) == title_outcome(tag.deep_view()),
{
    match tag {
        None => Err(AudioParserError::MissingField("title")),
        Some(raw) => match Title::from_str(raw.as_str()) {
            Ok(title) => Ok(title),
            Err(error) => Err(AudioParserError::Title(error)),
        },
    }
}

/// Reads the artist tag.
pub fn read_artist(tag: &Option<String>) -> (result: Result<Artist, AudioParserError>)
    ensures
        outcome_view(result) == artist_outcome(tag.deep_view()),
{
    match tag {
        None => Err(AudioParserError::MissingField("artist")),
        Some(raw) => match Artist::from_str(raw.as_str()) {
            Ok(artist) => Ok(artist),
            Err(error) => Err(AudioParserError::Artist(error)),
        },
    }
}

/// Reads the album tag.
pub fn read_album_title(tag: &Option<String>) -> (result: Result<Title, AudioParserError>)
    ensures
        outcome_view(result) == album_title_outcome(tag.deep_view()),
{
    match tag {
        None => Err(AudioParserError::MissingField("album_title")),
        Some(raw) => match Title::from_str(raw.as_str()) {
            Ok(title) => Ok(title),
            Err(error) => Err(AudioParserError::AlbumTitle(error)),
        },
    }
}

/// Reads the album artist tag.
pub fn read_album_artist(tag: &Option<String>) -> (result: Result<Artist, AudioParserError>)
    ensures
        outcome_view(result) == album_artist_outcome(tag.deep_view()),
{
    match tag {
        None => Err(AudioParserError::MissingField("album_artist")),
        Some(raw) => match Artist::from_str(raw.as_str()) {
            Ok(artist) => Ok(artist),
            Err(error) => Err(AudioParserError::AlbumArtist(error)),
        },
    }
}

/// Reads the genre tag.
pub fn read_genre(tag: &Option<String>) -> (result: Result<Genre, AudioParserError>)
    ensures
        outcome_view(result) == genre_outcome(tag.deep_view()),
{
    match tag {
        None => Err(AudioParserError::MissingField("genre")),
        Some(raw) => match Genre::from_str(raw.as_str()) {
            Ok(genre) => Ok(genre),
            Err(error) => Err(AudioParserError::Genre(error)),
        },
    }
}

/// Reads a number as a year.
pub fn read_year(number: i32) -> (result: Result<Year, AudioParserError>)
    ensures
        outcome_view(result) == year_outcome(number as int),
{
    match Year::try_from(number) {
        Ok(year) => Ok(year),
        Err(error) => Err(AudioParserError::Year(error)),
    }
}

/// Reads bytes as a cover.
pub fn read_cover(bytes: Vec<u8>) -> (result: Result<Cover, AudioParserError>)
    ensures
        outcome_view(result) == cover_outcome(bytes@),
{
    match Cover::try_from(bytes) {
        Ok(cover) => Ok(cover),
        Err(error) => Err(AudioParserError::Cover(error)),
    }
}

/// The record that an attempt gives: each value that was read as it is;
/// `UNKNOWN` for a text that was not, the placeholder image for a cover that
/// was not, and no year for a year that was not.
pub open spec fn assemble_spec(attempt: ParsedAudioTryView) -> AudioView {
    AudioView {
        title: match attempt.title {
            Ok(text) => text,
            Err(_) => Title::unknown(),
        },
        artist: match attempt.artist {
            Ok(text) => text,
            Err(_) => Artist::unknown(),
        },
        year: match attempt.year {
            Ok(year) => Some(year),
            Err(_) => None,
        },
        album_title: match attempt.album_title {
            Ok(text) => text,
            Err(_) => Title::unknown(),
        },
        album_artist: match attempt.album_artist {
            Ok(text) => text,
            Err(_) => Artist::unknown(),
        },
        album_cover: match attempt.album_cover {
            Ok(bytes) => bytes,
            Err(_) => Cover::placeholder(),
        },
        genre: match attempt.genre {
            Ok(text) => text,
            Err(_) => Genre::unknown(),
        },
    }
}

/// The outcome for a whole file, with the record taken by its view.
pub open spec fn record_view(outcome: Result<Audio, AudioParserError>) -> Result<
    AudioView,
    AudioParserError,
> {
    match outcome {
        Ok(audio) => Ok(audio@),
        Err(error) => Err(error),
    }
}

/// Puts the record together that `attempt` gives. No attempt fails to give
/// one.
pub fn assemble(attempt: ParsedAudioTry) -> (result: Result<Audio, AudioParserError>)
    ensures
        record_view(result) == Ok::<AudioView, AudioParserError>(assemble_spec(attempt@)),
{
    let title = match attempt.title {
        Ok(title) => title,
        Err(_) => Title::default(),
    };
    let artist = match attempt.artist {
        Ok(artist) => artist,
        Err(_) => Artist::default(),
    };
    let year = match attempt.year {
        Ok(year) => Some(year),
        Err(_) => None,
    };
    let album_title = match attempt.album_title {
        Ok(title) => title,
        Err(_) => Title::default(),
    };
    let album_artist = match attempt.album_artist {
        Ok(artist) => artist,
        Err(_) => Artist::default(),
    };
    let album_cover = match attempt.album_cover {
        Ok(cover) => cover,
        Err(_) => Cover::default(),
    };
    let genre = match attempt.genre {
        Ok(genre) => genre,
        Err(_) => Genre::default(),
    };
    let built = AudioBuilder::default().title(title).artist(artist).year(year).album_title(
        album_title,
    ).album_artist(album_artist).album_cover(album_cover).genre(genre).build();
    match built {
        Ok(audio) => Ok(audio),
        Err(error) => Err(AudioParserError::AudioBuilder(error)),
    }
}

/// A way of reading one file into a record.
pub trait AudioParser {
    /// What has been taken from the file for this reader to work on.
    type Source;

    /// The record that the reader makes of `source`, or the reason why the file
    /// could not be read at all.
    spec fn record(&self, entry: AudioEntry, source: Self::Source) -> Result<
        AudioView,
        AudioParserError,
    >;

    /// Reads `entry` out of `source` into a record.
    fn parse(&self, entry: &AudioEntry, source: Self::Source) -> (result: Result<
        Audio,
        AudioParserError,
    >)
        ensures
            record_view(result) == self.record(*entry, source),
    ;
}

impl<T: TryableAudioParser> AudioParser for T {
    type Source = T::Source;

    /// The record of the reader's attempt; no record where it made none.
    open spec fn record(&self, entry: AudioEntry, source: T::Source) -> Result<
        AudioView,
        AudioParserError,
    > {
        match self.attempt(entry, source) {
            Ok(attempt) => Ok(assemble_spec(attempt)),
            Err(error) => Err(error),
        }
    }

    fn parse(&self, entry: &AudioEntry, source: T::Source) -> (result: Result<
        Audio,
        AudioParserError,
    >) {
        match self.try_parse(entry, source) {
            Ok(attempt) => assemble(attempt),
            Err(error) => Err(error),
        }
    }
}

/// Reading is repeatable: what a reader returns is a matter of the entry and
/// of what was taken from the file alone. Two records that it may return for
/// the same entry and source are the same field for field, the bytes of the
/// cover included.
pub proof fn lemma_parse_is_repeatable<P: AudioParser>(
    parser: P,
    entry: AudioEntry,
    source: P::Source,
    first: Result<Audio, AudioParserError>,
    second: Result<Audio, AudioParserError>,
)
    requires
        record_view(first) == parser.record(entry, source),
        record_view(second) == parser.record(entry, source),
    ensures
        record_view(first) == record_view(second),
        first matches Ok(one) ==> second is Ok && one@.album_cover == second->Ok_0@.album_cover,
{
}

} // verus!
