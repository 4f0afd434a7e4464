//! The audio record and the value objects it is made of.

use vstd::prelude::*;
use vstd::std_specs::cmp::PartialEqSpecImpl;
use vstd::string::StringExecFns;

use crate::audio::artist::Artist;
use crate::audio::cover::Cover;
use crate::audio::genre::Genre;
use crate::audio::title::Title;
use crate::audio::year::Year;

pub mod artist;
pub mod cover;
pub mod genre;
pub mod title;
pub mod year;

verus! {

/// What is known of one recording. It is put together once and not changed
/// afterwards.
#[derive(Debug, Eq)]
pub struct Audio {
    title: Title,
    artist: Artist,
    year: Option<Year>,
    album_title: Title,
    album_artist: Artist,
    album_cover: Cover,
    genre: Genre,
}

/// A record as plain values.
pub struct AudioView {
    pub title: Seq<char>,
    pub artist: Seq<char>,
    pub year: Option<int>,
    pub album_title: Seq<char>,
    pub album_artist: Seq<char>,
    pub album_cover: Seq<u8>,
    pub genre: Seq<char>,
}

/// The year of a record as a plain value.
pub open spec fn year_view(year: Option<Year>) -> Option<int> {
    match year {
        Some(year) => Some(year@),
        None => None,
    }
}

impl View for Audio {
    type V = AudioView;

    closed spec fn view(&self) -> AudioView {
        AudioView {
            title: self.title@,
            artist: self.artist@,
            year: year_view(self.year),
            album_title: self.album_title@,
            album_artist: self.album_artist@,
            album_cover: self.album_cover@,
            genre: self.genre@,
        }
    }
}

impl AudioView {
    /// Whether two records tell of the same recording: they agree in all but
    /// the cover, which is large and says nothing of what the recording is.
    pub open spec fn same_recording(self, other: AudioView) -> bool {
        &&& self.title == other.title
        &&& self.artist == other.artist
        &&& self.year == other.year
        &&& self.album_title == other.album_title
        &&& self.album_artist == other.album_artist
        &&& self.genre == other.genre
    }
}

/// What tells one recording from another: the texts and the year of its
/// record, without the cover. Two records are equal where their keys are, and
/// a key can be hashed.
#[derive(Debug, PartialEq, Eq, Hash)]
pub struct AudioKey {
    pub title: String,
    pub artist: String,
    pub year: Option<u16>,
    pub album_title: String,
    pub album_artist: String,
    pub genre: String,
}

impl AudioKey {
    /// Whether the key is that of `record`.
    pub open spec fn is_key_of(self, record: AudioView) -> bool {
        &&& self.title@ == record.title
        &&& self.artist@ == record.artist
        &&& match self.year {
            Some(year) => record.year == Some(year as int),
            None => record.year is None,
        }
        &&& self.album_title@ == record.album_title
        &&& self.album_artist@ == record.album_artist
        &&& self.genre@ == record.genre
    }
}

impl Audio {
    /// The key of the record.
    pub fn key(&self) -> (result: AudioKey)
        ensures
            result.is_key_of(self@),
    {
        AudioKey {
            title: self.title.as_str().to_owned(),
            artist: self.artist.as_str().to_owned(),
            year: match &self.year {
                Some(year) => Some(year.value()),
                None => None,
            },
            album_title: self.album_title.as_str().to_owned(),
            album_artist: self.album_artist.as_str().to_owned(),
            genre: self.genre.as_str().to_owned(),
        }
    }

    /// The title of the recording.
    pub fn title(&self) -> (result: &Title)
        ensures
            result@ == self@.title,
    {
        &self.title
    }

    /// Who performs the recording.
    pub fn artist(&self) -> (result: &Artist)
        ensures
            result@ == self@.artist,
    {
        &self.artist
    }

    /// The year of the recording, where one is known.
    pub fn year(&self) -> (result: &Option<Year>)
        ensures
            year_view(*result) == self@.year,
    {
        &self.year
    }

    /// The title of the album.
    pub fn album_title(&self) -> (result: &Title)
        ensures
            result@ == self@.album_title,
    {
        &self.album_title
    }

    /// Who performs the album.
    pub fn album_artist(&self) -> (result: &Artist)
        ensures
            result@ == self@.album_artist,
    {
        &self.album_artist
    }

    /// The cover of the album.
    pub fn album_cover(&self) -> (result: &Cover)
        ensures
            result@ == self@.album_cover,
    {
        &self.album_cover
    }

    /// The kind of music.
    pub fn genre(&self) -> (result: &Genre)
        ensures
            result@ == self@.genre,
    {
        &self.genre
    }
}

impl PartialEq for Audio {
    /// Whether the two records tell of the same recording.
    fn eq(&self, other: &Self) -> (result: bool) {
        let same_year = match (&self.year, &other.year) {
            (Some(mine), Some(theirs)) => mine.value() == theirs.value(),
            (None, None) => true,
            _ => false,
        };
        self.title == other.title && self.artist == other.artist && same_year && self.album_title
            == other.album_title && self.album_artist == other.album_artist && self.genre
            == other.genre
    }
}

impl PartialEqSpecImpl for Audio {
    open spec fn obeys_eq_spec() -> bool {
        true
    }

    open spec fn eq_spec(&self, other: &Self) -> bool {
        self@.same_recording(other@)
    }
}

impl Clone for Audio {
    /// A record of the same values.
    fn clone(&self) -> (result: Self)
        ensures
            result@ == self@,
    {
        Audio {
            title: self.title.clone(),
            artist: self.artist.clone(),
            year: self.year,
            album_title: self.album_title.clone(),
            album_artist: self.album_artist.clone(),
            album_cover: self.album_cover.clone(),
            genre: self.genre.clone(),
        }
    }
}

/// Why a record could not be put together.
#[derive(Debug, Clone, Copy, PartialEq, Eq)]
pub enum AudioBuilderError {
    /// The field of this name was not given.
    UninitializedField(&'static str),
}

impl AudioBuilderError {
    /// The error in words.
    pub open spec fn message_spec(self) -> Seq<char> {
        match self {
            AudioBuilderError::UninitializedField(name) => "`"@ + name@ + "` must be initialized"@,
        }
    }

    /// The error in words.
    pub fn message(&self) -> (result: String)
        ensures
            result@ == self.message_spec(),
    {
        match self {
            AudioBuilderError::UninitializedField(name) => {
                let mut text = "`".to_owned();
                text.append(name);
                text.append("` must be initialized");
                text
            },
        }
    }
}

/// Collects the fields of a record one by one.
#[derive(Debug)]
pub struct AudioBuilder {
    title: Option<Title>,
    artist: Option<Artist>,
    year: Option<Option<Year>>,
    album_title: Option<Title>,
    album_artist: Option<Artist>,
    album_cover: Option<Cover>,
    genre: Option<Genre>,
}

/// The fields collected so far, as plain values.
pub struct AudioBuilderView {
    pub title: Option<Seq<char>>,
    pub artist: Option<Seq<char>>,
    pub year: Option<Option<int>>,
    pub album_title: Option<Seq<char>>,
    pub album_artist: Option<Seq<char>>,
    pub album_cover: Option<Seq<u8>>,
    pub genre: Option<Seq<char>>,
}

impl AudioBuilderView {
    /// No field given yet.
    pub open spec fn empty() -> AudioBuilderView {
        AudioBuilderView {
            title: None,
            artist: None,
            year: None,
            album_title: None,
            album_artist: None,
            album_cover: None,
            genre: None,
        }
    }

    /// The first field, in the order of the record, that was not given.
    pub open spec fn missing(self) -> Option<&'static str> {
        if self.title is None {
            Some("title")
        } else if self.artist is None {
            Some("artist")
        } else if self.year is None {
            Some("year")
        } else if self.album_title is None {
            Some("album_title")
        } else if self.album_artist is None {
            Some("album_artist")
        } else if self.album_cover is None {
            Some("album_cover")
        } else if self.genre is None {
            Some("genre")
        } else {
            None
        }
    }

    /// The record that the fields make up, where none is missing.
    pub open spec fn record(self) -> AudioView {
        AudioView {
            title: self.title->Some_0,
            artist: self.artist->Some_0,
            year: self.year->Some_0,
            album_title: self.album_title->Some_0,
            album_artist: self.album_artist->Some_0,
            album_cover: self.album_cover->Some_0,
            genre: self.genre->Some_0,
        }
    }
}

impl View for AudioBuilder {
    type V = AudioBuilderView;

    closed spec fn view(&self) -> AudioBuilderView {
        AudioBuilderView {
            title: match self.title {
                Some(title) => Some(title@),
                None => None,
            },
            artist: match self.artist {
                Some(artist) => Some(artist@),
                None => None,
            },
            year: match self.year {
                Some(year) => Some(year_view(year)),
                None => None,
            },
            album_title: match self.album_title {
                Some(title) => Some(title@),
                None => None,
            },
            album_artist: match self.album_artist {
                Some(artist) => Some(artist@),
                None => None,
            },
            album_cover: match self.album_cover {
                Some(cover) => Some(cover@),
                None => None,
            },
            genre: match self.genre {
                Some(genre) => Some(genre@),
                None => None,
            },
        }
    }
}

impl Default for AudioBuilder {
    /// A builder that has been given nothing.
    fn default() -> (result: Self)
        ensures
            result@ == AudioBuilderView::empty(),
    {
        AudioBuilder {
            title: None,
            artist: None,
            year: None,
            album_title: None,
            album_artist: None,
            album_cover: None,
            genre: None,
        }
    }
}

impl AudioBuilder {
    /// Gives the title of the recording.
    pub fn title(self, value: Title) -> (result: Self)
        ensures
            result@ == (AudioBuilderView { title: Some(value@), ..self@ }),
    {
        AudioBuilder { title: Some(value), ..self }
    }

    /// Gives who performs the recording.
    pub fn artist(self, value: Artist) -> (result: Self)
        ensures
            result@ == (AudioBuilderView { artist: Some(value@), ..self@ }),
    {
        AudioBuilder { artist: Some(value), ..self }
    }

    /// Gives the year of the recording, or says that none is known.
    pub fn year(self, value: Option<Year>) -> (result: Self)
        ensures
            result@ == (AudioBuilderView { year: Some(year_view(value)), ..self@ }),
    {
        AudioBuilder { year: Some(value), ..self }
    }

    /// Gives the title of the album.
    pub fn album_title(self, value: Title) -> (result: Self)
        ensures
            result@ == (AudioBuilderView { album_title: Some(value@), ..self@ }),
    {
        AudioBuilder { album_title: Some(value), ..self }
    }

    /// Gives who performs the album.
    pub fn album_artist(self, value: Artist) -> (result: Self)
        ensures
            result@ == (AudioBuilderView { album_artist: Some(value@), ..self@ }),
    {
        AudioBuilder { album_artist: Some(value), ..self }
    }

    /// Gives the cover of the album.
    pub fn album_cover(self, value: Cover) -> (result: Self)
        ensures
            result@ == (AudioBuilderView { album_cover: Some(value@), ..self@ }),
    {
        AudioBuilder { album_cover: Some(value), ..self }
    }

    /// Gives the kind of music.
    pub fn genre(self, value: Genre) -> (result: Self)
        ensures
            result@ == (AudioBuilderView { genre: Some(value@), ..self@ }),
    {
        AudioBuilder { genre: Some(value), ..self }
    }

    /// The record made of the fields given, or the first field that is
    /// missing.
    pub fn build(self) -> (result: Result<Audio, AudioBuilderError>)
        ensures
            match self@.missing() {
                Some(name) => result == Err::<Audio, AudioBuilderError>(
                    AudioBuilderError::UninitializedField(name),
                ),
                None => result matches Ok(audio) && audio@ == self@.record(),
            },
    {
        let title = match self.title {
            Some(title) => title,
            None => {
                return Err(AudioBuilderError::UninitializedField("title"));
            },
        };
        let artist = match self.artist {
            Some(artist) => artist,
            None => {
                return Err(AudioBuilderError::UninitializedField("artist"));
            },
        };
        let year = match self.year {
            Some(year) => year,
            None => {
                return Err(AudioBuilderError::UninitializedField("year"));
            },
        };
        let album_title = match self.album_title {
            Some(title) => title,
            None => {
                return Err(AudioBuilderError::UninitializedField("album_title"));
            },
        };
        let album_artist = match self.album_artist {
            Some(artist) => artist,
            None => {
                return Err(AudioBuilderError::UninitializedField("album_artist"));
            },
        };
        let album_cover = match self.album_cover {
            Some(cover) => cover,
            None => {
                return Err(AudioBuilderError::UninitializedField("album_cover"));
            },
        };
        let genre = match self.genre {
            Some(genre) => genre,
            None => {
                return Err(AudioBuilderError::UninitializedField("genre"));
            },
        };
        Ok(Audio { title, artist, year, album_title, album_artist, album_cover, genre })
    }
}

} // verus!
