//! The performer of a recording or of an album.

use std::str::FromStr;
use vstd::prelude::*;
use vstd::std_specs::cmp::PartialEqSpecImpl;

use crate::text::{is_normalized, lemma_trim_normalizes, trim, trimmed};

verus! {

/// An artist: the name of who performs, a text that is not empty and has no
/// white space at either end.
#[derive(Debug, Eq, Hash)]
pub struct Artist {
    text: String,
}

/// Why a text is no artist.
#[derive(Debug, Clone, Copy, PartialEq, Eq, Structural, Hash)]
pub enum ArtistError {
    /// Nothing is left of the text once it is trimmed.
    Empty,
}

impl ArtistError {
    /// The error in words.
    pub open spec fn message_spec(self) -> Seq<char> {
        "Artist cannot be empty"@
    }

    /// The error in words.
    pub fn message(&self) -> (result: String)
        ensures
            result@ == self.message_spec(),
    {
        "Artist cannot be empty".to_owned()
    }
}

impl View for Artist {
    type V = Seq<char>;

    closed spec fn view(&self) -> Seq<char> {
        self.text@
    }
}

impl Artist {
    #[verifier::type_invariant]
    spec fn normalized(self) -> bool {
        is_normalized(self.text@)
    }

    /// The text of the artist that `raw` gives, or the reason why it gives none.
    pub open spec fn parse(raw: Seq<char>) -> Result<Seq<char>, ArtistError> {
        if trim(raw).len() == 0 {
            Err(ArtistError::Empty)
        } else {
            Ok(trim(raw))
        }
    }

    /// The text that stands for an artist nobody could read.
    pub open spec fn unknown() -> Seq<char> {
        "UNKNOWN"@
    }

    /// The artist's name.
    pub fn as_str(&self) -> (result: &str)
        ensures
            result@ == self@,
            is_normalized(result@),
    {
        proof {
            use_type_invariant(self);
        }
        self.text.as_str()
    }
}

impl Clone for Artist {
    /// An artist with the same name.
    fn clone(&self) -> (result: Self)
        ensures
            result@ == self@,
    {
        proof {
            use_type_invariant(self);
        }
        Artist { text: self.text.clone() }
    }
}

impl PartialEq for Artist {
    /// Whether the two hold the same text.
    fn eq(&self, other: &Self) -> (result: bool) {
        self.text == other.text
    }
}

impl PartialEqSpecImpl for Artist {
    open spec fn obeys_eq_spec() -> bool {
        true
    }

    open spec fn eq_spec(&self, other: &Self) -> bool {
        self@ == other@
    }
}

impl Default for Artist {
    /// The artist `UNKNOWN`.
    fn default() -> (result: Self)
        ensures
            result@ == Self::unknown(),
    {
        proof {
            reveal_strlit("UNKNOWN");
        }
        Artist { text: "UNKNOWN".to_owned() }
    }
}

impl FromStr for Artist {
    type Err = ArtistError;

    /// The artist that `raw` holds between its leading and trailing white space.
    fn from_str(raw: &str) -> (result: Result<Self, ArtistError>)
        ensures
            match Self::parse(raw@) {
                Ok(text) => result matches Ok(artist) && artist@ == text,
                Err(error) => result == Err::<Self, ArtistError>(error),
            },
    {
        let text = trimmed(raw);
        proof {
            lemma_trim_normalizes(raw@);
        }
        if text.is_empty() {
            return Err(ArtistError::Empty);
        }
        Ok(Artist { text: text.to_owned() })
    }
}

} // verus!
