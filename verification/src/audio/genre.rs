//! The kind of music a recording belongs to.

use std::str::FromStr;
use vstd::prelude::*;
use vstd::std_specs::cmp::PartialEqSpecImpl;

use crate::text::{is_normalized, lemma_trim_normalizes, trim, trimmed};

verus! {

/// A genre: the name of a kind of music, a text that is not empty and has no
/// white space at either end.
#[derive(Debug, Eq, Hash)]
pub struct Genre {
    text: String,
}

/// Why a text is no genre.
#[derive(Debug, Clone, Copy, PartialEq, Eq, Structural, Hash)]
pub enum GenreError {
    /// Nothing is left of the text once it is trimmed.
    Empty,
}

impl GenreError {
    /// The error in words.
    pub open spec fn message_spec(self) -> Seq<char> {
        "Genre cannot be empty"@
    }

    /// The error in words.
    pub fn message(&self) -> (result: String)
        ensures
            result@ == self.message_spec(),
    {
        "Genre cannot be empty".to_owned()
    }
}

impl View for Genre {
    type V = Seq<char>;

    closed spec fn view(&self) -> Seq<char> {
        self.text@
    }
}

impl Genre {
    #[verifier::type_invariant]
    spec fn normalized(self) -> bool {
        is_normalized(self.text@)
    }

    /// The text of the genre that `raw` gives, or the reason why it gives none.
    pub open spec fn parse(raw: Seq<char>) -> Result<Seq<char>, GenreError> {
        if trim(raw).len() == 0 {
            Err(GenreError::Empty)
        } else {
            Ok(trim(raw))
        }
    }

    /// The text that stands for a genre nobody could read.
    pub open spec fn unknown() -> Seq<char> {
        "UNKNOWN"@
    }

    /// The genre's name.
    pub fn as_str(&self) -> (result: &str)
        ensures
            result@ == self@,
            is_normalized(result@),
    {
        proof {
            use_type_invariant(self);
        }
        self.text.as_str()
    }
}

impl Clone for Genre {
    /// A genre with the same name.
    fn clone(&self) -> (result: Self)
        ensures
            result@ == self@,
    {
        proof {
            use_type_invariant(self);
        }
        Genre { text: self.text.clone() }
    }
}

impl PartialEq for Genre {
    /// Whether the two hold the same text.
    fn eq(&self, other: &Self) -> (result: bool) {
        self.text == other.text
    }
}

impl PartialEqSpecImpl for Genre {
    open spec fn obeys_eq_spec() -> bool {
        true
    }

    open spec fn eq_spec(&self, other: &Self) -> bool {
        self@ == other@
    }
}

impl Default for Genre {
    /// The genre `UNKNOWN`.
    fn default() -> (result: Self)
        ensures
            result@ == Self::unknown(),
    {
        proof {
            reveal_strlit("UNKNOWN");
        }
        Genre { text: "UNKNOWN".to_owned() }
    }
}

impl FromStr for Genre {
    type Err = GenreError;

    /// The genre that `raw` holds between its leading and trailing white space.
    fn from_str(raw: &str) -> (result: Result<Self, GenreError>)
        ensures
            match Self::parse(raw@) {
                Ok(text) => result matches Ok(genre) && genre@ == text,
                Err(error) => result == Err::<Self, GenreError>(error),
            },
    {
        let text = trimmed(raw);
        proof {
            lemma_trim_normalizes(raw@);
        }
        if text.is_empty() {
            return Err(GenreError::Empty);
        }
        Ok(Genre { text: text.to_owned() })
    }
}

} // verus!
