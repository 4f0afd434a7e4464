//! The title of a recording or of an album.

use std::str::FromStr;
use vstd::prelude::*;
use vstd::std_specs::cmp::PartialEqSpecImpl;

use crate::text::{is_normalized, lemma_trim_normalizes, trim, trimmed};

verus! {

/// A title: a text that is not empty and has no white space at either end.
#[derive(Debug, Eq, Hash)]
pub struct Title {
    text: String,
}

/// Why a text is no title.
#[derive(Debug, Clone, Copy, PartialEq, Eq, Structural, Hash)]
pub enum TitleError {
    /// Nothing is left of the text once it is trimmed.
    Empty,
}

impl TitleError {
    /// The error in words.
    pub open spec fn message_spec(self) -> Seq<char> {
        "Title cannot be empty"@
    }

    /// The error in words.
    pub fn message(&self) -> (result: String)
        ensures
            result@ == self.message_spec(),
    {
        "Title cannot be empty".to_owned()
    }
}

impl View for Title {
    type V = Seq<char>;

    closed spec fn view(&self) -> Seq<char> {
        self.text@
    }
}

impl Title {
    #[verifier::type_invariant]
    spec fn normalized(self) -> bool {
        is_normalized(self.text@)
    }

    /// The text of the title that `raw` gives, or the reason why it gives none.
    pub open spec fn parse(raw: Seq<char>) -> Result<Seq<char>, TitleError> {
        if trim(raw).len() == 0 {
            Err(TitleError::Empty)
        } else {
            Ok(trim(raw))
        }
    }

    /// The text that stands for a title nobody could read.
    pub open spec fn unknown() -> Seq<char> {
        "UNKNOWN"@
    }

    /// The title's text.
    pub fn as_str(&self) -> (result: &str)
        ensures
            result@ == self@,
            is_normalized(result@),
    {
        proof {
            use_type_invariant(self);
        }
        self.text.as_str()
    }
}

impl Clone for Title {
    /// A title with the same text.
    fn clone(&self) -> (result: Self)
        ensures
            result@ == self@,
    {
        proof {
            use_type_invariant(self);
        }
        Title { text: self.text.clone() }
    }
}

impl PartialEq for Title {
    /// Whether the two hold the same text.
    fn eq(&self, other: &Self) -> (result: bool) {
        self.text == other.text
    }
}

impl PartialEqSpecImpl for Title {
    open spec fn obeys_eq_spec() -> bool {
        true
    }

    open spec fn eq_spec(&self, other: &Self) -> bool {
        self@ == other@
    }
}

impl Default for Title {
    /// The title `UNKNOWN`.
    fn default() -> (result: Self)
        ensures
            result@ == Self::unknown(),
    {
        proof {
            reveal_strlit("UNKNOWN");
        }
        Title { text: "UNKNOWN".to_owned() }
    }
}

impl FromStr for Title {
    type Err = TitleError;

    /// The title that `raw` holds between its leading and trailing white space.
    fn from_str(raw: &str) -> (result: Result<Self, TitleError>)
        ensures
            match Self::parse(raw@) {
                Ok(text) => result matches Ok(title) && title@ == text,
                Err(error) => result == Err::<Self, TitleError>(error),
            },
    {
        let text = trimmed(raw);
        proof {
            lemma_trim_normalizes(raw@);
        }
        if text.is_empty() {
            return Err(TitleError::Empty);
        }
        Ok(Title { text: text.to_owned() })
    }
}

} // verus!
