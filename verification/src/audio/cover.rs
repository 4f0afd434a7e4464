//! The cover image of an album.

use vstd::prelude::*;
use vstd::std_specs::convert::TryFromSpecImpl;

verus! {

/// The image shown for an album without a cover: one grey pixel, as a PNG file.
pub const DEFAULT_COVER: [u8; 67] = [
    0x89, 0x50, 0x4E, 0x47, 0x0D, 0x0A, 0x1A, 0x0A, 0x00, 0x00, 0x00, 0x0D, 0x49, 0x48, 0x44, 0x52,
    0x00, 0x00, 0x00, 0x01, 0x00, 0x00, 0x00, 0x01, 0x08, 0x00, 0x00, 0x00, 0x00, 0x3A, 0x7E, 0x9B,
    0x55, 0x00, 0x00, 0x00, 0x0A, 0x49, 0x44, 0x41, 0x54, 0x78, 0xDA, 0x63, 0x68, 0x00, 0x00, 0x00,
    0x82, 0x00, 0x81, 0xDA, 0x45, 0x08, 0x3B, 0x00, 0x00, 0x00, 0x00, 0x49, 0x45, 0x4E, 0x44, 0xAE,
    0x42, 0x60, 0x82,
];

/// A cover image: the bytes of an image file, at least one.
#[derive(Debug, PartialEq, Eq, Hash)]
pub struct Cover {
    bytes: Vec<u8>,
}

/// Why some bytes are no cover.
#[derive(Debug, Clone, Copy, PartialEq, Eq, Structural, Hash)]
pub enum CoverError {
    /// There are no bytes at all.
    Empty,
}

impl CoverError {
    /// The error in words.
    pub open spec fn message_spec(self) -> Seq<char> {
        "Cover cannot be empty"@
    }

    /// The error in words.
    pub fn message(&self) -> (result: String)
        ensures
            result@ == self.message_spec(),
    {
        "Cover cannot be empty".to_owned()
    }
}

impl View for Cover {
    type V = Seq<u8>;

    closed spec fn view(&self) -> Seq<u8> {
        self.bytes@
    }
}

impl Cover {
    #[verifier::type_invariant]
    spec fn not_empty(self) -> bool {
        self.bytes@.len() > 0
    }

    /// The bytes of the cover that `bytes` gives, or the reason why it gives none.
    pub open spec fn parse(bytes: Seq<u8>) -> Result<Seq<u8>, CoverError> {
        if bytes.len() == 0 {
            Err(CoverError::Empty)
        } else {
            Ok(bytes)
        }
    }

    /// The bytes of the placeholder image.
    pub open spec fn placeholder() -> Seq<u8> {
        DEFAULT_COVER@
    }

    /// The cover made of `cover`, which must hold at least one byte.
    pub fn new(cover: Vec<u8>) -> (result: Result<Self, CoverError>)
        ensures
            match Self::parse(cover@) {
                Ok(bytes) => result matches Ok(made) && made@ == bytes,
                Err(error) => result == Err::<Self, CoverError>(error),
            },
    {
        Self::try_from(cover)
    }

    /// The bytes of the image.
    pub fn as_bytes(&self) -> (result: &Vec<u8>)
        ensures
            result@ == self@,
            result@.len() > 0,
    {
        proof {
            use_type_invariant(self);
        }
        &self.bytes
    }

    /// The bytes of the image, given away.
    pub fn into_bytes(self) -> (result: Vec<u8>)
        ensures
            result@ == self@,
            result@.len() > 0,
    {
        proof {
            use_type_invariant(&self);
        }
        self.bytes
    }
}

impl Clone for Cover {
    /// A cover with the same bytes.
    fn clone(&self) -> (result: Self)
        ensures
            result@ == self@,
    {
        proof {
            use_type_invariant(self);
        }
        Cover { bytes: self.bytes.clone() }
    }
}

impl Default for Cover {
    /// The placeholder image.
    fn default() -> (result: Self)
        ensures
            result@ == Self::placeholder(),
    {
        let mut bytes: Vec<u8> = Vec::new();
        let mut at: usize = 0;
        while at < 67
            invariant
                at <= 67,
                bytes@ == DEFAULT_COVER@.take(at as int),
            decreases 67 - at,
        {
            bytes.push(DEFAULT_COVER[at]);
            assert(DEFAULT_COVER@.take(at as int).push(DEFAULT_COVER@[at as int])
                =~= DEFAULT_COVER@.take(at + 1));
            at = at + 1;
        }
        assert(DEFAULT_COVER@.take(67) =~= DEFAULT_COVER@);
        Cover { bytes }
    }
}

impl TryFrom<Vec<u8>> for Cover {
    type Error = CoverError;

    /// The cover made of `cover`, which must hold at least one byte.
    fn try_from(cover: Vec<u8>) -> (result: Result<Self, CoverError>)
        ensures
            match Self::parse(cover@) {
                Ok(bytes) => result matches Ok(made) && made@ == bytes,
                Err(error) => result == Err::<Self, CoverError>(error),
            },
    {
        if cover.len() == 0 {
            return Err(CoverError::Empty);
        }
        Ok(Cover { bytes: cover })
    }
}

impl TryFromSpecImpl<Vec<u8>> for Cover {
    open spec fn obeys_try_from_spec() -> bool {
        true
    }

    closed spec fn try_from_spec(cover: Vec<u8>) -> Result<Self, CoverError> {
        if cover@.len() == 0 {
            Err(CoverError::Empty)
        } else {
            Ok(Cover { bytes: cover })
        }
    }
}

} // verus!
