//! An encoding that is known to be ASCII-compatible.

use crate::encodings;
use crate::encodings::{ascii_compatible_name, encoding_name};
use crate::table::{entry_name, lemma_ascii_compatible_first};
use encoding_rs::Encoding;
use vstd::prelude::*;

verus! {

/// An encoding in which the bytes 0x00 to 0x7F stand for the ASCII characters
/// and for nothing else, so that ASCII text can be found in the raw bytes.
#[derive(Debug, Clone, Copy, PartialEq, Eq, Hash)]
pub struct AsciiCompatibleEncoding(&'static Encoding);

impl AsciiCompatibleEncoding {
    #[verifier::type_invariant]
    spec fn compatible(self) -> bool {
        ascii_compatible_name(encoding_name(self.0))
    }

    /// The encoding that this value wraps.
    pub closed spec fn inner(self) -> &'static Encoding {
        self.0
    }

    /// The name of the wrapped encoding.
    pub open spec fn name(self) -> Seq<char> {
        encoding_name(self.inner())
    }

    /// Wraps `encoding` if it is ASCII-compatible, and returns `None` if it is
    /// not.
    pub fn new(encoding: &'static Encoding) -> (wrapped: Option<Self>)
        ensures
            wrapped is Some <==> ascii_compatible_name(encoding_name(encoding)),
            wrapped matches Some(compatible) ==> compatible.inner() == encoding,
    {
        if encodings::is_ascii_compatible(encoding) {
            Some(Self(encoding))
        } else {
            None
        }
    }

    /// UTF-8, the most common encoding.
    pub fn utf_8() -> (wrapped: Self)
        ensures
            wrapped.name() == "UTF-8"@,
    {
        let encoding = encodings::utf_8();
        proof {
            assert(entry_name(0) == "UTF-8"@);
            lemma_ascii_compatible_first(0);
        }
        Self(encoding)
    }

    /// The wrapped encoding, which is ASCII-compatible.
    pub fn encoding(self) -> (encoding: &'static Encoding)
        ensures
            encoding == self.inner(),
            ascii_compatible_name(encoding_name(encoding)),
    {
        proof {
            use_type_invariant(&self);
        }
        self.0
    }
}

} // verus!
