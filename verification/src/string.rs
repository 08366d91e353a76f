//! The handle in which text crosses the boundary to a foreign caller.

use vstd::prelude::*;
use vstd::utf8::encode_utf8;

verus! {

/// A string on its way across the boundary: its bytes and their number, or
/// nothing at all.
///
/// The content is UTF-8 and may hold zero bytes, so the receiver goes by the
/// length alone. A handle without content is not an empty string: the first
/// stands for "no value", the second for a value of length 0. A handle has one
/// owner, cannot be copied, and gives its content back once, when it is
/// released.
pub struct Str {
    data: Option<String>,
    len: usize,
}

/// The number of bytes that a handle with this content reports.
pub open spec fn content_len(content: Option<Seq<u8>>) -> nat {
    match content {
        Some(bytes) => bytes.len(),
        None => 0,
    }
}

/// The content that a handle made from `string` carries: the bytes of the
/// text in UTF-8, or nothing where there is no text.
pub open spec fn content_of(string: Option<Seq<char>>) -> Option<Seq<u8>> {
    match string {
        Some(text) => Some(encode_utf8(text)),
        None => None,
    }
}

impl View for Str {
    type V = Option<Seq<u8>>;

    /// The bytes that the handle carries, or `None` for a handle without
    /// content.
    closed spec fn view(&self) -> Option<Seq<u8>> {
        match self.data {
            Some(text) => Some(encode_utf8(text@)),
            None => None,
        }
    }
}

impl Str {
    #[verifier::type_invariant]
    spec fn len_is_byte_count(self) -> bool {
        self.len == content_len(self@)
    }

    /// A handle that takes `string` over as its content.
    #[must_use]
    pub fn new(string: String) -> (handle: Self)
        ensures
            handle@ == Some(encode_utf8(string@)),
    {
        let len: usize = string.as_str().as_bytes().len();
        Self { data: Some(string), len }
    }

    /// A handle for `string`, or the handle without content for `None`.
    #[must_use]
    pub fn from_opt(string: Option<String>) -> (handle: Self)
        ensures
            handle@ == content_of(string.deep_view()),
    {
        match string {
            Some(string) => Self::new(string),
            None => Self { data: None, len: 0 },
        }
    }

    /// Whether the handle is the one without content.
    pub fn is_null(&self) -> (null: bool)
        ensures
            null == (self@ is None),
    {
        self.data.is_none()
    }

    /// The number of bytes of the content, zero bytes among them; 0 for the
    /// handle without content.
    pub fn len(&self) -> (len: usize)
        ensures
            len == content_len(self@),
    {
        proof {
            use_type_invariant(self);
        }
        self.len
    }

    /// The bytes of the content.
    pub fn as_bytes(&self) -> (bytes: Option<&[u8]>)
        ensures
            match bytes {
                Some(bytes) => self@ == Some(bytes@),
                None => self@ is None,
            },
    {
        match &self.data {
            Some(text) => Some(text.as_str().as_bytes()),
            None => None,
        }
    }

    /// Ends the handle and gives back the string that it was made from.
    pub fn into_string(self) -> (string: Option<String>)
        ensures
            self@ == content_of(string.deep_view()),
    {
        self.data
    }
}

/// Releases a handle: its content is freed, and for the handle without content
/// nothing is done. A handle is released once, by the side that received it.
pub fn lol_html_str_free(string: Str) {
    let _ = string.into_string();
}

} // verus!
