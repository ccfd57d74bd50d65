//! What a user sends: text with marked-up elements, and images.
use vstd::prelude::*;

verus! {

/// The largest number of characters accepted in one text input.
pub const MAX_USER_INPUT_TEXT_CHARS: usize = 1 << 20;

/// The level of detail at which an image is sent.
#[derive(Debug, Clone, Copy, PartialEq, Eq, Structural)]
pub enum ImageDetail {
    Auto,
    Low,
    High,
    Original,
}

/// One piece of user input.
#[derive(Debug, Clone, PartialEq)]
pub enum UserInput {
    Text { text: String, text_elements: Vec<TextElement> },
    Image { image_url: String, detail: Option<ImageDetail> },
    LocalImage { path: String, detail: Option<ImageDetail> },
}

/// A range of bytes of a text.
#[derive(Debug, Clone, Copy, PartialEq, Eq, Structural)]
pub struct ByteRange {
    pub start: usize,
    pub end: usize,
}

impl vstd::std_specs::convert::FromSpecImpl<std::ops::Range<usize>> for ByteRange {
    open spec fn obeys_from_spec() -> bool {
        true
    }

    open spec fn from_spec(v: std::ops::Range<usize>) -> ByteRange {
        ByteRange { start: v.start, end: v.end }
    }
}

/// The range with the same bounds.
impl From<std::ops::Range<usize>> for ByteRange {
    fn from(range: std::ops::Range<usize>) -> (r: ByteRange) {
        ByteRange { start: range.start, end: range.end }
    }
}

/// The text between byte offsets `a` and `b` of `s`, when both fall on
/// character boundaries and `a <= b <= ` the byte length (`str::get`).
pub uninterp spec fn byte_slice(s: Seq<char>, a: usize, b: usize) -> Option<Seq<char>>;

/// `str::get` with a byte range.
#[verifier::external_body]
pub(crate) fn str_get<'a>(s: &'a str, a: usize, b: usize) -> (r: Option<&'a str>)
    ensures
        r matches Some(t) ==> byte_slice(s@, a, b) == Some(t@),
        r is None ==> byte_slice(s@, a, b) is None,
{
    s.get(a..b)
}

/// A marked-up element of a text input: a byte range and, optionally, the
/// placeholder shown in its place.
#[derive(Debug, Clone, PartialEq)]
pub struct TextElement {
    pub byte_range: ByteRange,
    placeholder: Option<String>,
}

impl TextElement {
    /// The byte range of the element.
    pub closed spec fn spec_range(&self) -> ByteRange {
        self.byte_range
    }

    /// The placeholder the element carries.
    pub closed spec fn spec_placeholder(&self) -> Option<Seq<char>> {
        match self.placeholder {
            Some(p) => Some(p@),
            None => None,
        }
    }

    /// An element for a range with an optional placeholder.
    pub fn new(byte_range: ByteRange, placeholder: Option<String>) -> (r: TextElement)
        ensures
            r.spec_range() == byte_range,
            r.spec_placeholder() == match placeholder {
                Some(p) => Some(p@),
                None => None,
            },
    {
        TextElement { byte_range, placeholder }
    }

    /// The element with its range mapped by `map` and the same placeholder.
    pub fn map_range<F>(&self, map: F) -> (r: TextElement) where F: FnOnce(ByteRange) -> ByteRange
        requires
            map.requires((self.spec_range(),)),
        ensures
            map.ensures((self.spec_range(),), r.spec_range()),
            r.spec_placeholder() == self.spec_placeholder(),
    {
        TextElement { byte_range: map(self.byte_range), placeholder: self.placeholder.clone() }
    }

    /// Replaces the placeholder.
    pub fn set_placeholder(&mut self, placeholder: Option<String>)
        ensures
            final(self).spec_range() == old(self).spec_range(),
            final(self).spec_placeholder() == match placeholder {
                Some(p) => Some(p@),
                None => None,
            },
    {
        self.placeholder = placeholder;
    }

    /// The placeholder alone, for conversions between representations.
    pub fn _placeholder_for_conversion_only(&self) -> (r: Option<&str>)
        ensures
            match self.spec_placeholder() {
                Some(p) => r matches Some(t) && t@ == p,
                None => r is None,
            },
    {
        match &self.placeholder {
            Some(p) => Some(p.as_str()),
            None => None,
        }
    }

    /// What the element shows: its placeholder, else the text in its byte range
    /// (nothing when the range is not a valid slice of `text`).
    pub fn placeholder<'a>(&'a self, text: &'a str) -> (r: Option<&'a str>)
        ensures
            match self.spec_placeholder() {
                Some(p) => r matches Some(t) && t@ == p,
                None => match byte_slice(text@, self.spec_range().start, self.spec_range().end) {
                    Some(t) => r matches Some(u) && u@ == t,
                    None => r is None,
                },
            },
    {
        match &self.placeholder {
            Some(p) => Some(p.as_str()),
            None => str_get(text, self.byte_range.start, self.byte_range.end),
        }
    }
}

} // verus!
