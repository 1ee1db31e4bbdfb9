//! Rich text as the app shows it: a sequence of plain texts and links.
use crate::text::push_str;
use vstd::prelude::*;

verus! {

/// A piece of rich text: plain text, or a link with its text and its URL.
#[derive(Debug, Clone)]
pub enum ContentChunk {
    Text(String),
    Link(String, String),
}

/// Rich text: its pieces in order.
#[derive(Debug, Clone)]
pub struct Content {
    inner: Vec<ContentChunk>,
}

/// The text a piece shows: a link shows its text, not its URL.
pub open spec fn chunk_text(c: ContentChunk) -> Seq<char> {
    match c {
        ContentChunk::Text(t) => t@,
        ContentChunk::Link(t, _) => t@,
    }
}

/// The text that pieces show, one after the other.
pub open spec fn chunks_text(s: Seq<ContentChunk>) -> Seq<char>
    decreases s.len(),
{
    if s.len() == 0 {
        Seq::empty()
    } else {
        chunks_text(s.drop_last()) + chunk_text(s.last())
    }
}

/// The text of the URL that `text` spells, as the `url` crate writes it once parsed
/// (`Url::parse` then `Url::to_string`); nothing when `text` is no URL.
pub uninterp spec fn parsed_url_text(text: Seq<char>) -> Option<Seq<char>>;

/// Parse a URL and write it back (`Url::parse`, `Url::to_string`).
#[verifier::external_body]
fn parse_url(text: &str) -> (r: Option<String>)
    ensures
        match r {
            Some(s) => parsed_url_text(text@) == Some(s@),
            None => parsed_url_text(text@) is None,
        },
{
    match url::Url::parse(text) {
        Ok(url) => Some(url.to_string()),
        Err(_) => None,
    }
}

impl ContentChunk {
    /// A plain text piece.
    pub fn from_text(text: &str) -> (c: ContentChunk)
        ensures
            c matches ContentChunk::Text(t) && t@ == text@,
    {
        ContentChunk::Text(String::from_str(text))
    }

    /// A link to the URL that `text` spells, showing the URL itself; nothing when `text` is no
    /// URL.
    pub fn link_to(text: &str) -> (c: Option<ContentChunk>)
        ensures
            match parsed_url_text(text@) {
                Some(u) => c matches Some(ContentChunk::Link(t, l)) && t@ == u && l@ == u,
                None => c is None,
            },
    {
        match parse_url(text) {
            Some(s) => Some(ContentChunk::Link(s.clone(), s)),
            None => None,
        }
    }
}

impl Content {
    /// The pieces, in order.
    pub closed spec fn chunks(&self) -> Seq<ContentChunk> {
        self.inner@
    }

    /// Rich text with no pieces.
    pub fn new() -> (c: Content)
        ensures
            c.chunks() == Seq::<ContentChunk>::empty(),
    {
        Content { inner: Vec::new() }
    }

    /// Rich text of one piece.
    pub fn from_chunk(chunk: ContentChunk) -> (c: Content)
        ensures
            c.chunks() == seq![chunk],
    {
        let mut inner = Vec::new();
        inner.push(chunk);
        assert(inner@ =~= seq![chunk]);
        Content { inner }
    }

    /// This rich text with one more piece at the end.
    pub fn push(self, value: ContentChunk) -> (c: Content)
        ensures
            c.chunks() == self.chunks().push(value),
    {
        let mut inner = self.inner;
        inner.push(value);
        Content { inner }
    }

    /// The number of pieces.
    pub fn len(&self) -> (n: usize)
        ensures
            n == self.chunks().len(),
    {
        self.inner.len()
    }

    /// The text shown: the pieces' texts one after the other.
    pub fn display_string(&self) -> (s: String)
        ensures
            s@ == chunks_text(self.chunks()),
    {
        let mut s = String::new();
        let mut i: usize = 0;
        while i < self.inner.len()
            invariant
                i <= self.inner@.len(),
                s@ == chunks_text(self.inner@.subrange(0, i as int)),
            decreases self.inner@.len() - i,
        {
            match &self.inner[i] {
                ContentChunk::Text(t) => push_str(&mut s, t.as_str()),
                ContentChunk::Link(t, _) => push_str(&mut s, t.as_str()),
            }
            assert(self.inner@.subrange(0, i + 1).drop_last() =~= self.inner@.subrange(0, i as int));
            i = i + 1;
        }
        assert(self.inner@.subrange(0, self.inner@.len() as int) =~= self.inner@);
        s
    }
}

impl Default for Content {
    /// Rich text with no pieces.
    fn default() -> (c: Self)
        ensures
            c.chunks() == Seq::<ContentChunk>::empty(),
    {
        Content::new()
    }
}

} // verus!
