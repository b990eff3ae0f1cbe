//! Content type utils.

use crate::bytes_cache::{
    bytes_from_static, bytes_from_string, bytes_of, entries_after, slot_of, Cache,
};
use bytes::Bytes;
use vstd::prelude::*;
use crate::text::rsplit_once;
use vstd::utf8::{encode_utf8, is_ascii_chars};

verus! {

/// What follows the last dot of a route; `None` where the route has no dot.
pub open spec fn extension(route: Seq<char>) -> Option<Seq<char>>
    decreases route.len(),
{
    if route.len() == 0 {
        None
    } else if route.last() == '.' {
        Some(Seq::empty())
    } else {
        match extension(route.drop_last()) {
            Some(ext) => Some(ext.push(route.last())),
            None => None,
        }
    }
}

/// The media type that files with the extension `ext` are taken to have, as text;
/// `None` where the extension is not known.
pub uninterp spec fn guessed_media_type(ext: Seq<char>) -> Option<Seq<char>>;

/// The media type that an extension stands for: the one that it is taken to have,
/// where it is made of ASCII characters and is known.
pub open spec fn known_media_type(ext: Seq<char>) -> Option<Seq<char>> {
    if is_ascii_chars(ext) {
        guessed_media_type(ext)
    } else {
        None
    }
}

/// The media type of pages: of the routes without an extension.
pub open spec fn page_media_type() -> Seq<char> {
    "text/html; charset=utf-8"@
}

/// A text without a dot has no extension.
pub proof fn extension_needs_a_dot(route: Seq<char>)
    requires
        !route.contains('.'),
    ensures
        extension(route) is None,
    decreases route.len(),
{
    if route.len() > 0 {
        assert(route[route.len() - 1] == route.last());
        assert forall|i: int| 0 <= i < route.drop_last().len() implies route.drop_last()[i]
            != '.' by {
            assert(route.drop_last()[i] == route[i]);
        }
        assert(!route.drop_last().contains('.'));
        extension_needs_a_dot(route.drop_last());
    }
}

/// The extension is what follows the last dot.
pub proof fn extension_follows_the_last_dot(before: Seq<char>, after: Seq<char>)
    requires
        !after.contains('.'),
    ensures
        extension(before + seq!['.'] + after) == Some(after),
    decreases after.len(),
{
    let route = before + seq!['.'] + after;
    if after.len() == 0 {
        assert(route.last() == '.');
        assert(after =~= Seq::<char>::empty());
    } else {
        assert(route.last() == after.last());
        assert(after[after.len() - 1] == after.last());
        assert(route.drop_last() =~= before + seq!['.'] + after.drop_last());
        assert forall|i: int| 0 <= i < after.drop_last().len() implies after.drop_last()[i]
            != '.' by {
            assert(after.drop_last()[i] == after[i]);
        }
        assert(!after.drop_last().contains('.'));
        extension_follows_the_last_dot(before, after.drop_last());
        assert(after.drop_last().push(after.last()) =~= after);
    }
}

/// What follows the last dot of the route.
pub(crate) fn extension_of(route: &str) -> (r: Option<&str>)
    ensures
        match r {
            Some(ext) => extension(route@) == Some(ext@),
            None => extension(route@) is None,
        },
{
    match rsplit_once(route, '.') {
        Some((before, ext)) => {
            proof {
                extension_follows_the_last_dot(before@, ext@);
            }
            Some(ext)
        },
        None => {
            proof {
                extension_needs_a_dot(route@);
            }
            None
        },
    }
}

/// `mr_mime::Mime::guess`, of which the first guess is kept, as text: the media type
/// that the extension is taken to stand for. The lookup splits the extension at byte
/// offsets, so it is only made for an extension of ASCII characters.
#[verifier::external_body]
pub(crate) fn guess_media_type(ext: &str) -> (r: Option<String>)
    requires
        is_ascii_chars(ext@),
    ensures
        match r {
            Some(media_type) => guessed_media_type(ext@) == Some(media_type@),
            None => guessed_media_type(ext@) is None,
        },
{
    mr_mime::Mime::guess(ext).next().map(|guess| guess.to_string())
}

/// The content type detector.
///
/// Will produce efficiently cloneable header values.
#[derive(Debug)]
pub struct Detector {
    /// The cache for efficient reuse of the header values.
    pub cache: Cache,
}

/// The content type of a route, as the bytes of a header value: that of pages for a
/// route without extension, that of the extension where it is known, else none.
pub open spec fn content_type_of(route: Seq<char>) -> Option<Seq<u8>> {
    match extension(route) {
        None => Some(encode_utf8(page_media_type())),
        Some(ext) => match known_media_type(ext) {
            Some(media_type) => Some(encode_utf8(media_type)),
            None => None,
        },
    }
}

/// The media type that a detection looks up in the cache, if any: that of the route's
/// extension, where the route has one that is known.
pub open spec fn cached_media_type(route: Seq<char>) -> Option<Seq<u8>> {
    match extension(route) {
        None => None,
        Some(ext) => match known_media_type(ext) {
            Some(media_type) => Some(encode_utf8(media_type)),
            None => None,
        },
    }
}

impl Detector {
    /// A detector with an empty cache.
    pub fn new() -> (r: Self)
        ensures
            r.cache@ == Seq::<Seq<u8>>::empty(),
            r.cache.wf(),
    {
        Detector { cache: Cache::new() }
    }

    /// Detect content type based on the route.
    ///
    /// A media type that stands for an extension is held in the cache once, and the
    /// value handed out is the buffer that the cache holds for it.
    pub fn detect(&mut self, route: &str) -> (r: Option<Bytes>)
        requires
            old(self).cache.wf(),
        ensures
            final(self).cache.wf(),
            match r {
                Some(value) => content_type_of(route@) == Some(bytes_of(value)),
                None => content_type_of(route@) is None,
            },
            match cached_media_type(route@) {
                Some(media_type) => final(self).cache@ == entries_after(old(self).cache@, media_type)
                    && r == Some(final(self).cache.entry(slot_of(old(self).cache@, media_type))),
                None => final(self).cache == old(self).cache,
            },
            forall|i: int|
                0 <= i < old(self).cache@.len() ==> final(self).cache.entry(i)
                    == old(self).cache.entry(i),
    {
        match extension_of(route) {
            // The route has a `.`, so we can extract the extension.
            Some(ext) => {
                if ext.is_ascii() {
                    if let Some(guess) = guess_media_type(ext) {
                        let val = self.cache.find_or_cache(bytes_from_string(guess));
                        return Some(val);
                    }
                }
            },
            // Assume routes that don't have a `.` in them are pages.
            None => {
                return Some(bytes_from_static("text/html; charset=utf-8".as_bytes()));
            },
        }
        None
    }
}

impl Default for Detector {
    fn default() -> (r: Self)
        ensures
            r.cache@ == Seq::<Seq<u8>>::empty(),
            r.cache.wf(),
    {
        Detector::new()
    }
}

} // verus!
