//! Content type utils.

use crate::bytes_cache::{bytes_copy_from_slice, bytes_of, entries_after, slot_of, Cache};
use crate::spa_loader::content_type::{
    extension, extension_of, guess_media_type, known_media_type,
};
use bytes::Bytes;
use file_format::FileFormat;
use vstd::prelude::*;
use vstd::utf8::encode_utf8;

verus! {

/// `file_format::FileFormat`: the format of a file, carried through as it is.
/// `file_format::FileFormat`: the format of a file, carried through as it is.
#[verifier::external_type_specification]
#[verifier::external_body]
pub struct ExFileFormat(FileFormat);

/// The format that the first bytes of a file give away.
pub uninterp spec fn format_of(file_data: Seq<u8>) -> FileFormat;

/// Whether the format is that of arbitrary binary data: of a file that gives away none.
pub uninterp spec fn is_arbitrary_binary_data(format: FileFormat) -> bool;

/// Whether the format is that of plain text.
pub uninterp spec fn is_plain_text(format: FileFormat) -> bool;

/// The media type of a format, as text.
pub uninterp spec fn media_type_of(format: FileFormat) -> Seq<char>;

/// `FileFormat::from_bytes`: the format that the bytes give away.
#[verifier::external_body]
fn detect_format(file_data: &[u8]) -> (r: FileFormat)
    ensures
        r == format_of(file_data@),
{
    FileFormat::from_bytes(file_data)
}

/// `FileFormat::eq` with `FileFormat::ArbitraryBinaryData`.
#[verifier::external_body]
fn format_is_arbitrary_binary_data(format: &FileFormat) -> (r: bool)
    ensures
        r == is_arbitrary_binary_data(*format),
{
    *format == FileFormat::ArbitraryBinaryData
}

/// `FileFormat::eq` with `FileFormat::PlainText`.
#[verifier::external_body]
fn format_is_plain_text(format: &FileFormat) -> (r: bool)
    ensures
        r == is_plain_text(*format),
{
    *format == FileFormat::PlainText
}

/// `FileFormat::media_type`: the media type of the format.
#[verifier::external_body]
fn format_media_type(format: &FileFormat) -> (r: &str)
    ensures
        r@ == media_type_of(*format),
{
    format.media_type()
}

/// The content type detector.
///
/// Will produce efficiently cloneable header values.
#[derive(Debug)]
pub struct Detector {
    /// The cache for efficient reuse of the header values.
    pub cache: Cache,
}

/// The media type of a file that is served under `route` and holds `file_data`: that
/// of the route's extension, where the data gives no format away or is plain text and
/// the extension is known; else that of the format of the data.
pub open spec fn media_type(route: Seq<char>, file_data: Seq<u8>) -> Seq<char> {
    let format = format_of(file_data);
    if (is_arbitrary_binary_data(format) || is_plain_text(format)) && extension(route) is Some
        && known_media_type(extension(route)->0) is Some {
        known_media_type(extension(route)->0)->0
    } else {
        media_type_of(format)
    }
}

impl Detector {
    /// A detector with an empty cache.
    pub fn new() -> (r: Self)
        ensures
            r.cache@ == Seq::<Seq<u8>>::empty(),
            r.cache.wf(),
    {
        Detector { cache: Cache::new() }
    }

    /// Lookup the mime type in cache and return the header value.
    fn cache_lookup(&mut self, mime_type: &str) -> (r: Bytes)
        requires
            old(self).cache.wf(),
        ensures
            final(self).cache.wf(),
            final(self).cache@ == entries_after(old(self).cache@, encode_utf8(mime_type@)),
            r == final(self).cache.entry(slot_of(old(self).cache@, encode_utf8(mime_type@))),
            bytes_of(r) == encode_utf8(mime_type@),
            forall|i: int|
                0 <= i < old(self).cache@.len() ==> final(self).cache.entry(i)
                    == old(self).cache.entry(i),
    {
        self.cache.find_or_cache(bytes_copy_from_slice(mime_type.as_bytes()))
    }

    /// Detect content type based on the route and on the data of the file.
    ///
    /// The media type is held in the cache once, and the value handed out is the
    /// buffer that the cache holds for it.
    pub fn detect(&mut self, route: &str, file_data: &[u8]) -> (r: Option<Bytes>)
        requires
            old(self).cache.wf(),
        ensures
            final(self).cache.wf(),
            r is Some,
            bytes_of(r->0) == encode_utf8(media_type(route@, file_data@)),
            final(self).cache@ == entries_after(
                old(self).cache@,
                encode_utf8(media_type(route@, file_data@)),
            ),
            r->0 == final(self).cache.entry(
                slot_of(old(self).cache@, encode_utf8(media_type(route@, file_data@))),
            ),
            forall|i: int|
                0 <= i < old(self).cache@.len() ==> final(self).cache.entry(i)
                    == old(self).cache.entry(i),
    {
        let detected_format = detect_format(file_data);
        if format_is_arbitrary_binary_data(&detected_format) || format_is_plain_text(
            &detected_format,
        ) {
            // If the route has a `.` we can extract the extension and try using that.
            if let Some(ext) = extension_of(route) {
                if ext.is_ascii() {
                    if let Some(guess) = guess_media_type(ext) {
                        return Some(self.cache_lookup(guess.as_str()));
                    }
                }
            }
        }
        Some(self.cache_lookup(format_media_type(&detected_format)))
    }
}

impl Default for Detector {
    fn default() -> (r: Self)
        ensures
            r.cache@ == Seq::<Seq<u8>>::empty(),
            r.cache.wf(),
    {
        Detector::new()
    }
}

} // verus!
