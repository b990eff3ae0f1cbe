//! Bytes cache.

use bytes::Bytes;
use vstd::prelude::*;
use vstd::utf8::encode_utf8;

verus! {

/// `bytes::Bytes`: a buffer of bytes whose clones share its memory. Its contents are
/// known by [`bytes_of`] alone.
#[verifier::external_type_specification]
#[verifier::external_body]
pub struct ExBytes(Bytes);

/// The bytes that a buffer holds.
pub uninterp spec fn bytes_of(buffer: Bytes) -> Seq<u8>;

/// `Bytes::eq`: two buffers are equal exactly where they hold the same bytes.
#[verifier::external_body]
pub(crate) fn bytes_eq(a: &Bytes, b: &Bytes) -> (r: bool)
    ensures
        r == (bytes_of(*a) == bytes_of(*b)),
{
    a == b
}

/// `Bytes::clone`: a handle to the same memory, which holds the same bytes.
#[verifier::external_body]
pub(crate) fn bytes_clone(buffer: &Bytes) -> (r: Bytes)
    ensures
        r == *buffer,
{
    buffer.clone()
}

/// `Bytes::from` a string: a buffer that holds the text as UTF-8.
#[verifier::external_body]
pub(crate) fn bytes_from_string(text: String) -> (r: Bytes)
    ensures
        bytes_of(r) == encode_utf8(text@),
{
    Bytes::from(text)
}

/// `Bytes::from_static`: a buffer that holds the given bytes.
#[verifier::external_body]
pub(crate) fn bytes_from_static(bytes: &'static [u8]) -> (r: Bytes)
    ensures
        bytes_of(r) == bytes@,
{
    Bytes::from_static(bytes)
}

/// `Bytes::from` a vector: a buffer that holds the bytes of the vector.
#[verifier::external_body]
pub(crate) fn bytes_from_vec(bytes: Vec<u8>) -> (r: Bytes)
    ensures
        bytes_of(r) == bytes@,
{
    Bytes::from(bytes)
}

/// `Bytes::copy_from_slice`: a buffer that holds a copy of the given bytes.
#[verifier::external_body]
pub(crate) fn bytes_copy_from_slice(data: &[u8]) -> (r: Bytes)
    ensures
        bytes_of(r) == data@,
{
    Bytes::copy_from_slice(data)
}

/// Where `content` stands in `entries`: the least index that holds it, or the length of
/// `entries` where none does.
pub open spec fn slot_of(entries: Seq<Seq<u8>>, content: Seq<u8>) -> int
    decreases entries.len(),
{
    if entries.len() == 0 {
        0
    } else if entries[0] == content {
        0
    } else {
        1 + slot_of(entries.drop_first(), content)
    }
}

/// The entries of a cache after `content` was looked up in it.
pub open spec fn entries_after(entries: Seq<Seq<u8>>, content: Seq<u8>) -> Seq<Seq<u8>> {
    if entries.contains(content) {
        entries
    } else {
        entries.push(content)
    }
}

/// Whether no two entries hold the same bytes.
pub open spec fn distinct(entries: Seq<Seq<u8>>) -> bool {
    forall|i: int, j: int| 0 <= i < j < entries.len() ==> entries[i] != entries[j]
}

/// `slot_of` is the index of the first occurrence, and the length where there is none.
pub proof fn slot_of_is_first(entries: Seq<Seq<u8>>, content: Seq<u8>)
    ensures
        0 <= slot_of(entries, content) <= entries.len(),
        slot_of(entries, content) < entries.len() <==> entries.contains(content),
        slot_of(entries, content) < entries.len() ==> entries[slot_of(entries, content)] == content,
        forall|i: int| 0 <= i < slot_of(entries, content) ==> entries[i] != content,
    decreases entries.len(),
{
    if entries.len() == 0 {
    } else if entries[0] == content {
        assert(entries.contains(content));
    } else {
        let rest = entries.drop_first();
        slot_of_is_first(rest, content);
        let k = slot_of(rest, content);
        if k < rest.len() {
            assert(entries[k + 1] == rest[k]);
            assert(entries.contains(content));
        }
        if entries.contains(content) {
            let i = choose|i: int| 0 <= i < entries.len() && entries[i] == content;
            assert(rest[i - 1] == content);
            assert(rest.contains(content));
        }
        assert forall|i: int| 0 <= i < 1 + k implies entries[i] != content by {
            if i > 0 {
                assert(entries[i] == rest[i - 1]);
            }
        }
    }
}

/// Content type cache for efficient header values management.
///
/// Holds each distinct content once, in the order in which they were first looked up.
#[derive(Debug)]
pub struct Cache(Vec<Bytes>);

impl Cache {
    /// The contents that the cache holds, oldest first.
    pub closed spec fn view(&self) -> Seq<Seq<u8>> {
        self.0@.map_values(|b: Bytes| bytes_of(b))
    }

    /// The buffer that the cache holds at `slot`.
    pub closed spec fn entry(&self, slot: int) -> Bytes {
        self.0@[slot]
    }

    /// Whether no content is held twice.
    pub open spec fn wf(&self) -> bool {
        distinct(self@)
    }

    /// The buffer at each slot holds the content at that slot.
    pub proof fn entry_holds(&self, slot: int)
        requires
            0 <= slot < self@.len(),
        ensures
            bytes_of(self.entry(slot)) == self@[slot],
    {
    }

    /// An empty cache.
    pub fn new() -> (r: Self)
        ensures
            r@ == Seq::<Seq<u8>>::empty(),
            r.wf(),
    {
        let r = Cache(Vec::new());
        assert(r@ =~= Seq::<Seq<u8>>::empty());
        r
    }

    /// Find the [`Bytes`] for the corresponding mime type in the cache, or cache the given
    /// [`Bytes`] for later.
    ///
    /// The result is the buffer that the cache holds for that content: a later call with
    /// the same content hands out the same buffer.
    pub fn find_or_cache(&mut self, val: Bytes) -> (r: Bytes)
        requires
            old(self).wf(),
        ensures
            final(self).wf(),
            final(self)@ == entries_after(old(self)@, bytes_of(val)),
            forall|i: int| 0 <= i < old(self)@.len() ==> final(self).entry(i) == old(self).entry(i),
            !old(self)@.contains(bytes_of(val)) ==> final(self).entry(old(self)@.len() as int) == val,
            r == final(self).entry(slot_of(old(self)@, bytes_of(val))),
            bytes_of(r) == bytes_of(val),
    {
        let ghost content = bytes_of(val);
        let ghost before = self@;
        let mut i: usize = 0;
        while i < self.0.len()
            invariant
                0 <= i <= self.0.len(),
                self@ == before,
                distinct(before),
                *self == *old(self),
                content == bytes_of(val),
                forall|j: int| 0 <= j < i ==> before[j] != content,
            decreases self.0.len() - i,
        {
            if bytes_eq(&self.0[i], &val) {
                proof {
                    slot_of_is_first(before, content);
                    assert(before[i as int] == content);
                    assert(before.contains(content));
                }
                return bytes_clone(&self.0[i]);
            }
            i += 1;
        }
        proof {
            slot_of_is_first(before, content);
            assert(!before.contains(content));
        }
        let r = bytes_clone(&val);
        self.0.push(val);
        assert(self@ =~= before.push(content));
        r
    }
}

impl Default for Cache {
    fn default() -> (r: Self)
        ensures
            r@ == Seq::<Seq<u8>>::empty(),
            r.wf(),
    {
        Cache::new()
    }
}

/// Looking the same content up twice finds the same slot, and the second lookup leaves
/// the cache as the first one left it: both calls hand out the one buffer held there.
pub proof fn lookup_is_idempotent(entries: Seq<Seq<u8>>, content: Seq<u8>)
    requires
        distinct(entries),
    ensures
        distinct(entries_after(entries, content)),
        entries_after(entries_after(entries, content), content) == entries_after(entries, content),
        slot_of(entries_after(entries, content), content) == slot_of(entries, content),
        entries_after(entries, content)[slot_of(entries, content)] == content,
{
    slot_of_is_first(entries, content);
    let after = entries_after(entries, content);
    slot_of_is_first(after, content);
    if !entries.contains(content) {
        assert(after[entries.len() as int] == content);
        assert(after.contains(content));
        assert forall|i: int| 0 <= i < entries.len() implies after[i] != content by {
            assert(after[i] == entries[i]);
        }
    }
}

} // verus!
