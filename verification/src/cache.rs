//! Remembered addresses: under which key the address of an image is kept,
//! for how long, and what a store of such entries is taken to do.
//!
//! The store itself is outside the library. `CacheModel` says what is
//! expected of it, so that the laws of keeping and forgetting can be stated.

use crate::text::{
    decimal, extend_chars, from_chars, lemma_decimal, push_decimal, to_chars,
};
use vstd::prelude::*;
use vstd::string::*;

verus! {

/// How long a remembered address is kept: one year, in seconds.
pub const CACHE_TTL_SECONDS: u32 = 31536000;

/// The key under which the address of image `index` of `work_id` is kept.
pub open spec fn cache_key_text(work_id: u32, index: u16) -> Seq<char> {
    decimal(work_id as nat) + "_"@ + decimal(index as nat)
}

/// The key under which the address of image `index` of `work_id` is kept.
pub fn cache_key(work_id: u32, index: u16) -> (key: String)
    ensures
        key@ == cache_key_text(work_id, index),
{
    let mut out: Vec<char> = Vec::new();
    push_decimal(&mut out, work_id);
    let separator = to_chars("_");
    extend_chars(&mut out, &separator);
    push_decimal(&mut out, index as u32);
    from_chars(&out)
}

/// No two images share a key.
pub proof fn lemma_cache_key_injective(work_a: u32, index_a: u16, work_b: u32, index_b: u16)
    requires
        cache_key_text(work_a, index_a) == cache_key_text(work_b, index_b),
    ensures
        work_a == work_b,
        index_a == index_b,
{
    reveal_strlit("_");
    let head_a = decimal(work_a as nat);
    let head_b = decimal(work_b as nat);
    let tail_a = decimal(index_a as nat);
    let tail_b = decimal(index_b as nat);
    let key_a = cache_key_text(work_a, index_a);
    let key_b = cache_key_text(work_b, index_b);
    lemma_decimal(work_a as nat);
    lemma_decimal(work_b as nat);
    lemma_decimal(index_a as nat);
    lemma_decimal(index_b as nat);
    assert("_"@ == seq!['_']);
    assert(key_a[head_a.len() as int] == '_');
    assert(key_b[head_b.len() as int] == '_');
    if head_a.len() < head_b.len() {
        assert(key_b[head_a.len() as int] == head_b[head_a.len() as int]);
    }
    if head_b.len() < head_a.len() {
        assert(key_a[head_b.len() as int] == head_a[head_b.len() as int]);
    }
    assert(head_a.len() == head_b.len());
    assert(key_a.take(head_a.len() as int) == head_a);
    assert(key_b.take(head_b.len() as int) == head_b);
    assert(key_a.skip(head_a.len() as int + 1) == tail_a);
    assert(key_b.skip(head_b.len() as int + 1) == tail_b);
}

/// An address to be remembered, and for how long.
#[derive(Debug, PartialEq, Eq)]
pub struct CacheWrite {
    pub key: String,
    pub url: String,
    pub ttl_seconds: u32,
}

/// `CacheWrite` as a mathematical value.
pub struct CacheWriteView {
    pub key: Seq<char>,
    pub url: Seq<char>,
    pub ttl_seconds: u32,
}

impl View for CacheWrite {
    type V = CacheWriteView;

    open spec fn view(&self) -> CacheWriteView {
        CacheWriteView { key: self.key@, url: self.url@, ttl_seconds: self.ttl_seconds }
    }
}

/// What the store holds under one key: an address, and the second at which
/// it lapses.
pub struct CacheEntry {
    pub url: Seq<char>,
    pub expires_at: nat,
}

/// A store of remembered addresses, as the library expects it to behave.
pub struct CacheModel {
    pub entries: Map<Seq<char>, CacheEntry>,
}

impl CacheModel {
    /// What a read of `key` at second `now` gives: the address kept under
    /// the key, unless there is none or it has lapsed.
    pub open spec fn lookup(self, key: Seq<char>, now: nat) -> Option<Seq<char>> {
        if self.entries.dom().contains(key) && now < self.entries[key].expires_at {
            Some(self.entries[key].url)
        } else {
            None
        }
    }

    /// The store after `write` was carried out at second `now`.
    pub open spec fn store(self, write: CacheWriteView, now: nat) -> CacheModel {
        CacheModel {
            entries: self.entries.insert(
                write.key,
                CacheEntry { url: write.url, expires_at: now + write.ttl_seconds as nat },
            ),
        }
    }

    /// The store after the entry under `key` was deleted.
    pub open spec fn invalidate(self, key: Seq<char>) -> CacheModel {
        CacheModel { entries: self.entries.remove(key) }
    }
}

/// The write that remembers `url` as the address of image `index` of
/// `work_id`.
pub open spec fn remembered(work_id: u32, index: u16, url: Seq<char>) -> CacheWriteView {
    CacheWriteView { key: cache_key_text(work_id, index), url, ttl_seconds: CACHE_TTL_SECONDS }
}

/// An address that was stored for an image is what a read for that image
/// gives, from the second of the write until the entry lapses one year
/// later, and not beyond.
pub proof fn lemma_store_then_lookup(
    cache: CacheModel,
    work_id: u32,
    index: u16,
    url: Seq<char>,
    stored_at: nat,
    read_at: nat,
)
    requires
        stored_at <= read_at,
    ensures
        read_at < stored_at + CACHE_TTL_SECONDS ==> cache.store(
            remembered(work_id, index, url),
            stored_at,
        ).lookup(cache_key_text(work_id, index), read_at) == Some(url),
        read_at >= stored_at + CACHE_TTL_SECONDS ==> cache.store(
            remembered(work_id, index, url),
            stored_at,
        ).lookup(cache_key_text(work_id, index), read_at) is None,
{
}

/// Storing the address of one image leaves what is read for every other
/// image as it was.
pub proof fn lemma_store_keeps_others(
    cache: CacheModel,
    work_id: u32,
    index: u16,
    url: Seq<char>,
    stored_at: nat,
    other_work: u32,
    other_index: u16,
    read_at: nat,
)
    requires
        work_id != other_work || index != other_index,
    ensures
        cache.store(remembered(work_id, index, url), stored_at).lookup(
            cache_key_text(other_work, other_index),
            read_at,
        ) == cache.lookup(cache_key_text(other_work, other_index), read_at),
{
    if cache_key_text(work_id, index) == cache_key_text(other_work, other_index) {
        lemma_cache_key_injective(work_id, index, other_work, other_index);
    }
}

/// Once the entry of an image is deleted, a read for that image gives
/// nothing, whatever was stored before.
pub proof fn lemma_invalidate_then_lookup(cache: CacheModel, key: Seq<char>, read_at: nat)
    ensures
        cache.invalidate(key).lookup(key, read_at) is None,
{
}

} // verus!
