//! Where an artwork's files live: the addresses that are asked, and how the
//! address of one image is inferred from what the metadata gives.
//!
//! An address is treated as plain text. Its final segment is what follows the
//! last `/`; the extension of that segment is what follows its last `.`,
//! unless that dot is the segment's first character.

use crate::text::{
    decimal, extend_chars, from_chars, push_decimal, replace_all, replace_chars, replaced,
    to_chars,
};
use vstd::prelude::*;
use vstd::string::*;

verus! {

// ---------------------------------------------------------------------------
// Segments and extensions
// ---------------------------------------------------------------------------

/// The position just behind the last `c` in `s`, or 0 where `s` holds none.
pub open spec fn after_last(s: Seq<char>, c: char) -> int
    decreases s.len(),
{
    if s.len() == 0 {
        0
    } else if s.last() == c {
        s.len() as int
    } else {
        after_last(s.drop_last(), c)
    }
}

/// `after_last` in terms of positions: it lies within the text, the character
/// before it is `c` unless it is 0, and no `c` stands at or behind it.
pub proof fn lemma_after_last(s: Seq<char>, c: char)
    ensures
        0 <= after_last(s, c) <= s.len(),
        after_last(s, c) > 0 ==> s[after_last(s, c) - 1] == c,
        forall|j: int| after_last(s, c) <= j < s.len() ==> s[j] != c,
    decreases s.len(),
{
    if s.len() > 0 && s.last() != c {
        let front = s.drop_last();
        lemma_after_last(front, c);
        assert forall|j: int| after_last(s, c) <= j < s.len() implies s[j] != c by {
            if j < front.len() {
                assert(front[j] != c);
            }
        }
    }
}

/// What follows the last `/` of `url`; all of it where it holds no `/`.
pub open spec fn final_segment(url: Seq<char>) -> Seq<char> {
    url.skip(after_last(url, '/'))
}

/// How many characters of a segment come before its extension and the dot
/// that introduces it.
pub open spec fn stem_len(segment: Seq<char>) -> int {
    if after_last(segment, '.') <= 1 {
        segment.len() as int
    } else {
        after_last(segment, '.') - 1
    }
}

/// The extension of the final segment of `url`, without its dot; empty where
/// there is none.
pub open spec fn extension_of(url: Seq<char>) -> Seq<char> {
    let segment = final_segment(url);
    if stem_len(segment) == segment.len() {
        Seq::empty()
    } else {
        segment.skip(stem_len(segment) + 1)
    }
}

/// `url` without the extension of its final segment and without the dot that
/// introduces it.
pub open spec fn without_extension(url: Seq<char>) -> Seq<char> {
    url.take(after_last(url, '/') + stem_len(final_segment(url)))
}

fn position_after_last(s: &Vec<char>, c: char) -> (at: usize)
    ensures
        at == after_last(s@, c),
{
    let mut i: usize = s.len();
    assert(s@.take(i as int) == s@);
    while i > 0
        invariant
            i <= s.len(),
            after_last(s@, c) == after_last(s@.take(i as int), c),
        decreases i,
    {
        if s[i - 1] == c {
            return i;
        }
        assert(s@.take(i as int).drop_last() == s@.take(i - 1));
        i -= 1;
    }
    0
}

fn chars_from(s: &Vec<char>, start: usize) -> (out: Vec<char>)
    requires
        start <= s.len(),
    ensures
        out@ == s@.skip(start as int),
{
    let mut out: Vec<char> = Vec::new();
    let mut i: usize = start;
    while i < s.len()
        invariant
            start <= i <= s.len(),
            out@ == s@.subrange(start as int, i as int),
        decreases s.len() - i,
    {
        out.push(s[i]);
        i += 1;
    }
    out
}

fn chars_until(s: &Vec<char>, end: usize) -> (out: Vec<char>)
    requires
        end <= s.len(),
    ensures
        out@ == s@.take(end as int),
{
    let mut out: Vec<char> = Vec::new();
    let mut i: usize = 0;
    while i < end
        invariant
            i <= end <= s.len(),
            out@ == s@.take(i as int),
        decreases end - i,
    {
        out.push(s[i]);
        i += 1;
    }
    out
}

fn stem_length(segment: &Vec<char>) -> (n: usize)
    ensures
        n == stem_len(segment@),
        n <= segment.len(),
{
    proof {
        lemma_after_last(segment@, '.');
    }
    let dot = position_after_last(segment, '.');
    if dot <= 1 {
        segment.len()
    } else {
        dot - 1
    }
}

/// The extension of the final segment of `url`.
pub fn extension(url: &str) -> (ext: String)
    ensures
        ext@ == extension_of(url@),
{
    let chars = to_chars(url);
    proof {
        lemma_after_last(chars@, '/');
    }
    let segment = chars_from(&chars, position_after_last(&chars, '/'));
    let stem = stem_length(&segment);
    if stem == segment.len() {
        String::new()
    } else {
        from_chars(&chars_from(&segment, stem + 1))
    }
}

/// `url` with the extension of its final segment taken off.
pub fn strip_extension(url: &str) -> (base: String)
    ensures
        base@ == without_extension(url@),
{
    let chars = to_chars(url);
    proof {
        lemma_after_last(chars@, '/');
    }
    let start = position_after_last(&chars, '/');
    let segment = chars_from(&chars, start);
    let stem = stem_length(&segment);
    from_chars(&chars_until(&chars, start + stem))
}

/// The name under which an image is handed out: the final segment of its
/// address, or `fallback` where that segment is empty.
pub open spec fn image_name(url: Seq<char>, fallback: Seq<char>) -> Seq<char> {
    if final_segment(url).len() == 0 {
        fallback
    } else {
        final_segment(url)
    }
}

/// The file name for the image at `url`.
pub fn get_image_name_from_url(url: &str, fallback: String) -> (name: String)
    ensures
        name@ == image_name(url@, fallback@),
{
    let chars = to_chars(url);
    proof {
        lemma_after_last(chars@, '/');
    }
    let start = position_after_last(&chars, '/');
    if start == chars.len() {
        fallback
    } else {
        from_chars(&chars_from(&chars, start))
    }
}

// ---------------------------------------------------------------------------
// The addresses that are asked
// ---------------------------------------------------------------------------

/// Where the metadata of a work is read.
pub open spec fn metadata_address(work_id: u32) -> Seq<char> {
    "https://www.pixiv.net/ajax/illust/"@ + decimal(work_id as nat)
}

/// The page of a work, which every request for one of its images names as
/// the referring page.
pub open spec fn referer_address(work_id: u32) -> Seq<char> {
    "https://www.pixiv.net/member_illust.php?mode=medium&illust_id="@ + decimal(work_id as nat)
}

/// How a file name marks the image at position `page` of a work, counted
/// from zero.
pub open spec fn page_token(work_id: u32, page: nat) -> Seq<char> {
    decimal(work_id as nat) + "_p"@ + decimal(page)
}

/// The address of the metadata document of `work_id`.
pub fn metadata_url(work_id: u32) -> (url: String)
    ensures
        url@ == metadata_address(work_id),
{
    let mut out = to_chars("https://www.pixiv.net/ajax/illust/");
    push_decimal(&mut out, work_id);
    from_chars(&out)
}

/// The value of the `Referer` header for requests of images of `work_id`.
pub fn referer(work_id: u32) -> (url: String)
    ensures
        url@ == referer_address(work_id),
{
    let mut out = to_chars("https://www.pixiv.net/member_illust.php?mode=medium&illust_id=");
    push_decimal(&mut out, work_id);
    from_chars(&out)
}

fn page_token_chars(work_id: u32, page: u16) -> (token: Vec<char>)
    ensures
        token@ == page_token(work_id, page as nat),
{
    let mut out: Vec<char> = Vec::new();
    push_decimal(&mut out, work_id);
    let marker = to_chars("_p");
    extend_chars(&mut out, &marker);
    push_decimal(&mut out, page as u32);
    out
}

/// The token for image `page` of `work_id`, as a string.
pub fn page_name(work_id: u32, page: u16) -> (name: String)
    ensures
        name@ == page_token(work_id, page as nat),
{
    from_chars(&page_token_chars(work_id, page))
}

// ---------------------------------------------------------------------------
// Inference
// ---------------------------------------------------------------------------

/// The address of image `index` (counted from one) of a work, given the
/// address of its first image: the token of the first page gives way to the
/// token of the page asked for.
pub open spec fn indexed_address(first: Seq<char>, work_id: u32, index: u16) -> Seq<char> {
    replaced(first, page_token(work_id, 0), page_token(work_id, (index - 1) as nat))
}

/// The address of image `index` of `work_id`, from the address of the first.
pub fn indexed_url(first: &str, work_id: u32, index: u16) -> (url: String)
    requires
        index >= 1,
    ensures
        url@ == indexed_address(first@, work_id, index),
{
    let text = to_chars(first);
    let from = page_token_chars(work_id, 0);
    let to = page_token_chars(work_id, index - 1);
    from_chars(&replace_chars(&text, &from, &to))
}

/// The path of the full-size file, from the path of a thumbnail: the
/// thumbnail directories give way to the directory of the originals, and the
/// size marks leave the file name.
pub open spec fn original_path(thumbnail: Seq<char>) -> Seq<char> {
    replaced(
        replaced(
            replaced(
                replaced(thumbnail, "c/250x250_80_a2/img-master"@, "img-original"@),
                "c/250x250_80_a2/custom-thumb"@,
                "img-original"@,
            ),
            "_square1200"@,
            ""@,
        ),
        "_custom1200"@,
        ""@,
    )
}

/// The address of image `index` of a work without its extension, inferred
/// from the address of a thumbnail of the first image.
pub open spec fn candidate_base_of(thumbnail: Seq<char>, work_id: u32, index: u16) -> Seq<char> {
    without_extension(indexed_address(original_path(thumbnail), work_id, index))
}

/// Infers the address of image `index` of `work_id`, short of its extension,
/// from a thumbnail's address.
pub fn candidate_base(thumbnail: &str, work_id: u32, index: u16) -> (base: String)
    requires
        index >= 1,
    ensures
        base@ == candidate_base_of(thumbnail@, work_id, index),
{
    let step1 = replace_all(thumbnail, "c/250x250_80_a2/img-master", "img-original");
    let step2 = replace_all(step1.as_str(), "c/250x250_80_a2/custom-thumb", "img-original");
    let step3 = replace_all(step2.as_str(), "_square1200", "");
    let step4 = replace_all(step3.as_str(), "_custom1200", "");
    let moved = indexed_url(step4.as_str(), work_id, index);
    strip_extension(moved.as_str())
}

/// The formats in which the full-size file of an image may be stored.
#[derive(Clone, Copy, Debug, PartialEq, Eq, Structural)]
pub enum Extension {
    Jpg,
    Png,
    Gif,
}

impl Extension {
    /// The extension as it is written in a file name.
    pub open spec fn text(self) -> Seq<char> {
        match self {
            Extension::Jpg => "jpg"@,
            Extension::Png => "png"@,
            Extension::Gif => "gif"@,
        }
    }

    /// The extension as it is written in a file name.
    pub fn as_str(self) -> (s: &'static str)
        ensures
            s@ == self.text(),
    {
        match self {
            Extension::Jpg => "jpg",
            Extension::Png => "png",
            Extension::Gif => "gif",
        }
    }
}

/// The address that is tried for a base and one of the formats.
pub open spec fn candidate_address(base: Seq<char>, extension: Extension) -> Seq<char> {
    base + "."@ + extension.text()
}

/// The address to try for `base` in the format `extension`.
pub fn candidate_url(base: &str, extension: Extension) -> (url: String)
    ensures
        url@ == candidate_address(base@, extension),
{
    let mut out = to_chars(base);
    let dot = to_chars(".");
    extend_chars(&mut out, &dot);
    let ext = to_chars(extension.as_str());
    extend_chars(&mut out, &ext);
    from_chars(&out)
}

} // verus!
