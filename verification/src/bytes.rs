//! Byte-level text tests used to classify header values.

use vstd::prelude::*;

verus! {

/// A byte that may stand in a header value read as text: printable ASCII or
/// a horizontal tab.
pub open spec fn is_visible_byte(b: u8) -> bool {
    (32 <= b && b < 127) || b == 9
}

/// Every byte of `text` is printable ASCII or a tab.
pub open spec fn is_visible_ascii(text: Seq<u8>) -> bool {
    forall|i: int| 0 <= i < text.len() ==> is_visible_byte(#[trigger] text[i])
}

/// `needle` stands in `hay` at offset `at`.
pub open spec fn occurs_at(hay: Seq<u8>, needle: Seq<u8>, at: int) -> bool {
    0 <= at && at + needle.len() <= hay.len() && hay.subrange(at, at + needle.len()) == needle
}

/// `needle` stands somewhere in `hay`.
pub open spec fn contains_bytes(hay: Seq<u8>, needle: Seq<u8>) -> bool {
    exists|at: int| occurs_at(hay, needle, at)
}

/// The lower-case form of one ASCII byte; other bytes stay as they are.
pub open spec fn lower_byte(b: u8) -> u8 {
    if 65 <= b && b <= 90 {
        (b + 32) as u8
    } else {
        b
    }
}

/// `text` with every ASCII capital replaced by its small letter.
pub open spec fn ascii_lowercase(text: Seq<u8>) -> Seq<u8> {
    Seq::new(text.len(), |i: int| lower_byte(text[i]))
}

/// The media type that marks a request as coming from a browser: the bytes
/// of `text/html`.
pub open spec fn html_media_type() -> Seq<u8> {
    seq![116u8, 101u8, 120u8, 116u8, 47u8, 104u8, 116u8, 109u8, 108u8]
}

/// Tests whether every byte of `text` is printable ASCII or a tab.
pub fn check_visible_ascii(text: &[u8]) -> (visible: bool)
    ensures
        visible == is_visible_ascii(text@),
{
    let mut i: usize = 0;
    while i < text.len()
        invariant
            i <= text.len(),
            forall|k: int| 0 <= k < i ==> is_visible_byte(#[trigger] text@[k]),
        decreases text.len() - i,
    {
        let b: u8 = text[i];
        if !((32 <= b && b < 127) || b == 9) {
            return false;
        }
        i += 1;
    }
    true
}

/// Tests whether `needle` stands in `hay` at offset `at`.
fn matches_at(hay: &[u8], needle: &[u8], at: usize) -> (found: bool)
    requires
        at + needle@.len() <= hay@.len(),
    ensures
        found == occurs_at(hay@, needle@, at as int),
{
    let total: usize = hay.len();
    let mut j: usize = 0;
    while j < needle.len()
        invariant
            j <= needle.len(),
            at + needle@.len() <= hay@.len() == total,
            forall|k: int| 0 <= k < j ==> hay@[at + k] == needle@[k],
        decreases needle.len() - j,
    {
        if hay[at + j] != needle[j] {
            assert(hay@.subrange(at as int, at + needle@.len())[j as int] == hay@[at + j]);
            return false;
        }
        j += 1;
    }
    assert(hay@.subrange(at as int, at + needle@.len()) =~= needle@);
    true
}

/// Searches `hay` for `needle`.
pub fn find_bytes(hay: &[u8], needle: &[u8]) -> (found: bool)
    ensures
        found == contains_bytes(hay@, needle@),
{
    if needle.len() > hay.len() {
        return false;
    }
    let last: usize = hay.len() - needle.len();
    let mut at: usize = 0;
    loop
        invariant
            last == hay@.len() - needle@.len(),
            at <= last,
            forall|k: int| 0 <= k < at ==> !occurs_at(hay@, needle@, k),
        decreases last - at,
    {
        if matches_at(hay, needle, at) {
            return true;
        }
        if at == last {
            return false;
        }
        at += 1;
    }
}

/// Copies `text`, turning ASCII capitals into small letters.
pub fn to_ascii_lowercase(text: &[u8]) -> (lowered: Vec<u8>)
    ensures
        lowered@ == ascii_lowercase(text@),
{
    let mut lowered: Vec<u8> = Vec::new();
    let mut i: usize = 0;
    while i < text.len()
        invariant
            i <= text.len(),
            lowered@.len() == i,
            forall|k: int| 0 <= k < i ==> lowered@[k] == lower_byte(#[trigger] text@[k]),
        decreases text.len() - i,
    {
        let b: u8 = text[i];
        if 65 <= b && b <= 90 {
            lowered.push(b + 32);
        } else {
            lowered.push(b);
        }
        i += 1;
    }
    assert(lowered@ =~= ascii_lowercase(text@));
    lowered
}

/// The bytes of `text/html`.
pub fn html_media_type_bytes() -> (bytes: Vec<u8>)
    ensures
        bytes@ == html_media_type(),
{
    let mut bytes: Vec<u8> = Vec::new();
    bytes.push(116);
    bytes.push(101);
    bytes.push(120);
    bytes.push(116);
    bytes.push(47);
    bytes.push(104);
    bytes.push(116);
    bytes.push(109);
    bytes.push(108);
    assert(bytes@ =~= html_media_type());
    bytes
}

} // verus!
