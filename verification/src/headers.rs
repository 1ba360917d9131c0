//! HTTP header maps, as the `http` crate holds them, with the contracts that
//! the dispatch logic rests on.
//!
//! A header map is seen here as a finite map from header names, as text, to
//! the non-empty list of values stored under each name, as bytes, in the
//! order in which they were added. Names and values go in and out of a map
//! as the `http` crate's own values, so that nothing is parsed twice.

use vstd::prelude::*;

verus! {

/// The `http` crate's header value.
#[verifier::external_type_specification]
#[verifier::external_body]
pub struct ExHeaderValue(http::HeaderValue);

/// The `http` crate's header name.
#[verifier::external_type_specification]
#[verifier::external_body]
pub struct ExHeaderName(http::HeaderName);

/// The `http` crate's multimap of header names to values.
#[verifier::external_type_specification]
#[verifier::external_body]
#[verifier::reject_recursive_types(T)]
pub struct ExHeaderMap<T>(http::HeaderMap<T>);

/// A header map with the `http` crate's own value type.
pub type Headers = http::HeaderMap<http::HeaderValue>;

/// The contents of a header map: each name that is present, with its values.
pub type HeaderEntries = Map<Seq<char>, Seq<Seq<u8>>>;

/// What a header map holds: for each name that is present, as
/// `HeaderName::as_str` gives it, the bytes of its values, at least one, in
/// the order in which they were added.
pub uninterp spec fn header_entries(map: Headers) -> HeaderEntries;

/// The bytes of a header value, as `HeaderValue::as_bytes` gives them.
pub uninterp spec fn value_bytes(value: http::HeaderValue) -> Seq<u8>;

/// The text of a header name, as `HeaderName::as_str` gives it.
pub uninterp spec fn name_text(name: http::HeaderName) -> Seq<char>;

/// While a map holds no more names than this, `HeaderMap::try_insert` and
/// `HeaderMap::try_append` cannot run into the map's size limit, whatever the
/// map's capacity and hashing state. Both fail when the map would have to
/// grow its table beyond 32768 slots. A table of that size is doubled when
/// it is full, at 24576 names, and also when the map has met too many hash
/// collisions and its names fill a fifth of the table, that is from 6554
/// names on.
pub const MAX_SAFE_KEYS: usize = 6553;

/// The longest header name that the `http` crate accepts, in bytes.
pub const MAX_NAME_LEN: usize = 65535;

/// A character of a header name that `HeaderName::from_bytes` takes as it
/// is: a small letter, a digit, or one of the token punctuation marks.
pub open spec fn is_name_char(c: char) -> bool {
    ('a' <= c && c <= 'z') || ('0' <= c && c <= '9') || c == '!' || c == '#' || c == '$' || c
        == '%' || c == '&' || c == '\'' || c == '*' || c == '+' || c == '-' || c == '.' || c == '^'
        || c == '_' || c == '`' || c == '|' || c == '~'
}

/// A header name that `HeaderName::from_bytes` accepts and leaves as it is:
/// not empty, not over-long, made of lower-case token characters. A header
/// map may hold other names too, made by other means.
pub open spec fn is_header_name(name: Seq<char>) -> bool {
    1 <= name.len() <= MAX_NAME_LEN && forall|i: int|
        0 <= i < name.len() ==> is_name_char(#[trigger] name[i])
}

/// The header in which a client says what it accepts.
pub open spec fn accept_name() -> Seq<char> {
    "accept"@
}

/// The header that names the page a request came from.
pub open spec fn referer_name() -> Seq<char> {
    "referer"@
}

/// The header that carries a redirect's target.
pub open spec fn location_name() -> Seq<char> {
    "location"@
}

/// The three headers that the dispatcher reads or writes are header names.
pub proof fn lemma_fixed_names()
    ensures
        is_header_name(accept_name()),
        is_header_name(referer_name()),
        is_header_name(location_name()),
        accept_name() != referer_name(),
        accept_name() != location_name(),
        referer_name() != location_name(),
{
    reveal_strlit("accept");
    reveal_strlit("referer");
    reveal_strlit("location");
    assert("accept"@.len() == 6);
    assert("referer"@.len() == 7);
    assert("location"@.len() == 8);
}

/// A byte that may stand in a header value: anything but a control character,
/// the tab excepted.
pub open spec fn is_value_byte(b: u8) -> bool {
    (b >= 32 && b != 127) || b == 9
}

/// A header value that `HeaderValue::from_bytes` accepts. A header map may
/// hold other values too, made by other means.
pub open spec fn is_header_value(value: Seq<u8>) -> bool {
    forall|i: int| 0 <= i < value.len() ==> is_value_byte(#[trigger] value[i])
}

/// The values stored under `name`, none if the name is absent.
pub open spec fn values_of(entries: HeaderEntries, name: Seq<char>) -> Seq<Seq<u8>> {
    if entries.contains_key(name) {
        entries[name]
    } else {
        Seq::empty()
    }
}

/// `entries` with `value` added behind the values already stored under `name`.
pub open spec fn append_entry(entries: HeaderEntries, name: Seq<char>, value: Seq<u8>)
    -> HeaderEntries {
    entries.insert(name, values_of(entries, name).push(value))
}

/// One step of a drained header map: a value, and its name where the name
/// differs from that of the step before.
pub struct HeaderItem {
    pub name: Option<http::HeaderName>,
    pub value: http::HeaderValue,
}

/// The name under which the item at `index` was stored: its own, or that of
/// the nearest earlier item that carries one.
pub open spec fn item_name(items: Seq<HeaderItem>, index: int) -> Seq<char>
    decreases index,
{
    if index < 0 || index >= items.len() {
        Seq::empty()
    } else {
        match items[index].name {
            Some(name) => name_text(name),
            None => if index == 0 {
                Seq::empty()
            } else {
                item_name(items, index - 1)
            },
        }
    }
}

/// The header map that the first `count` items describe.
pub open spec fn collected_entries(items: Seq<HeaderItem>, count: int) -> HeaderEntries
    decreases count,
{
    if count <= 0 {
        Map::empty()
    } else {
        append_entry(
            collected_entries(items, count - 1),
            item_name(items, count - 1),
            value_bytes(items[count - 1].value),
        )
    }
}

/// The first item, if there is one, gives its name.
pub open spec fn items_start_named(items: Seq<HeaderItem>) -> bool {
    items.len() > 0 ==> items[0].name is Some
}

/// `entries` holds so few names that more can be added safely.
pub open spec fn within_limit(entries: HeaderEntries) -> bool {
    entries.dom().finite() && entries.dom().len() <= MAX_SAFE_KEYS
}

/// `entries` holds exactly `count` names.
pub open spec fn has_key_count(entries: HeaderEntries, count: nat) -> bool {
    entries.dom().finite() && entries.dom().len() == count
}

/// `HeaderMap::new`: a map that holds nothing.
#[verifier::external_body]
pub(crate) fn new_header_map() -> (fresh: Headers)
    ensures
        header_entries(fresh) == HeaderEntries::empty(),
{
    http::HeaderMap::new()
}

/// `HeaderMap::keys_len`: the number of names in the map.
#[verifier::external_body]
pub(crate) fn header_keys_len(map: &Headers) -> (count: usize)
    ensures
        has_key_count(header_entries(*map), count as nat),
{
    map.keys_len()
}

/// `HeaderMap::get`, with the value copied by `HeaderValue::clone`: the
/// first value stored under `name`, if the name is present. The name is
/// given in lower case, as the map stores names.
#[verifier::external_body]
pub(crate) fn header_first(map: &Headers, name: &str) -> (first: Option<http::HeaderValue>)
    requires
        is_header_name(name@),
    ensures
        first is Some <==> header_entries(*map).contains_key(name@),
        first matches Some(value) ==> header_entries(*map)[name@].len() > 0 && value_bytes(value)
            == header_entries(*map)[name@][0],
{
    map.get(name).cloned()
}

/// `HeaderValue::as_bytes`, copied: the bytes of the value.
#[verifier::external_body]
pub(crate) fn header_value_bytes(value: &http::HeaderValue) -> (bytes: Vec<u8>)
    ensures
        bytes@ == value_bytes(*value),
{
    value.as_bytes().to_vec()
}

/// `HeaderValue::clone`: a value with the same bytes.
#[verifier::external_body]
pub(crate) fn copy_value(value: &http::HeaderValue) -> (copy: http::HeaderValue)
    ensures
        value_bytes(copy) == value_bytes(*value),
{
    value.clone()
}

/// `HeaderName::clone`: a name with the same text.
#[verifier::external_body]
pub(crate) fn copy_name(name: &http::HeaderName) -> (copy: http::HeaderName)
    ensures
        name_text(copy) == name_text(*name),
{
    name.clone()
}

/// `HeaderName::from_bytes` on a name that it accepts and leaves as it is:
/// the name with that text.
#[verifier::external_body]
pub(crate) fn make_header_name(text: &str) -> (name: http::HeaderName)
    requires
        is_header_name(text@),
    ensures
        name_text(name) == text@,
{
    http::HeaderName::from_bytes(text.as_bytes()).unwrap()
}

/// `HeaderValue::from_bytes` on bytes that it accepts: the value with those
/// bytes.
#[verifier::external_body]
pub(crate) fn make_header_value(bytes: &[u8]) -> (value: http::HeaderValue)
    requires
        is_header_value(bytes@),
    ensures
        value_bytes(value) == bytes@,
{
    http::HeaderValue::from_bytes(bytes).unwrap()
}

/// `HeaderMap::try_insert`: where the map takes the pair, `value` is
/// afterwards the only value under the name, and every other name is as
/// before; where it refuses, for its size, nothing is changed. A map of at
/// most `MAX_SAFE_KEYS` names does not refuse.
#[verifier::external_body]
pub(crate) fn header_try_insert(
    map: &mut Headers,
    name: http::HeaderName,
    value: http::HeaderValue,
) -> (taken: bool)
    ensures
        taken ==> header_entries(*final(map)) == header_entries(*old(map)).insert(
            name_text(name),
            seq![value_bytes(value)],
        ),
        !taken ==> header_entries(*final(map)) == header_entries(*old(map)),
        header_entries(*old(map)).dom().len() <= MAX_SAFE_KEYS ==> taken,
{
    map.try_insert(name, value).is_ok()
}

/// `HeaderMap::try_append`: where the map takes the pair, `value` stands
/// afterwards behind the values that the name had, and every other name is
/// as before; where it refuses, for its size, nothing is changed. A map of
/// at most `MAX_SAFE_KEYS` names does not refuse.
#[verifier::external_body]
pub(crate) fn header_try_append(
    map: &mut Headers,
    name: http::HeaderName,
    value: http::HeaderValue,
) -> (taken: bool)
    ensures
        taken ==> header_entries(*final(map)) == append_entry(
            header_entries(*old(map)),
            name_text(name),
            value_bytes(value),
        ),
        !taken ==> header_entries(*final(map)) == header_entries(*old(map)),
        header_entries(*old(map)).dom().len() <= MAX_SAFE_KEYS ==> taken,
{
    map.try_append(name, value).is_ok()
}

/// `HeaderMap::drain`, run to its end: the map is left empty, and the items
/// that come out, names and values as they were stored, describe what it
/// held. Each name comes out once, with its first value; its further values
/// follow without a name. The order of the names is the map's own.
#[verifier::external_body]
pub(crate) fn header_drain(map: &mut Headers) -> (items: Vec<HeaderItem>)
    ensures
        header_entries(*final(map)) == HeaderEntries::empty(),
        collected_entries(items@, items@.len() as int) == header_entries(*old(map)),
        items_start_named(items@),
{
    map.drain().map(|(name, value)| HeaderItem { name, value }).collect()
}

/// Tests whether `HeaderValue::from_bytes` accepts `value`.
pub fn check_header_value(value: &[u8]) -> (valid: bool)
    ensures
        valid == is_header_value(value@),
{
    let mut i: usize = 0;
    while i < value.len()
        invariant
            i <= value.len(),
            forall|k: int| 0 <= k < i ==> is_value_byte(#[trigger] value@[k]),
        decreases value.len() - i,
    {
        let b: u8 = value[i];
        if !((b >= 32 && b != 127) || b == 9) {
            return false;
        }
        i += 1;
    }
    true
}

/// Tests whether `name` is a header name in lower case that
/// `HeaderName::from_bytes` accepts.
pub fn check_header_name(name: &str) -> (valid: bool)
    ensures
        valid == is_header_name(name@),
{
    if !name.is_ascii() {
        proof {
            if is_header_name(name@) {
                assert forall|i: int| 0 <= i < name@.len() implies '\0' <= #[trigger] name@[i]
                    <= '\u{7f}' by {
                    assert(is_name_char(name@[i]));
                }
            }
        }
        return false;
    }
    let bytes = name.as_bytes();
    proof {
        vstd::string::is_ascii_spec_bytes(name);
    }
    if bytes.len() == 0 || bytes.len() > MAX_NAME_LEN {
        return false;
    }
    let mut i: usize = 0;
    while i < bytes.len()
        invariant
            i <= bytes.len(),
            bytes@.len() == name@.len(),
            forall|k: int| 0 <= k < bytes@.len() ==> bytes@[k] == name@[k] as u8,
            forall|k: int| 0 <= k < name@.len() ==> '\0' <= #[trigger] name@[k] <= '\u{7f}',
            forall|k: int| 0 <= k < i ==> is_name_char(#[trigger] name@[k]),
        decreases bytes.len() - i,
    {
        let b: u8 = bytes[i];
        let ok = (97 <= b && b <= 122) || (48 <= b && b <= 57) || b == 33 || b == 35 || b == 36
            || b == 37 || b == 38 || b == 39 || b == 42 || b == 43 || b == 45 || b == 46 || b
            == 94 || b == 95 || b == 96 || b == 124 || b == 126;
        proof {
            let c = name@[i as int];
            assert('\0' <= c <= '\u{7f}');
            assert(b == c as u8);
            assert(ok == is_name_char(c));
        }
        if !ok {
            return false;
        }
        i += 1;
    }
    true
}

/// The map that holds, under each name of `base` or `extra`, the values of
/// `base` followed by those of `extra`.
pub open spec fn merge_entries(base: HeaderEntries, extra: HeaderEntries) -> HeaderEntries {
    Map::new(
        |name: Seq<char>| base.contains_key(name) || extra.contains_key(name),
        |name: Seq<char>| values_of(base, name) + values_of(extra, name),
    )
}

/// Appending one value after a merge is merging with the value appended.
pub proof fn lemma_append_after_merge(
    base: HeaderEntries,
    extra: HeaderEntries,
    name: Seq<char>,
    value: Seq<u8>,
)
    ensures
        append_entry(merge_entries(base, extra), name, value) == merge_entries(
            base,
            append_entry(extra, name, value),
        ),
{
    let left = append_entry(merge_entries(base, extra), name, value);
    let right = merge_entries(base, append_entry(extra, name, value));
    assert forall|key: Seq<char>| left.contains_key(key) == right.contains_key(key) by {}
    assert forall|key: Seq<char>| left.contains_key(key) implies left[key] == right[key] by {
        if key == name {
            assert(left[key] =~= right[key]);
        }
    }
    assert(left =~= right);
}

/// Merging with nothing changes nothing.
pub proof fn lemma_merge_empty(base: HeaderEntries)
    ensures
        merge_entries(base, HeaderEntries::empty()) == base,
{
    let merged = merge_entries(base, HeaderEntries::empty());
    assert forall|key: Seq<char>| merged.contains_key(key) implies merged[key] == base[key] by {
        assert(merged[key] =~= base[key]);
    }
    assert(merged =~= base);
}

/// The items of a drained map describe finitely many names, and the first
/// `count` of them no names but those of the whole.
pub proof fn lemma_collected_names(items: Seq<HeaderItem>, count: int, all: int)
    requires
        0 <= count <= all,
    ensures
        collected_entries(items, count).dom().finite(),
        collected_entries(items, count).dom().subset_of(collected_entries(items, all).dom()),
    decreases all,
{
    if count > 0 {
        lemma_collected_names(items, count - 1, count - 1);
    }
    if count < all {
        lemma_collected_names(items, count, all - 1);
    }
}

/// Moves every header of `extra` into `target`: each value is added, as it
/// is, behind the values that `target` already holds under the same name, and
/// `extra` is left empty. Nothing that `target` held is replaced or removed.
///
/// The answer is `false` where `target` refused a header for its size; it
/// does not refuse while the merged map is within the limit. After a refusal
/// `target` holds its own headers and some of those of `extra`.
pub fn merge_headers(target: &mut Headers, extra: &mut Headers) -> (merged: bool)
    ensures
        header_entries(*final(extra)) == HeaderEntries::empty(),
        merged ==> header_entries(*final(target)) == merge_entries(
            header_entries(*old(target)),
            header_entries(*old(extra)),
        ),
        within_limit(merge_entries(header_entries(*old(target)), header_entries(*old(extra))))
            ==> merged,
{
    let ghost base = header_entries(*target);
    let ghost added = header_entries(*extra);
    let ghost whole = merge_entries(base, added);
    let items = header_drain(extra);
    proof {
        lemma_merge_empty(base);
    }
    if items.len() == 0 {
        return true;
    }
    let mut current = match &items[0].name {
        Some(name) => copy_name(name),
        None => vstd::pervasive::unreached(),
    };
    let mut i: usize = 0;
    while i < items.len()
        invariant
            i <= items.len(),
            items@.len() > 0,
            items@[0].name is Some,
            collected_entries(items@, items@.len() as int) == added,
            base == header_entries(*old(target)),
            added == header_entries(*old(extra)),
            whole == merge_entries(base, added),
            header_entries(*extra) == HeaderEntries::empty(),
            header_entries(*target) == merge_entries(base, collected_entries(items@, i as int)),
            name_text(current) == item_name(items@, if i == 0 { 0 } else { i - 1 }),
        decreases items.len() - i,
    {
        let item = &items[i];
        match &item.name {
            Some(name) => {
                current = copy_name(name);
            },
            None => {},
        }
        proof {
            let now = merge_entries(base, collected_entries(items@, i as int));
            if within_limit(whole) {
                lemma_collected_names(items@, i as int, items@.len() as int);
                assert(now.dom().subset_of(whole.dom()));
                vstd::set_lib::lemma_len_subset(now.dom(), whole.dom());
            }
            lemma_append_after_merge(
                base,
                collected_entries(items@, i as int),
                item_name(items@, i as int),
                value_bytes(item.value),
            );
        }
        if !header_try_append(target, copy_name(&current), copy_value(&item.value)) {
            return false;
        }
        i += 1;
    }
    true
}

} // verus!
