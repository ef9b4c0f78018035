//! Header names, values and maps: what the crate relies on of `http::header`.

use http::{HeaderMap, HeaderName, HeaderValue};
use vstd::prelude::*;
use vstd::utf8::*;

verus! {

/// `http::HeaderName`, a header name in lower case.
#[verifier::external_type_specification]
#[verifier::external_body]
pub struct ExHeaderName(http::HeaderName);

/// `http::HeaderValue`, the bytes of one header value.
#[verifier::external_type_specification]
#[verifier::external_body]
pub struct ExHeaderValue(http::HeaderValue);

/// `http::HeaderMap`, the headers of a request or a response.
#[verifier::external_type_specification]
#[verifier::external_body]
#[verifier::reject_recursive_types(T)]
pub struct ExHeaderMap<T>(http::HeaderMap<T>);

/// The text of a header name, as `HeaderName::as_str` gives it.
pub uninterp spec fn header_name_text(name: HeaderName) -> Seq<char>;

/// The bytes of a header value, as `HeaderValue::as_bytes` gives them.
pub uninterp spec fn header_value_bytes(value: HeaderValue) -> Seq<u8>;

/// What a header map holds: under each name, its values in order.
pub uninterp spec fn header_entries(map: HeaderMap) -> Map<Seq<char>, Seq<Seq<u8>>>;

/// A map with at most this many names has room for one more, however the names
/// hash. Beyond it, `HeaderMap` may run into its own limit or not.
pub const MAX_HEADER_NAMES: usize = 6553;

/// There is room for one more header name, however the names hash.
pub open spec fn has_room(entries: Map<Seq<char>, Seq<Seq<u8>>>) -> bool {
    entries.dom().finite() && entries.dom().len() <= MAX_HEADER_NAMES
}

/// There are exactly `n` header names.
pub open spec fn has_names(entries: Map<Seq<char>, Seq<Seq<u8>>>, n: nat) -> bool {
    entries.dom().finite() && entries.dom().len() == n
}

/// No header at all.
pub open spec fn no_headers() -> Map<Seq<char>, Seq<Seq<u8>>> {
    Map::empty()
}

/// The characters that a token, such as a header name or a method, is made of.
pub open spec fn is_token_char(c: char) -> bool {
    ||| '0' <= c <= '9'
    ||| 'a' <= c <= 'z'
    ||| 'A' <= c <= 'Z'
    ||| c == '!' || c == '#' || c == '$' || c == '%' || c == '&' || c == '\'' || c == '*'
    ||| c == '+' || c == '-' || c == '.' || c == '^' || c == '_' || c == '`' || c == '|'
    ||| c == '~'
}

/// A token: at least one token character, and nothing else.
pub open spec fn is_token(text: Seq<char>) -> bool {
    text.len() > 0 && forall|i: int| 0 <= i < text.len() ==> is_token_char(#[trigger] text[i])
}

/// The text can name a header: a token of at most 65535 characters.
pub open spec fn valid_header_name(text: Seq<char>) -> bool {
    is_token(text) && text.len() <= 65535
}

pub open spec fn lower_char(c: char) -> char {
    if 'A' <= c <= 'Z' {
        (c as u32 + 32) as char
    } else {
        c
    }
}

/// The text with its ASCII capitals in lower case.
pub open spec fn lower(text: Seq<char>) -> Seq<char> {
    text.map_values(|c: char| lower_char(c))
}

/// A header value may hold this byte.
pub open spec fn valid_value_byte(b: u8) -> bool {
    b >= 32 && b != 127 || b == 9
}

/// The bytes can be a header value.
pub open spec fn valid_header_value(bytes: Seq<u8>) -> bool {
    forall|i: int| 0 <= i < bytes.len() ==> valid_value_byte(#[trigger] bytes[i])
}

/// The byte is a printable ASCII character or a tab.
pub open spec fn visible_byte(b: u8) -> bool {
    32 <= b < 127 || b == 9
}

pub open spec fn all_visible(bytes: Seq<u8>) -> bool {
    forall|i: int| 0 <= i < bytes.len() ==> visible_byte(#[trigger] bytes[i])
}

/// Bytes read as ASCII text.
pub open spec fn ascii_text(bytes: Seq<u8>) -> Seq<char> {
    bytes.map_values(|b: u8| b as char)
}

/// The headers with one more value for `name`, given by its bytes.
pub open spec fn with_value(
    entries: Map<Seq<char>, Seq<Seq<u8>>>,
    name: Seq<char>,
    value: Seq<u8>,
) -> Map<Seq<char>, Seq<Seq<u8>>> {
    if entries.dom().contains(name) {
        entries.insert(name, entries[name].push(value))
    } else {
        entries.insert(name, seq![value])
    }
}

/// The name that the last of these headers goes by: its own, or that of the one
/// before.
pub open spec fn last_name(items: Seq<(Option<HeaderName>, HeaderValue)>) -> Seq<char>
    decreases items.len(),
{
    if items.len() == 0 {
        Seq::empty()
    } else {
        match items.last().0 {
            Some(name) => header_name_text(name),
            None => last_name(items.drop_last()),
        }
    }
}

/// The headers with `items` set: a named one replaces those of its name, and one
/// without a name is added to the one before.
pub open spec fn added(
    entries: Map<Seq<char>, Seq<Seq<u8>>>,
    items: Seq<(Option<HeaderName>, HeaderValue)>,
) -> Map<Seq<char>, Seq<Seq<u8>>>
    decreases items.len(),
{
    if items.len() == 0 {
        entries
    } else {
        let before = added(entries, items.drop_last());
        let value = header_value_bytes(items.last().1);
        match items.last().0 {
            Some(name) => before.insert(header_name_text(name), seq![value]),
            None => with_value(before, last_name(items.drop_last()), value),
        }
    }
}

/// The headers with `name` set to the single value `value`.
pub open spec fn with_header(
    entries: Map<Seq<char>, Seq<Seq<u8>>>,
    name: Seq<char>,
    value: Seq<char>,
) -> Map<Seq<char>, Seq<Seq<u8>>> {
    entries.insert(lower(name), seq![encode_utf8(value)])
}

/// A header of this name and value can be sent.
pub open spec fn well_formed_header(name: Seq<char>, value: Seq<char>) -> bool {
    valid_header_name(name) && valid_header_value(encode_utf8(value))
}

/// The value of header `name` as text: that of its first value, where the name
/// is valid and present and the value is printable.
pub open spec fn header_text(
    entries: Map<Seq<char>, Seq<Seq<u8>>>,
    name: Seq<char>,
) -> Option<Seq<char>> {
    if valid_header_name(name) && entries.dom().contains(lower(name)) && all_visible(
        entries[lower(name)][0],
    ) {
        Some(ascii_text(entries[lower(name)][0]))
    } else {
        None
    }
}

/// `HeaderName::from_bytes` on the bytes of `text`: accepts exactly the valid
/// header names, and puts them in lower case.
#[verifier::external_body]
pub(crate) fn header_name(text: &str) -> (r: Option<HeaderName>)
    ensures
        match r {
            Some(name) => valid_header_name(text@) && header_name_text(name) == lower(text@),
            None => !valid_header_name(text@),
        },
{
    HeaderName::from_bytes(text.as_bytes()).ok()
}

/// `HeaderValue::from_str`: accepts a text exactly when all its bytes may stand
/// in a header value, and keeps them as they are.
#[verifier::external_body]
pub(crate) fn header_value(text: &str) -> (r: Option<HeaderValue>)
    ensures
        match r {
            Some(value) => {
                &&& valid_header_value(encode_utf8(text@))
                &&& header_value_bytes(value) == encode_utf8(text@)
            },
            None => !valid_header_value(encode_utf8(text@)),
        },
{
    HeaderValue::from_str(text).ok()
}

/// `HeaderValue::to_str`: the value as text, if it is printable ASCII.
#[verifier::external_body]
pub(crate) fn header_value_str(value: &HeaderValue) -> (r: Option<&str>)
    ensures
        match r {
            Some(text) => {
                &&& all_visible(header_value_bytes(*value))
                &&& text@ == ascii_text(header_value_bytes(*value))
            },
            None => !all_visible(header_value_bytes(*value)),
        },
{
    value.to_str().ok()
}

/// `HeaderMap::new`: an empty map.
pub assume_specification[ HeaderMap::<HeaderValue>::new ]() -> (map: HeaderMap)
    ensures
        header_entries(map) == no_headers(),
;

/// `HeaderName::clone`: the same name.
pub assume_specification[ <HeaderName as Clone>::clone ](name: &HeaderName) -> (r: HeaderName)
    ensures
        r == *name,
;

/// `HeaderMap::try_insert`: `value` becomes the only value of `name`, and the
/// other headers stay. Where the map cannot grow, all of it stays as it is; up to
/// `MAX_HEADER_NAMES` names it always can.
#[verifier::external_body]
pub(crate) fn insert_header(map: &mut HeaderMap, name: HeaderName, value: HeaderValue) -> (done:
    bool)
    ensures
        header_entries(*final(map)) == (if done {
            header_entries(*old(map)).insert(
                header_name_text(name),
                seq![header_value_bytes(value)],
            )
        } else {
            header_entries(*old(map))
        }),
        !done ==> !has_room(header_entries(*old(map))),
{
    map.try_insert(name, value).is_ok()
}

/// `HeaderMap::try_append`: `value` becomes the last value of `name`, and the
/// other headers stay. Where the map cannot grow, all of it stays as it is; up to
/// `MAX_HEADER_NAMES` names it always can.
#[verifier::external_body]
pub(crate) fn append_header(map: &mut HeaderMap, name: HeaderName, value: HeaderValue) -> (done:
    bool)
    ensures
        header_entries(*final(map)) == (if done {
            with_value(
                header_entries(*old(map)),
                header_name_text(name),
                header_value_bytes(value),
            )
        } else {
            header_entries(*old(map))
        }),
        !done ==> !has_room(header_entries(*old(map))),
{
    map.try_append(name, value).is_ok()
}

/// `HeaderMap::into_iter`: all headers one by one. A value without a name is one
/// more of the name before it, and the first value has a name.
#[verifier::external_body]
pub(crate) fn header_items(map: HeaderMap) -> (items: Vec<(Option<HeaderName>, HeaderValue)>)
    ensures
        header_entries(map) == added(no_headers(), items@),
        items@.len() > 0 ==> items@[0].0 is Some,
{
    map.into_iter().collect()
}

/// `HeaderMap::extend` with another map: each name of `other` gets the values
/// that it has there, and the other headers stay. It panics where the map cannot
/// grow, which it always can up to `MAX_HEADER_NAMES` names.
#[verifier::external_body]
pub(crate) fn extend_headers(map: &mut HeaderMap, other: HeaderMap)
    requires
        has_room(header_entries(*old(map)).union_prefer_right(header_entries(other))),
    ensures
        header_entries(*final(map)) == header_entries(*old(map)).union_prefer_right(
            header_entries(other),
        ),
{
    map.extend(other);
}

/// `HeaderMap::get`: the first value of the header, whatever the case of `name`.
/// There is none where `name` can name no header, and every header present has
/// at least one value.
#[verifier::external_body]
pub(crate) fn first_value<'a>(map: &'a HeaderMap, name: &str) -> (r: Option<&'a HeaderValue>)
    ensures
        match r {
            Some(value) => {
                &&& valid_header_name(name@)
                &&& header_entries(*map).dom().contains(lower(name@))
                &&& header_entries(*map)[lower(name@)].len() > 0
                &&& header_value_bytes(*value) == header_entries(*map)[lower(name@)][0]
            },
            None => !(valid_header_name(name@) && header_entries(*map).dom().contains(
                lower(name@),
            )),
        },
{
    map.get(name)
}

/// `HeaderMap::keys_len`: the number of distinct names.
#[verifier::external_body]
pub(crate) fn name_count(map: &HeaderMap) -> (n: usize)
    ensures
        has_names(header_entries(*map), n as nat),
{
    map.keys_len()
}

/// `HeaderMap::clone`: a map that holds the same.
#[verifier::external_body]
pub(crate) fn clone_headers(map: &HeaderMap) -> (r: HeaderMap)
    ensures
        header_entries(r) == header_entries(*map),
{
    map.clone()
}

/// The value of a header as text.
pub fn header_str<'a>(map: &'a HeaderMap, name: &str) -> (r: Option<&'a str>)
    ensures
        match r {
            Some(text) => header_text(header_entries(*map), name@) == Some(text@),
            None => header_text(header_entries(*map), name@) is None,
        },
{
    match first_value(map, name) {
        Some(value) => header_value_str(value),
        None => None,
    }
}

/// What came of setting a header.
#[derive(Debug, Clone, Copy, PartialEq, Eq, Structural)]
pub enum Setting {
    /// It is set.
    Done,
    /// Its name or value cannot be sent.
    Malformed,
    /// The map has no room for it.
    Full,
}

/// Sets a header if its name and value are well-formed and the map takes it.
pub fn set_header(map: &mut HeaderMap, name: &str, value: &str) -> (r: Setting)
    ensures
        r is Malformed <==> !well_formed_header(name@, value@),
        r is Full ==> !has_room(header_entries(*old(map))),
        header_entries(*final(map)) == (if r is Done {
            with_header(header_entries(*old(map)), name@, value@)
        } else {
            header_entries(*old(map))
        }),
{
    match (header_name(name), header_value(value)) {
        (Some(parsed_name), Some(parsed_value)) => {
            if insert_header(map, parsed_name, parsed_value) {
                Setting::Done
            } else {
                Setting::Full
            }
        },
        _ => Setting::Malformed,
    }
}

/// Puts the headers of `other` in place of those of the same name, if the map
/// takes them all; else the map stays as it is.
pub fn merge_headers(map: &mut HeaderMap, other: HeaderMap) -> (done: bool)
    ensures
        !done ==> !has_room(
            header_entries(*old(map)).union_prefer_right(header_entries(other)),
        ),
        header_entries(*final(map)) == (if done {
            header_entries(*old(map)).union_prefer_right(header_entries(other))
        } else {
            header_entries(*old(map))
        }),
{
    let own = name_count(map);
    let more = name_count(&other);
    let ghost start = header_entries(*map);
    let ghost merged = start.union_prefer_right(header_entries(other));
    proof {
        lemma_union_size(start, header_entries(other));
    }
    if own == 0 {
        proof {
            start.dom().lemma_len0_is_empty();
            assert(merged =~= header_entries(other));
        }
        *map = other;
        return true;
    }
    if own <= MAX_HEADER_NAMES && more <= MAX_HEADER_NAMES - own {
        extend_headers(map, other);
        return true;
    }
    // The map may have no room for them all, so they are tried one by one
    let mut trial = clone_headers(map);
    let items = header_items(other);
    let ghost all = items@;
    let mut name: Option<HeaderName> = None;
    proof {
        lemma_added_is_merged(start, all);
        assert(all.take(0) =~= Seq::<(Option<HeaderName>, HeaderValue)>::empty());
    }
    for item in it: items
        invariant
            it.seq() == all,
            all.len() > 0 ==> all[0].0 is Some,
            merged == added(start, all),
            merged.dom().finite(),
            header_entries(trial) == added(start, all.take(it.index() as int)),
            it.index() > 0 ==> name is Some && header_name_text(name->0) == last_name(
                all.take(it.index() as int),
            ),
            header_entries(*map) == start,
            start == header_entries(*old(map)),
            merged == start.union_prefer_right(header_entries(other)),
    {
        proof {
            lemma_added_grows(start, all, it.index() as int);
            assert(all.take(it.index() + 1).drop_last() =~= all.take(it.index() as int));
            assert(all.take(it.index() + 1).last() == item);
        }
        let done = match item.0 {
            Some(own_name) => {
                name = Some(own_name.clone());
                insert_header(&mut trial, own_name, item.1)
            },
            None => match &name {
                Some(last) => append_header(&mut trial, last.clone(), item.1),
                None => false,
            },
        };
        if !done {
            return false;
        }
    }
    assert(all.take(all.len() as int) =~= all);
    *map = trial;
    true
}

/// Adding headers one by one amounts to merging them.
proof fn lemma_added_is_merged(
    entries: Map<Seq<char>, Seq<Seq<u8>>>,
    items: Seq<(Option<HeaderName>, HeaderValue)>,
)
    requires
        items.len() > 0 ==> items[0].0 is Some,
    ensures
        added(entries, items) == entries.union_prefer_right(added(no_headers(), items)),
        items.len() > 0 ==> added(no_headers(), items).dom().contains(last_name(items)),
    decreases items.len(),
{
    if items.len() == 0 {
        assert(added(entries, items) =~= entries.union_prefer_right(added(no_headers(), items)));
    } else {
        let before = items.drop_last();
        lemma_added_is_merged(entries, before);
        assert(added(entries, items) =~= entries.union_prefer_right(added(no_headers(), items)));
    }
}

/// No name is lost while headers are added.
proof fn lemma_added_grows(
    entries: Map<Seq<char>, Seq<Seq<u8>>>,
    items: Seq<(Option<HeaderName>, HeaderValue)>,
    i: int,
)
    requires
        0 <= i <= items.len(),
        added(entries, items).dom().finite(),
    ensures
        added(entries, items.take(i)).dom().subset_of(added(entries, items).dom()),
        added(entries, items.take(i)).dom().finite(),
        added(entries, items.take(i)).dom().len() <= added(entries, items).dom().len(),
    decreases items.len() - i,
{
    if i == items.len() {
        assert(items.take(i) =~= items);
    } else {
        lemma_added_grows(entries, items, i + 1);
        assert(items.take(i + 1).drop_last() =~= items.take(i));
        vstd::set_lib::lemma_set_subset_finite(
            added(entries, items).dom(),
            added(entries, items.take(i)).dom(),
        );
        vstd::set_lib::lemma_len_subset(
            added(entries, items.take(i)).dom(),
            added(entries, items).dom(),
        );
    }
}

/// Merged headers have at most as many names as both together.
pub proof fn lemma_union_size(
    a: Map<Seq<char>, Seq<Seq<u8>>>,
    b: Map<Seq<char>, Seq<Seq<u8>>>,
)
    requires
        a.dom().finite(),
        b.dom().finite(),
    ensures
        a.union_prefer_right(b).dom().finite(),
        a.union_prefer_right(b).dom().len() <= a.dom().len() + b.dom().len(),
{
    vstd::set_lib::lemma_len_union(a.dom(), b.dom());
    assert(a.union_prefer_right(b).dom() =~= a.dom().union(b.dom()));
}

/// Text of printable ASCII characters can be a header value.
pub proof fn lemma_printable_text_is_a_value(text: Seq<char>)
    requires
        forall|i: int| 0 <= i < text.len() ==> ' ' <= #[trigger] text[i] <= '~',
    ensures
        valid_header_value(encode_utf8(text)),
{
    assert(is_ascii_chars(text));
    is_ascii_chars_encode_utf8(text);
    assert forall|i: int| 0 <= i < encode_utf8(text).len() implies valid_value_byte(
        #[trigger] encode_utf8(text)[i],
    ) by {
        assert(encode_utf8(text)[i] == text[i] as u8);
    }
}

} // verus!
