//! The headers as they go on the wire: a `HeaderMap` filled from the parsed
//! header text. The map, its names and its values belong to the HTTP crate;
//! what is said of them here is taken from that crate and is not proved.

use crate::headers::{parse_header_lines, parsed_headers, pairs_view, HeaderPair};
use reqwest::header::{
    HeaderMap, HeaderName, HeaderValue, InvalidHeaderName, InvalidHeaderValue, MaxSizeReached,
};
use std::str::FromStr;
use vstd::prelude::*;
use vstd::utf8::encode_utf8;

verus! {

/// The header map of the HTTP crate, taken as it is.
#[verifier::external_type_specification]
#[verifier::external_body]
#[verifier::reject_recursive_types(T)]
pub struct ExHeaderMap<T>(HeaderMap<T>);

/// A header name of the HTTP crate, taken as it is.
#[verifier::external_type_specification]
#[verifier::external_body]
pub struct ExHeaderName(HeaderName);

/// A header value of the HTTP crate, taken as it is.
#[verifier::external_type_specification]
#[verifier::external_body]
pub struct ExHeaderValue(HeaderValue);

/// The error of `HeaderName::from_str`.
#[verifier::external_type_specification]
#[verifier::external_body]
pub struct ExInvalidHeaderName(InvalidHeaderName);

/// The error of `HeaderValue::from_str`.
#[verifier::external_type_specification]
#[verifier::external_body]
pub struct ExInvalidHeaderValue(InvalidHeaderValue);

/// The error of `HeaderMap::try_insert`.
#[verifier::external_type_specification]
#[verifier::external_body]
pub struct ExMaxSizeReached(MaxSizeReached);

/// What a header map holds: for each name in it, the bytes of the first
/// value stored under that name.
pub uninterp spec fn header_entries(map: HeaderMap<HeaderValue>) -> Map<Seq<char>, Seq<u8>>;

/// How many names a header map holds, as `HeaderMap::keys_len` gives it.
pub uninterp spec fn header_count(map: HeaderMap<HeaderValue>) -> nat;

/// The text of a header name, as `HeaderName::as_str` gives it.
pub uninterp spec fn header_name_text(name: HeaderName) -> Seq<char>;

/// The bytes of a header value, as `HeaderValue::as_bytes` gives them.
pub uninterp spec fn header_value_bytes(value: HeaderValue) -> Seq<u8>;

/// The number of names below which a header map always has room for one
/// more. The map refuses a name only where it would have to grow beyond
/// 32768 slots, and it asks for that growth at 24576 names, or, once many
/// names have fallen on the same slots, at a fifth of its slots: never with
/// fewer than 6554 names in it.
pub const ROOM_LIMIT: usize = 6554;

/// Whether `c` may stand in a header name: a letter, a digit, or one of
/// ``! # $ % & ' * + - . ^ _ ` | ~``.
pub open spec fn is_token_char(c: char) -> bool {
    ||| ('a' <= c && c <= 'z')
    ||| ('A' <= c && c <= 'Z')
    ||| ('0' <= c && c <= '9')
    ||| c == '!'
    ||| c == '#'
    ||| c == '$'
    ||| c == '%'
    ||| c == '&'
    ||| c == '\''
    ||| c == '*'
    ||| c == '+'
    ||| c == '-'
    ||| c == '.'
    ||| c == '^'
    ||| c == '_'
    ||| c == '`'
    ||| c == '|'
    ||| c == '~'
}

/// Whether `key` can be a header name: between 1 and 65535 characters, all
/// of them token characters.
pub open spec fn valid_header_name(key: Seq<char>) -> bool {
    &&& 1 <= key.len() <= 65535
    &&& forall|i: int| 0 <= i < key.len() ==> is_token_char(#[trigger] key[i])
}

/// Whether `c` may stand in a header value: a tab, or any character from
/// the space on but the delete character.
pub open spec fn is_value_char(c: char) -> bool {
    (c >= ' ' && c != '\u{7f}') || c == '\t'
}

/// Whether `value` can be a header value.
pub open spec fn valid_header_value(value: Seq<char>) -> bool {
    forall|i: int| 0 <= i < value.len() ==> is_value_char(#[trigger] value[i])
}

/// `c` in lower case, where it is a letter of `A` to `Z`.
pub open spec fn ascii_lower(c: char) -> char {
    if 'A' <= c && c <= 'Z' {
        ((c as u32) + 32) as char
    } else {
        c
    }
}

/// `key` with its letters of `A` to `Z` in lower case.
pub open spec fn lowered(key: Seq<char>) -> Seq<char> {
    key.map_values(|c: char| ascii_lower(c))
}

/// The entries with one more header put in: a header whose name or value
/// the wire does not admit changes nothing; any other stands under its name
/// in lower case, in place of what stood there.
pub open spec fn with_header(
    entries: Map<Seq<char>, Seq<u8>>,
    key: Seq<char>,
    value: Seq<char>,
) -> Map<Seq<char>, Seq<u8>> {
    if valid_header_name(key) && valid_header_value(value) {
        entries.insert(lowered(key), encode_utf8(value))
    } else {
        entries
    }
}

/// What the map holds once the parsed headers have been put into it in
/// order.
pub open spec fn wire_entries(pairs: Seq<HeaderPair>) -> Map<Seq<char>, Seq<u8>>
    decreases pairs.len(),
{
    if pairs.len() == 0 {
        Map::empty()
    } else {
        with_header(wire_entries(pairs.drop_last()), pairs.last().0, pairs.last().1)
    }
}

/// `HeaderMap::new`: a map that holds no header.
#[verifier::external_body]
fn header_map_new() -> (map: HeaderMap<HeaderValue>)
    ensures
        header_entries(map) == (Map::<Seq<char>, Seq<u8>>::empty()),
        header_count(map) == 0,
{
    HeaderMap::new()
}

/// `HeaderName::from_str`: accepts a text of 1 to 65535 token characters
/// and no other; the name it makes is that text in lower case.
#[verifier::external_body]
fn header_name_from_str(key: &str) -> (r: Result<HeaderName, InvalidHeaderName>)
    ensures
        r is Ok <==> valid_header_name(key@),
        r matches Ok(name) ==> header_name_text(name) == lowered(key@),
{
    HeaderName::from_str(key)
}

/// `HeaderValue::from_str`: accepts a text whose bytes are all 32 or more,
/// or a tab, and none of them 127; the value it makes holds those bytes.
#[verifier::external_body]
fn header_value_from_str(value: &str) -> (r: Result<HeaderValue, InvalidHeaderValue>)
    ensures
        r is Ok <==> valid_header_value(value@),
        r matches Ok(v) ==> header_value_bytes(v) == encode_utf8(value@),
{
    HeaderValue::from_str(value)
}

/// `HeaderMap::try_insert`: on success the value stands alone under the
/// name, in place of what the map held under it, and the map holds one name
/// more at most; where the map has no room it reports that and holds what
/// it held. A map with fewer names than `ROOM_LIMIT` always has room.
#[verifier::external_body]
fn header_map_try_insert(
    map: &mut HeaderMap<HeaderValue>,
    name: HeaderName,
    value: HeaderValue,
) -> (r: Result<Option<HeaderValue>, MaxSizeReached>)
    ensures
        header_count(*old(map)) < ROOM_LIMIT ==> r is Ok,
        r is Ok ==> header_entries(*final(map)) == header_entries(*old(map)).insert(
            header_name_text(name),
            header_value_bytes(value),
        ),
        r is Err ==> header_entries(*final(map)) == header_entries(*old(map)),
        header_count(*old(map)) <= header_count(*final(map)) <= header_count(*old(map)) + 1,
        r is Err ==> header_count(*final(map)) == header_count(*old(map)),
{
    map.try_insert(name, value)
}

/// The headers of a request, ready for the wire.
pub struct WireHeaders {
    /// The map to send.
    pub map: HeaderMap<HeaderValue>,
    /// How many headers the header text holds.
    pub found: usize,
    /// How many of them were gone through: all of them, unless the map had
    /// no room for one, where the count stops before it. A text of no more
    /// than `ROOM_LIMIT` headers is always gone through to its end.
    pub taken: usize,
}

impl WireHeaders {
    /// Whether every header of the text was gone through.
    pub fn is_complete(&self) -> (b: bool)
        ensures
            b == (self.taken == self.found),
    {
        self.taken == self.found
    }
}

/// Puts one parsed header into the map. A header that the wire does not
/// admit is left out, and that counts as done. Returns `false` only where
/// the wire admits the header and the map had no room for it, which does
/// not happen while the map holds fewer names than `ROOM_LIMIT`.
pub fn place_header(map: &mut HeaderMap<HeaderValue>, key: &str, value: &str) -> (placed: bool)
    ensures
        placed ==> header_entries(*final(map)) == with_header(
            header_entries(*old(map)),
            key@,
            value@,
        ),
        !placed ==> header_entries(*final(map)) == header_entries(*old(map)),
        !(valid_header_name(key@) && valid_header_value(value@)) ==> placed,
        header_count(*old(map)) < ROOM_LIMIT ==> placed,
        header_count(*old(map)) <= header_count(*final(map)) <= header_count(*old(map)) + 1,
        !placed ==> header_count(*final(map)) == header_count(*old(map)),
{
    let name = header_name_from_str(key);
    let val = header_value_from_str(value);
    match (name, val) {
        (Ok(n), Ok(v)) => header_map_try_insert(map, n, v).is_ok(),
        _ => true,
    }
}

/// Builds the header map of a request from its header text: the text is
/// parsed, and the headers are put into the map in order. Where the map has
/// no room for a header, the building stops before that header; this does
/// not happen before `ROOM_LIMIT` headers have been gone through.
pub fn build_header_map(raw_headers: &str) -> (r: WireHeaders)
    ensures
        r.found == parsed_headers(raw_headers@).len(),
        r.taken <= r.found,
        header_entries(r.map) == wire_entries(parsed_headers(raw_headers@).take(r.taken as int)),
        header_count(r.map) <= r.taken,
        parsed_headers(raw_headers@).len() <= ROOM_LIMIT ==> r.taken == parsed_headers(
            raw_headers@,
        ).len(),
        r.taken < r.found ==> r.taken >= ROOM_LIMIT,
        r.taken < r.found ==> valid_header_name(parsed_headers(raw_headers@)[r.taken as int].0)
            && valid_header_value(parsed_headers(raw_headers@)[r.taken as int].1),
{
    let pairs = parse_header_lines(raw_headers);
    let found = pairs.len();
    let mut map = header_map_new();
    let mut i: usize = 0;
    proof {
        assert(pairs_view(pairs@).take(0) =~= Seq::<HeaderPair>::empty());
    }
    while i < pairs.len()
        invariant
            i <= pairs.len(),
            found == pairs.len(),
            pairs_view(pairs@) == parsed_headers(raw_headers@),
            header_entries(map) == wire_entries(pairs_view(pairs@).take(i as int)),
            header_count(map) <= i,
        decreases pairs.len() - i,
    {
        let placed = place_header(&mut map, pairs[i].0.as_str(), pairs[i].1.as_str());
        if !placed {
            proof {
                assert(pairs_view(pairs@)[i as int] == (pairs@[i as int].0@, pairs@[i as int].1@));
            }
            return WireHeaders { map, found, taken: i };
        }
        proof {
            let next = pairs_view(pairs@).take(i + 1);
            assert(next.drop_last() =~= pairs_view(pairs@).take(i as int));
            assert(next.last() == (pairs@[i as int].0@, pairs@[i as int].1@));
        }
        i += 1;
    }
    proof {
        assert(pairs_view(pairs@).take(pairs.len() as int) =~= pairs_view(pairs@));
    }
    WireHeaders { map, found, taken: i }
}

} // verus!
