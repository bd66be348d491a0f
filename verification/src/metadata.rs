//! gRPC metadata, as held by `tonic`'s metadata map: what a map holds, and
//! the few operations of the map that the trace-context carriers use.

use vstd::prelude::*;
use vstd::string::StringSliceAdditionalSpecFns;
use tonic::metadata::{Ascii, KeyRef, MetadataKey, MetadataMap, MetadataValue};

verus! {

#[verifier::external_type_specification]
#[verifier::external_body]
pub struct ExMetadataMap(MetadataMap);

/// What a metadata map holds: for each key (the bytes of its lower-case
/// name), the header bytes of its values, in the order they were added.
pub uninterp spec fn metadata_entries(map: MetadataMap) -> Map<Seq<u8>, Seq<Seq<u8>>>;

/// The keys of a metadata map (the bytes of each lower-case name) in the
/// order in which the map's `keys` iterator gives them.
pub uninterp spec fn metadata_key_order(map: MetadataMap) -> Seq<Seq<u8>>;

/// The most distinct keys a map may hold for one more insertion to be sure
/// not to panic. The map's table has at most 32768 slots, and it must grow
/// (which fails at that size) once it holds a fifth of its slots after many
/// hash collisions, or three quarters otherwise; which of these applies is
/// internal to the table, so only the smaller count is safe for every map.
pub open spec fn metadata_room() -> int {
    6553
}

/// Whether a byte may stand in an HTTP header name (a "token" character).
pub open spec fn header_name_byte(b: u8) -> bool {
    b == 33 || (35 <= b <= 39) || b == 42 || b == 43 || b == 45 || b == 46 || (48 <= b <= 57)
        || (65 <= b <= 90) || (94 <= b <= 122) || b == 124 || b == 126
}

/// The lower-case form of a header-name byte.
pub open spec fn header_name_lower(b: u8) -> u8 {
    if 65 <= b <= 90 {
        (b + 32) as u8
    } else {
        b
    }
}

/// The header name that raw key bytes normalize to: they must be between
/// 1 and 65535 token bytes, and upper-case letters become lower case.
pub open spec fn header_name_from_bytes(raw: Seq<u8>) -> Option<Seq<u8>> {
    if 1 <= raw.len() <= 65535 && forall|i: int| 0 <= i < raw.len() ==> header_name_byte(#[trigger] raw[i]) {
        Some(raw.map_values(|b: u8| header_name_lower(b)))
    } else {
        None
    }
}

/// Whether key bytes end in "-bin", the mark of a binary (base64) entry.
pub open spec fn ends_with_bin(key: Seq<u8>) -> bool {
    key.len() >= 4 && key.subrange(key.len() - 4, key.len() as int) == seq![45u8, 98u8, 105u8, 110u8]
}

/// The ASCII metadata key made of raw bytes: a valid header name that does
/// not name a binary entry.
pub open spec fn ascii_metadata_key(raw: Seq<u8>) -> Option<Seq<u8>> {
    match header_name_from_bytes(raw) {
        Some(name) => if ends_with_bin(name) {
            None
        } else {
            Some(name)
        },
        None => None,
    }
}

/// Bytes that a header value may hold: tab and every byte from space up,
/// but DEL.
pub open spec fn header_value_bytes(bytes: Seq<u8>) -> bool {
    forall|i: int| 0 <= i < bytes.len() ==> (bytes[i] == 9 || (bytes[i] >= 32 && bytes[i] != 127))
}

/// Bytes that read back as text: tab and the visible ASCII characters.
pub open spec fn visible_ascii(bytes: Seq<u8>) -> bool {
    forall|i: int| 0 <= i < bytes.len() ==> (bytes[i] == 9 || (bytes[i] >= 32 && bytes[i] < 127))
}

/// The first value stored under the key with bytes `raw`, as the map's
/// lookup finds it: nothing for a key that ends in "-bin" or is no valid header
/// name, else the first value under the normalized key, if it has one.
pub open spec fn metadata_first_value(entries: Map<Seq<u8>, Seq<Seq<u8>>>, raw: Seq<u8>) -> Option<Seq<u8>> {
    if ends_with_bin(raw) {
        None
    } else {
        match header_name_from_bytes(raw) {
            Some(name) => if entries.contains_key(name) && entries[name].len() > 0 {
                Some(entries[name][0])
            } else {
                None
            },
            None => None,
        }
    }
}

/// What reading the key with bytes `raw` gives, as the bytes of a text: the
/// first value stored under it, when that value reads as text.
pub open spec fn metadata_lookup(entries: Map<Seq<u8>, Seq<Seq<u8>>>, raw: Seq<u8>) -> Option<Seq<u8>> {
    match metadata_first_value(entries, raw) {
        Some(v) => if visible_ascii(v) {
            Some(v)
        } else {
            None
        },
        None => None,
    }
}

/// A normalized ASCII metadata key normalizes to itself.
pub proof fn lemma_ascii_metadata_key_stable(raw: Seq<u8>)
    requires
        ascii_metadata_key(raw) is Some,
    ensures
        ascii_metadata_key(ascii_metadata_key(raw)->0) == ascii_metadata_key(raw),
{
    let n = ascii_metadata_key(raw)->0;
    assert(n.map_values(|b: u8| header_name_lower(b)) =~= n);
}

// `tonic`'s metadata keys and values are generic over a trait that `tonic`
// keeps private, so Verus cannot be told of those types; the wrappers below
// take and give their text or bytes instead, converting at the call.

/// Calls `MetadataKey::<Ascii>::from_bytes` and gives back the key's text.
/// Claimed: it succeeds exactly when the bytes normalize to a header name that
/// does not end in "-bin", and the text's bytes are that normalized name.
#[verifier::external_body]
pub(crate) fn metadata_key_from_bytes(raw: &[u8]) -> (res: Option<String>)
    ensures
        res.is_some() == ascii_metadata_key(raw@).is_some(),
        res matches Some(k) ==> ascii_metadata_key(raw@) == Some(vstd::utf8::encode_utf8(k@)),
{
    match MetadataKey::<Ascii>::from_bytes(raw) {
        Ok(key) => Some(key.as_str().to_string()),
        Err(_) => None,
    }
}

/// Calls `<MetadataValue<Ascii> as FromStr>::from_str`. Claimed: it succeeds
/// exactly when every byte of the text may stand in a header value.
#[verifier::external_body]
pub(crate) fn metadata_value_from_str(value: &str) -> (ok: bool)
    ensures
        ok == header_value_bytes(value.spec_bytes()),
{
    <MetadataValue<Ascii> as std::str::FromStr>::from_str(value).is_ok()
}

/// Calls `MetadataMap::insert` with a key and value that were accepted
/// before, made again from their text. Claimed: the key then holds exactly
/// the one new value; other keys are untouched; a key already there keeps its
/// place among the keys, and a new key comes last. The underlying header map
/// panics ("size overflows MAX_SIZE") when its table cannot grow, which may
/// happen from 6554 distinct keys on, whether or not the key is new;
/// `requires` keeps clear of that.
#[verifier::external_body]
pub(crate) fn metadata_insert(map: &mut MetadataMap, key: &str, value: &str)
    requires
        ascii_metadata_key(key.spec_bytes()) == Some(key.spec_bytes()),
        header_value_bytes(value.spec_bytes()),
        metadata_entries(*old(map)).dom().len() <= metadata_room(),
    ensures
        metadata_entries(*final(map)) == metadata_entries(*old(map)).insert(
            key.spec_bytes(),
            seq![value.spec_bytes()],
        ),
        metadata_key_order(*final(map)) == if metadata_entries(*old(map)).contains_key(
            key.spec_bytes(),
        ) {
            metadata_key_order(*old(map))
        } else {
            metadata_key_order(*old(map)).push(key.spec_bytes())
        },
{
    let key = MetadataKey::<Ascii>::from_bytes(key.as_bytes()).unwrap();
    let value = <MetadataValue<Ascii> as std::str::FromStr>::from_str(value).unwrap();
    map.insert(key, value);
}

/// Calls `MetadataMap::get` with a text key and reads what it finds with
/// `MetadataValue::to_str`. Claimed: the text's bytes are what
/// `metadata_lookup` gives.
#[verifier::external_body]
pub(crate) fn metadata_get_str<'a>(map: &'a MetadataMap, key: &str) -> (res: Option<&'a str>)
    ensures
        res matches Some(s) ==> metadata_lookup(metadata_entries(*map), key.spec_bytes())
            == Some(s.spec_bytes()),
        res is None ==> metadata_lookup(metadata_entries(*map), key.spec_bytes()) is None,
{
    match map.get(key) {
        Some(value) => match value.to_str() {
            Ok(text) => Some(text),
            Err(_) => None,
        },
        None => None,
    }
}

/// Calls `MetadataMap::keys_len`. Claimed: the number of distinct keys, ASCII
/// and binary.
#[verifier::external_body]
pub(crate) fn metadata_keys_len(map: &MetadataMap) -> (res: usize)
    ensures
        res == metadata_entries(*map).dom().len(),
{
    map.keys_len()
}

/// Calls `MetadataMap::keys` and takes the text of each key, ASCII or binary.
/// Claimed: the keys come in the iterator's order, each key of the map
/// exactly once.
#[verifier::external_body]
pub(crate) fn metadata_keys<'a>(map: &'a MetadataMap) -> (res: Vec<&'a str>)
    ensures
        res@.map_values(|k: &str| k.spec_bytes()) == metadata_key_order(*map),
        res@.map_values(|k: &str| k.spec_bytes()).no_duplicates(),
        res@.map_values(|k: &str| k.spec_bytes()).to_set() == metadata_entries(*map).dom(),
{
    map.keys().map(|key| match key {
        KeyRef::Ascii(k) => k.as_str(),
        KeyRef::Binary(k) => k.as_str(),
    }).collect()
}

} // verus!
