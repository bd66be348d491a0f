//! The greeting service and the server-side carrier that reads trace context
//! out of incoming gRPC metadata.

use vstd::prelude::*;
use vstd::string::StringSliceAdditionalSpecFns;
use tonic::metadata::MetadataMap;
use crate::grpc::{SayRequest, SayResponse};
use crate::holdings::carrier_set_entries;
use crate::metadata::{
    ascii_metadata_key, ends_with_bin, header_name_from_bytes, header_value_bytes, metadata_entries,
    metadata_get_str, metadata_key_order, metadata_keys, metadata_lookup, visible_ascii,
};

verus! {

/// The greeting service.
pub struct MySay {}

impl MySay {
    /// Greets the name in the request.
    pub fn send(&self, request: &SayRequest) -> (res: SayResponse)
        ensures
            res.message@ == "hello "@ + request.name@,
    {
        let message = String::from_str("hello ").concat(request.name.as_str());
        SayResponse { message }
    }
}

/// Reads trace-context fields out of the metadata of an incoming request.
pub struct TonicClientHeaderCarrier<'a> {
    pub map: &'a MetadataMap,
}

impl<'a> TonicClientHeaderCarrier<'a> {
    /// A carrier over the metadata of one request.
    pub fn new(map: &'a MetadataMap) -> (res: Self)
        ensures
            res.map == map,
    {
        TonicClientHeaderCarrier { map }
    }

    /// The text of the field `key`, if the metadata holds it as text.
    pub fn get(&self, key: &str) -> (res: Option<&'a str>)
        ensures
            res matches Some(s) ==> metadata_lookup(metadata_entries(*self.map), key.spec_bytes())
                == Some(s.spec_bytes()),
            res is None ==> metadata_lookup(metadata_entries(*self.map), key.spec_bytes()) is None,
    {
        metadata_get_str(self.map, key)
    }

    /// The names of all fields, each once, in the order of the map's keys.
    pub fn keys(&self) -> (res: Vec<&'a str>)
        ensures
            res@.map_values(|k: &str| k.spec_bytes()) == metadata_key_order(*self.map),
            res@.map_values(|k: &str| k.spec_bytes()).no_duplicates(),
            res@.map_values(|k: &str| k.spec_bytes()).to_set() == metadata_entries(*self.map).dom(),
            res.len() == metadata_entries(*self.map).dom().len(),
    {
        let res = metadata_keys(self.map);
        proof {
            metadata_key_order(*self.map).unique_seq_to_set();
        }
        res
    }
}

/// What the client carrier sets, the server carrier reads back: after a field
/// is set in a map, reading that field gives the value set, when it reads as
/// text; a value that metadata holds but that does not read as text reads as
/// nothing; and a key or value that metadata cannot hold leaves the field as it
/// was.
pub proof fn lemma_extract_reads_injected(entries: Map<Seq<u8>, Seq<Seq<u8>>>, key: Seq<u8>, value: Seq<u8>)
    ensures
        metadata_lookup(carrier_set_entries(entries, key, value), key) == if ascii_metadata_key(key) is Some
            && header_value_bytes(value) {
            if visible_ascii(value) {
                Some(value)
            } else {
                None
            }
        } else {
            metadata_lookup(entries, key)
        },
{
    if let Some(name) = ascii_metadata_key(key) {
        assert(header_name_from_bytes(key) == Some(name));
        if ends_with_bin(key) {
            let n = key.len();
            assert(name.len() == n);
            assert forall|i: int| n - 4 <= i < n implies #[trigger] name[i] == key[i] by {
                assert(key[i] == key.subrange(n - 4, n as int)[i - (n - 4)]);
            }
            assert(name.subrange(n - 4, n as int) =~= key.subrange(n - 4, n as int));
            assert(false);
        }
    }
}

} // verus!
