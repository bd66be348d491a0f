//! Client-side tracing pieces of the web API: the carrier that writes trace
//! context into outgoing gRPC metadata, the span namer, and the tracing layer.

use vstd::prelude::*;
use vstd::string::StringSliceAdditionalSpecFns;
use tonic::metadata::MetadataMap;
use crate::metadata::{metadata_key_order, metadata_keys_len, metadata_room, ascii_metadata_key, header_value_bytes, metadata_entries, metadata_insert, metadata_key_from_bytes, lemma_ascii_metadata_key_stable, metadata_value_from_str};

verus! {

/// Writes trace-context fields into the metadata of an outgoing gRPC request.
pub struct TonicClientCarrier<'a> {
    pub metadata: &'a mut MetadataMap,
}

/// The entries a map holds after the carrier was asked to set `key` to
/// `value`: the value replaces the key's values when both are valid ASCII
/// metadata; otherwise the map is left as it was.
pub open spec fn carrier_set_entries(
    entries: Map<Seq<u8>, Seq<Seq<u8>>>,
    key_bytes: Seq<u8>,
    value_bytes: Seq<u8>,
) -> Map<Seq<u8>, Seq<Seq<u8>>> {
    match ascii_metadata_key(key_bytes) {
        Some(name) => if header_value_bytes(value_bytes) {
            entries.insert(name, seq![value_bytes])
        } else {
            entries
        },
        None => entries,
    }
}

/// The order of a map's keys after the carrier was asked to set `key` to
/// `value`: a key that was set and was not there before comes last; otherwise
/// the order stays.
pub open spec fn carrier_set_key_order(
    order: Seq<Seq<u8>>,
    entries: Map<Seq<u8>, Seq<Seq<u8>>>,
    key_bytes: Seq<u8>,
    value_bytes: Seq<u8>,
) -> Seq<Seq<u8>> {
    match ascii_metadata_key(key_bytes) {
        Some(name) => if header_value_bytes(value_bytes) && !entries.contains_key(name) {
            order.push(name)
        } else {
            order
        },
        None => order,
    }
}

impl<'a> TonicClientCarrier<'a> {
    /// A carrier over the metadata of one request.
    pub fn new(metadata: &'a mut MetadataMap) -> (res: Self)
        ensures
            *res.metadata == *old(metadata),
            *final(res.metadata) == *final(metadata),
    {
        TonicClientCarrier { metadata }
    }

    /// Sets one trace-context field; a key or value that gRPC metadata
    /// cannot hold is skipped. The metadata must have room for one more key.
    pub fn set(&mut self, key: &str, value: String)
        requires
            metadata_entries(*old(self).metadata).dom().len() <= metadata_room(),
        ensures
            metadata_entries(*final(self).metadata) == carrier_set_entries(
                metadata_entries(*old(self).metadata),
                key.spec_bytes(),
                vstd::utf8::encode_utf8(value@),
            ),
            metadata_key_order(*final(self).metadata) == carrier_set_key_order(
                metadata_key_order(*old(self).metadata),
                metadata_entries(*old(self).metadata),
                key.spec_bytes(),
                vstd::utf8::encode_utf8(value@),
            ),
    {
        if let Some(name) = metadata_key_from_bytes(key.as_bytes()) {
            proof {
                lemma_ascii_metadata_key_stable(key.spec_bytes());
            }
            if metadata_value_from_str(value.as_str()) {
                metadata_insert(self.metadata, name.as_str(), value.as_str());
            }
        }
    }
}

impl<'a> TonicClientCarrier<'a> {
    /// Sets one field as `set` does when the metadata has room, and says so;
    /// otherwise leaves the metadata as it was and returns `false`.
    pub fn try_set(&mut self, key: &str, value: String) -> (res: bool)
        ensures
            res == (metadata_entries(*old(self).metadata).dom().len() <= metadata_room()),
            res ==> metadata_entries(*final(self).metadata) == carrier_set_entries(
                metadata_entries(*old(self).metadata),
                key.spec_bytes(),
                vstd::utf8::encode_utf8(value@),
            ),
            res ==> metadata_key_order(*final(self).metadata) == carrier_set_key_order(
                metadata_key_order(*old(self).metadata),
                metadata_entries(*old(self).metadata),
                key.spec_bytes(),
                vstd::utf8::encode_utf8(value@),
            ),
            !res ==> metadata_entries(*final(self).metadata) == metadata_entries(*old(self).metadata),
            !res ==> metadata_key_order(*final(self).metadata) == metadata_key_order(*old(self).metadata),
    {
        if metadata_keys_len(self.metadata) <= 6553 {
            self.set(key, value);
            true
        } else {
            false
        }
    }
}

/// Setting a field twice keeps only the second value, when the second value
/// is one that metadata can hold.
pub proof fn lemma_set_overwrites(entries: Map<Seq<u8>, Seq<Seq<u8>>>, key: Seq<u8>, first: Seq<u8>, second: Seq<u8>)
    requires
        header_value_bytes(second),
    ensures
        carrier_set_entries(carrier_set_entries(entries, key, first), key, second) == carrier_set_entries(
            entries,
            key,
            second,
        ),
{
    if let Some(name) = ascii_metadata_key(key) {
        assert(entries.insert(name, seq![first]).insert(name, seq![second]) =~= entries.insert(
            name,
            seq![second],
        ));
    }
}

/// The name given to the span of each outgoing gRPC request.
pub fn default_span_namer() -> (res: String)
    ensures
        res@ == "testing"@,
{
    String::from_str("testing")
}

/// Starts a client span for each outgoing gRPC request and writes its context
/// into the request's metadata.
pub struct TraceInterceptor {}

/// Wraps a gRPC service so that its calls are traced.
#[derive(Clone, Copy, Debug, Default)]
pub struct TraceLayer {}

/// A gRPC service whose calls are traced.
pub struct TraceService<S> {
    inner: S,
}

impl TraceLayer {
    /// Wraps `inner`.
    pub fn layer<S>(&self, inner: S) -> (res: TraceService<S>)
        ensures
            res.inner() == inner,
    {
        TraceService { inner }
    }
}

impl<S> TraceService<S> {
    /// The wrapped service.
    pub closed spec fn inner(&self) -> S {
        self.inner
    }

    /// Gives back the wrapped service.
    pub fn into_inner(self) -> (res: S)
        ensures
            res == self.inner(),
    {
        self.inner
    }
}

} // verus!
