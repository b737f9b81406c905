//! Envelopes: what one node sends another, and what a handler is told of it.

use crate::json::{json, Json};
use crate::table::{collected, StringTable};
use serde_json::Value;
use vstd::prelude::*;

verus! {

/// The texts of the values of a map.
pub open spec fn texts(values: Map<Seq<char>, String>) -> Map<Seq<char>, Seq<char>> {
    values.map_values(|value: String| value@)
}

/// The texts after a value is put in.
pub proof fn texts_of_insert(values: Map<Seq<char>, String>, key: Seq<char>, value: String)
    ensures
        texts(values.insert(key, value)) == texts(values).insert(key, value@),
{
    assert(texts(values.insert(key, value)) =~= texts(values).insert(key, value@));
}

/// The texts after a key is taken out.
pub proof fn texts_of_remove(values: Map<Seq<char>, String>, key: Seq<char>)
    ensures
        texts(values.remove(key)) == texts(values).remove(key),
{
    assert(texts(values.remove(key)) =~= texts(values).remove(key));
}

/// Key and value pairs that travel with an envelope.
#[derive(Debug, PartialEq, Eq)]
pub struct TransportMetadata {
    pub values: StringTable<String>,
}

impl View for TransportMetadata {
    type V = Map<Seq<char>, Seq<char>>;

    open spec fn view(&self) -> Map<Seq<char>, Seq<char>> {
        texts(self.values@)
    }
}

/// The table of a list of entries; where a key comes twice, the later entry
/// counts.
pub fn table_of_texts(entries: &Vec<(String, String)>) -> (r: StringTable<String>)
    ensures
        texts(r@) == texts(collected(entries@)),
{
    let mut table: StringTable<String> = StringTable::new();
    let mut i: usize = 0;
    assert(entries@.take(0) =~= Seq::empty());
    while i < entries.len()
        invariant
            i <= entries.len(),
            texts(table@) == texts(collected(entries@.take(i as int))),
        decreases entries.len() - i,
    {
        let ghost known = table@;
        table.insert(entries[i].0.clone(), entries[i].1.clone());
        proof {
            let (key, value) = entries@[i as int];
            assert(entries@.take(i + 1).drop_last() =~= entries@.take(i as int));
            texts_of_insert(known, key@, value);
            texts_of_insert(collected(entries@.take(i as int)), key@, value);
        }
        i = i + 1;
    }
    assert(entries@.take(i as int) =~= entries@);
    table
}

impl TransportMetadata {
    /// Metadata without entries.
    pub fn new() -> (r: Self)
        ensures
            r@ == Map::<Seq<char>, Seq<char>>::empty(),
    {
        let values: StringTable<String> = StringTable::new();
        let r = TransportMetadata { values };
        assert(r@ =~= Map::<Seq<char>, Seq<char>>::empty());
        r
    }

    /// The metadata with one more entry, in place of any with the same key.
    pub fn insert(self, key: &str, value: &str) -> (r: Self)
        ensures
            r@ == self@.insert(key@, value@),
    {
        let mut values = self.values;
        let text = value.to_owned();
        values.insert(key.to_owned(), text);
        proof {
            texts_of_insert(self.values@, key@, text);
        }
        TransportMetadata { values }
    }
}

impl Default for TransportMetadata {
    fn default() -> (r: Self)
        ensures
            r@ == Map::<Seq<char>, Seq<char>>::empty(),
    {
        TransportMetadata::new()
    }
}

impl Clone for TransportMetadata {
    fn clone(&self) -> (r: Self)
        ensures
            r@ == self@,
    {
        TransportMetadata { values: table_of_texts(self.values.entries()) }
    }
}

/// What an envelope says.
#[verifier::ext_equal]
pub struct EnvelopeView {
    pub pattern: Seq<char>,
    pub payload: Json,
    pub metadata: Map<Seq<char>, Seq<char>>,
}

/// A request that expects a reply.
#[derive(Debug, PartialEq, Eq)]
pub struct MessageEnvelope {
    pub pattern: String,
    pub payload: Value,
    pub metadata: TransportMetadata,
}

impl Clone for MessageEnvelope {
    fn clone(&self) -> (r: Self)
        ensures
            r@ == self@,
    {
        MessageEnvelope {
            pattern: self.pattern.clone(),
            payload: self.payload.clone(),
            metadata: self.metadata.clone(),
        }
    }
}

impl View for MessageEnvelope {
    type V = EnvelopeView;

    open spec fn view(&self) -> EnvelopeView {
        EnvelopeView {
            pattern: self.pattern@,
            payload: json(self.payload),
            metadata: self.metadata@,
        }
    }
}

/// A notice that expects no reply.
#[derive(Debug, PartialEq, Eq)]
pub struct EventEnvelope {
    pub pattern: String,
    pub payload: Value,
    pub metadata: TransportMetadata,
}

impl Clone for EventEnvelope {
    fn clone(&self) -> (r: Self)
        ensures
            r@ == self@,
    {
        EventEnvelope {
            pattern: self.pattern.clone(),
            payload: self.payload.clone(),
            metadata: self.metadata.clone(),
        }
    }
}

impl View for EventEnvelope {
    type V = EnvelopeView;

    open spec fn view(&self) -> EnvelopeView {
        EnvelopeView {
            pattern: self.pattern@,
            payload: json(self.payload),
            metadata: self.metadata@,
        }
    }
}

/// What a handler is told of an envelope.
#[verifier::ext_equal]
pub struct ContextView {
    pub transport: Seq<char>,
    pub pattern: Seq<char>,
    pub metadata: Map<Seq<char>, Seq<char>>,
}

/// The context in which a handler runs: the transport that brought the envelope,
/// its pattern and the sender's metadata.
#[derive(Debug, PartialEq, Eq)]
pub struct MicroserviceContext {
    pub transport: String,
    pub pattern: String,
    pub metadata: TransportMetadata,
}

impl Clone for MicroserviceContext {
    fn clone(&self) -> (r: Self)
        ensures
            r@ == self@,
    {
        MicroserviceContext {
            transport: self.transport.clone(),
            pattern: self.pattern.clone(),
            metadata: self.metadata.clone(),
        }
    }
}

impl View for MicroserviceContext {
    type V = ContextView;

    open spec fn view(&self) -> ContextView {
        ContextView {
            transport: self.transport@,
            pattern: self.pattern@,
            metadata: self.metadata@,
        }
    }
}

/// The texts of a map stand under its keys.
pub proof fn texts_keep_keys(values: Map<Seq<char>, String>, key: Seq<char>)
    ensures
        texts(values).contains_key(key) == values.contains_key(key),
        values.contains_key(key) ==> texts(values)[key] == values[key]@,
{
}

/// Metadata says what its table holds.
pub proof fn metadata_says_its_entries(metadata: TransportMetadata, key: Seq<char>)
    ensures
        metadata@.contains_key(key) == metadata.values@.contains_key(key),
        metadata@.contains_key(key) ==> metadata@[key] == metadata.values@[key]@,
{
}

/// An envelope says its pattern, the document of its payload and its metadata.
pub proof fn envelopes_say_their_fields(message: MessageEnvelope, event: EventEnvelope)
    ensures
        message@.pattern == message.pattern@,
        message@.payload == json(message.payload),
        message@.metadata == message.metadata@,
        event@.pattern == event.pattern@,
        event@.payload == json(event.payload),
        event@.metadata == event.metadata@,
{
}

/// A context says its transport, its pattern and its metadata.
pub proof fn context_says_its_fields(context: MicroserviceContext)
    ensures
        context@.transport == context.transport@,
        context@.pattern == context.pattern@,
        context@.metadata == context.metadata@,
{
}

} // verus!
