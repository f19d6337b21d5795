//! The value store: the single current JSON document.
//!
//! The document is carried as an opaque `serde_json::Value`; its model in the
//! contracts is `json_of`, its text.  Ingestion replaces the document
//! wholesale — readers never observe a half-written value — and announces
//! each replacement on the reload channel.  A malformed value ends ingestion
//! and leaves the last good document serving.

use vstd::prelude::*;

use crate::reload::{ReloadHub, ReloadKind};

verus! {

#[verifier::external_type_specification]
#[verifier::external_body]
pub struct ExValue(serde_json::Value);

#[verifier::external_type_specification]
#[verifier::external_body]
pub struct ExJsonError(serde_json::Error);

/// The text of a JSON document: the model under which the contracts compare
/// documents.  Two values with the same text are the same document.
pub uninterp spec fn json_of(v: serde_json::Value) -> Seq<char>;

/// What a JSON Pointer resolves to within a document: the text of the
/// addressed sub-document, or `None` when the pointer does not resolve.
pub uninterp spec fn pointer_of(doc: Seq<char>, pointer: Seq<char>) -> Option<Seq<char>>;

/// Relies on `serde_json::Value::pointer`: resolution is a function of the
/// document and the pointer alone, and the empty pointer addresses the whole
/// document.
#[verifier::external_body]
pub(crate) fn json_pointer<'a>(
    v: &'a serde_json::Value,
    pointer: &str,
) -> (r: Option<&'a serde_json::Value>)
    ensures
        r matches Some(sub) ==> pointer_of(json_of(*v), pointer@) == Some(json_of(*sub)),
        r is None ==> pointer_of(json_of(*v), pointer@) is None,
        r is None ==> pointer@.len() != 0,
        r matches Some(sub) ==> (pointer@.len() == 0 ==> json_of(*sub) == json_of(*v)),
{
    v.pointer(pointer)
}

/// Why the store could not be brought up: the input stream yielded nothing,
/// or its first value was not well-formed JSON.
#[derive(Debug)]
pub enum InitError {
    Empty,
    Malformed(serde_json::Error),
}

/// Holds the latest JSON document read from the input stream.
pub struct ValueStore {
    current: serde_json::Value,
}

impl ValueStore {
    /// The text of the current document.
    pub closed spec fn doc(&self) -> Seq<char> {
        json_of(self.current)
    }

    /// Brings the store up from the first read of the input stream: the first
    /// value if the stream yielded one, its parse error, or `None` for an
    /// empty stream.  Failure here is a startup precondition violation, not a
    /// runtime error.
    pub fn initialize(
        first: Option<Result<serde_json::Value, serde_json::Error>>,
    ) -> (r: Result<ValueStore, InitError>)
        ensures
            match first {
                Some(Ok(v)) => r matches Ok(s) && s.doc() == json_of(v),
                Some(Err(_)) => r matches Err(e) && e is Malformed,
                None => r matches Err(e) && e is Empty,
            },
    {
        match first {
            Some(Ok(v)) => Ok(ValueStore { current: v }),
            Some(Err(e)) => Err(InitError::Malformed(e)),
            None => Err(InitError::Empty),
        }
    }

    /// The latest snapshot.  Never blocks on the writer: the store hands out
    /// whatever document it holds right now.
    pub fn current(&self) -> (r: &serde_json::Value)
        ensures
            json_of(*r) == self.doc(),
    {
        &self.current
    }

    /// Takes the next read off the input stream.  A well-formed value
    /// replaces the document and announces exactly one `Value` reload event;
    /// a malformed one changes nothing and ends ingestion, which is what the
    /// returned flag tells the reading task.
    pub fn ingest(
        &mut self,
        hub: &mut ReloadHub,
        next: Result<serde_json::Value, serde_json::Error>,
    ) -> (resume: bool)
        ensures
            match next {
                Ok(v) => resume && final(self).doc() == json_of(v) && final(hub).events() == old(
                    hub,
                ).events().push(ReloadKind::Value) && final(hub).capacity() == old(hub).capacity(),
                Err(_) => !resume && *final(self) == *old(self) && *final(hub) == *old(hub),
            },
    {
        match next {
            Ok(v) => {
                self.current = v;
                hub.publish(ReloadKind::Value);
                true
            },
            Err(_) => false,
        }
    }
}

} // verus!
