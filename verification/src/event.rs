//! The event model: a CloudEvent value as plain bytes, together with the
//! mathematical view that the contracts of the codec and the assembler speak
//! of. Attribute values and payload bytes are kept as byte strings, exactly
//! as they travel on the wire.

use vstd::prelude::*;

verus! {

/// The two wire encodings of an event over HTTP.
#[derive(Clone, Copy, PartialEq, Eq, Structural, Debug)]
pub enum Encoding {
    Binary,
    Structured,
}

/// An event payload: opaque data bytes together with their content type.
#[derive(Debug)]
pub struct Payload {
    pub content_type: Vec<u8>,
    pub data: Vec<u8>,
}

/// A CloudEvent: four required attributes, two optional ones, and an
/// optional payload. An event with no payload carries no content type,
/// which this shape enforces by construction.
#[derive(Debug)]
pub struct Event {
    pub id: Vec<u8>,
    pub spec_version: Vec<u8>,
    pub source: Vec<u8>,
    pub event_type: Vec<u8>,
    pub subject: Option<Vec<u8>>,
    pub time: Option<Vec<u8>>,
    pub payload: Option<Payload>,
}

/// The mathematical value of a payload.
pub struct PayloadView {
    pub content_type: Seq<u8>,
    pub data: Seq<u8>,
}

/// The mathematical value of an event.
pub struct EventView {
    pub id: Seq<u8>,
    pub spec_version: Seq<u8>,
    pub source: Seq<u8>,
    pub event_type: Seq<u8>,
    pub subject: Option<Seq<u8>>,
    pub time: Option<Seq<u8>>,
    pub payload: Option<PayloadView>,
}

pub open spec fn opt_bytes_view(o: Option<Vec<u8>>) -> Option<Seq<u8>> {
    match o {
        Some(v) => Some(v@),
        None => None,
    }
}

impl View for Payload {
    type V = PayloadView;

    open spec fn view(&self) -> PayloadView {
        PayloadView { content_type: self.content_type@, data: self.data@ }
    }
}

impl View for Event {
    type V = EventView;

    open spec fn view(&self) -> EventView {
        EventView {
            id: self.id@,
            spec_version: self.spec_version@,
            source: self.source@,
            event_type: self.event_type@,
            subject: opt_bytes_view(self.subject),
            time: opt_bytes_view(self.time),
            payload: match self.payload {
                Some(p) => Some(p@),
                None => None,
            },
        }
    }
}

/// The views of a sequence of events, in order.
pub open spec fn events_view(s: Seq<Event>) -> Seq<EventView> {
    Seq::new(s.len(), |i: int| s[i]@)
}

} // verus!
