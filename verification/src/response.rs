//! The response assembler: zero outbound events answer 202 with no body,
//! one event is written in the requested encoding (binary when none is
//! requested), and two or more events are refused loudly, since this
//! transport defines no multi-event response encoding.

use vstd::prelude::*;
use crate::bytes::pairs_view;
use crate::errors::EncodeError;
use crate::event::{Encoding, Event, EventView};
use crate::json::{json_of, encode_structured};
use crate::message::{HttpResponse, HttpResponseView};
use crate::names::{hdr_ce_id, hdr_ce_specversion, hdr_ce_source, hdr_ce_type, hdr_ce_subject,
    hdr_ce_time, hdr_content_type, media_type_structured, hdr_ce_id_bytes,
    hdr_ce_specversion_bytes, hdr_ce_source_bytes, hdr_ce_type_bytes, hdr_ce_subject_bytes,
    hdr_ce_time_bytes, hdr_content_type_bytes, media_type_structured_bytes};

verus! {

/// The default encoding of a response when the request fixed none.
pub open spec fn effective_encoding(e: Option<Encoding>) -> Encoding {
    match e {
        Some(x) => x,
        None => Encoding::Binary,
    }
}

/// The headers of a binary response: one per present attribute, plus the
/// payload's content type when there is a payload.
pub open spec fn binary_headers(e: EventView) -> Seq<(Seq<u8>, Seq<u8>)> {
    seq![
        (hdr_ce_id(), e.id),
        (hdr_ce_specversion(), e.spec_version),
        (hdr_ce_source(), e.source),
        (hdr_ce_type(), e.event_type),
    ] + (match e.subject {
        Some(s) => seq![(hdr_ce_subject(), s)],
        None => Seq::<(Seq<u8>, Seq<u8>)>::empty(),
    }) + (match e.time {
        Some(t) => seq![(hdr_ce_time(), t)],
        None => Seq::<(Seq<u8>, Seq<u8>)>::empty(),
    }) + (match e.payload {
        Some(p) => seq![(hdr_content_type(), p.content_type)],
        None => Seq::<(Seq<u8>, Seq<u8>)>::empty(),
    })
}

/// A 200 response carrying one event in the binary encoding.
pub open spec fn binary_response(e: EventView) -> HttpResponseView {
    HttpResponseView {
        status: 200,
        headers: binary_headers(e),
        body: match e.payload {
            Some(p) => Some(p.data),
            None => None,
        },
    }
}

/// A 200 response carrying one event as a structured JSON document.
pub open spec fn structured_response(e: EventView) -> HttpResponseView {
    HttpResponseView {
        status: 200,
        headers: seq![(hdr_content_type(), media_type_structured())],
        body: Some(json_of(e)),
    }
}

/// The 202 response of a run that produced nothing to emit.
pub open spec fn accepted_response() -> HttpResponseView {
    HttpResponseView { status: 202, headers: Seq::<(Seq<u8>, Seq<u8>)>::empty(), body: None }
}

/// Writes one event in the binary encoding.
fn write_binary(event: Event) -> (r: HttpResponse)
    ensures
        r@ == binary_response(event@),
{
    let Event { id, spec_version, source, event_type, subject, time, payload } = event;
    let mut headers: Vec<(Vec<u8>, Vec<u8>)> = Vec::new();
    headers.push((hdr_ce_id_bytes(), id));
    headers.push((hdr_ce_specversion_bytes(), spec_version));
    headers.push((hdr_ce_source_bytes(), source));
    headers.push((hdr_ce_type_bytes(), event_type));
    match subject {
        Some(s) => headers.push((hdr_ce_subject_bytes(), s)),
        None => {},
    }
    match time {
        Some(t) => headers.push((hdr_ce_time_bytes(), t)),
        None => {},
    }
    let body = match payload {
        Some(p) => {
            headers.push((hdr_content_type_bytes(), p.content_type));
            Some(p.data)
        },
        None => None,
    };
    let r = HttpResponse { status: 200, headers, body };
    proof {
        assert(pairs_view(r.headers@) =~= binary_headers(event@));
    }
    r
}

/// Writes one event as a structured JSON document.
fn write_structured(event: Event) -> (r: HttpResponse)
    ensures
        r@ == structured_response(event@),
{
    let body = encode_structured(&event);
    let mut headers: Vec<(Vec<u8>, Vec<u8>)> = Vec::new();
    headers.push((hdr_content_type_bytes(), media_type_structured_bytes()));
    let r = HttpResponse { status: 200, headers, body: Some(body) };
    proof {
        assert(pairs_view(r.headers@) =~= structured_response(event@).headers);
    }
    r
}

/// Assembles the HTTP response of a batch of outbound events: 202 and no
/// body for an empty batch; for one event, a 200 in the requested encoding,
/// binary when none is requested; a refusal for two or more.
pub fn write_cloud_event(ce: Vec<Event>, e: Option<Encoding>) -> (r: Result<
    HttpResponse,
    EncodeError,
>)
    ensures
        ce@.len() == 0 ==> (r matches Ok(resp) && resp@ == accepted_response()),
        ce@.len() == 1 && effective_encoding(e) == Encoding::Binary ==> (r matches Ok(resp)
            && resp@ == binary_response(ce@[0]@)),
        ce@.len() == 1 && effective_encoding(e) == Encoding::Structured ==> (r matches Ok(resp)
            && resp@ == structured_response(ce@[0]@)),
        ce@.len() >= 2 ==> r == Err::<HttpResponse, _>(EncodeError::UnsupportedMultiEventResponse),
{
    let mut ce = ce;
    if ce.len() == 1 {
        let event = ce.remove(0);
        let encoding = match e {
            Some(x) => x,
            None => Encoding::Binary,
        };
        match encoding {
            Encoding::Structured => Ok(write_structured(event)),
            Encoding::Binary => Ok(write_binary(event)),
        }
    } else if ce.len() == 0 {
        let resp = HttpResponse { status: 202, headers: Vec::new(), body: None };
        proof {
            assert(pairs_view(resp.headers@) =~= accepted_response().headers);
        }
        Ok(resp)
    } else {
        Err(EncodeError::UnsupportedMultiEventResponse)
    }
}

} // verus!
