//! The inbound wire codec: reads one request into at most one event,
//! detecting the encoding it arrived in. A request whose content type is the
//! structured media type carries one JSON document; a request with neither
//! body nor CloudEvent headers carries no event at all; anything else is
//! read in the binary encoding, attributes from the reserved headers and the
//! payload from the body.

use vstd::prelude::*;
use crate::bytes::{bytes_eq, copy_bytes, pairs_view};
use crate::errors::{AttrName, DecodeError};
use crate::event::{Encoding, Event, EventView, Payload, PayloadView, opt_bytes_view};
use crate::json::{parse_event_json, decode_structured};
use crate::message::{HttpRequest, HttpRequestView};
use crate::names::{hdr_ce_id, hdr_ce_specversion, hdr_ce_source, hdr_ce_type, hdr_ce_subject,
    hdr_ce_time, hdr_content_type, media_type_structured, hdr_ce_id_bytes,
    hdr_ce_specversion_bytes, hdr_ce_source_bytes, hdr_ce_type_bytes, hdr_ce_subject_bytes,
    hdr_ce_time_bytes, hdr_content_type_bytes, media_type_structured_bytes};

verus! {

/// The value of the first header with the given name, if any.
pub open spec fn header_lookup(hs: Seq<(Seq<u8>, Seq<u8>)>, name: Seq<u8>) -> Option<Seq<u8>>
    decreases hs.len(),
{
    if hs.len() == 0 {
        None
    } else if hs[0].0 == name {
        Some(hs[0].1)
    } else {
        header_lookup(hs.drop_first(), name)
    }
}

/// A lookup passes over a prefix in which the name does not occur.
proof fn lemma_header_lookup_skip(hs: Seq<(Seq<u8>, Seq<u8>)>, name: Seq<u8>, i: int)
    requires
        0 <= i <= hs.len(),
        forall|j: int| 0 <= j < i ==> hs[j].0 != name,
    ensures
        header_lookup(hs, name) == header_lookup(hs.skip(i), name),
    decreases i,
{
    if i == 0 {
        assert(hs.skip(0) =~= hs);
    } else {
        assert(hs.drop_first().skip(i - 1) =~= hs.skip(i));
        lemma_header_lookup_skip(hs.drop_first(), name, i - 1);
    }
}

/// A lookup over concatenated header lists reads the first list first.
pub proof fn lemma_header_lookup_app(
    a: Seq<(Seq<u8>, Seq<u8>)>,
    b: Seq<(Seq<u8>, Seq<u8>)>,
    name: Seq<u8>,
)
    ensures
        header_lookup(a + b, name) == (match header_lookup(a, name) {
            Some(v) => Some(v),
            None => header_lookup(b, name),
        }),
    decreases a.len(),
{
    if a.len() == 0 {
        assert(a + b =~= b);
    } else {
        assert((a + b)[0] == a[0]);
        assert((a + b).drop_first() =~= a.drop_first() + b);
        lemma_header_lookup_app(a.drop_first(), b, name);
    }
}

/// Finds the first header with the given name and copies its value out.
fn find_header(hs: &Vec<(Vec<u8>, Vec<u8>)>, name: &Vec<u8>) -> (r: Option<Vec<u8>>)
    ensures
        opt_bytes_view(r) == header_lookup(pairs_view(hs@), name@),
{
    let mut i: usize = 0;
    while i < hs.len()
        invariant
            i <= hs@.len(),
            forall|j: int| 0 <= j < i ==> pairs_view(hs@)[j].0 != name@,
        decreases hs@.len() - i,
    {
        if bytes_eq(&hs[i].0, name) {
            let v = copy_bytes(&hs[i].1);
            proof {
                lemma_header_lookup_skip(pairs_view(hs@), name@, i as int);
                assert(pairs_view(hs@).skip(i as int)[0] == pairs_view(hs@)[i as int]);
            }
            return Some(v);
        }
        i = i + 1;
    }
    proof {
        lemma_header_lookup_skip(pairs_view(hs@), name@, hs@.len() as int);
        assert(pairs_view(hs@).skip(hs@.len() as int).len() == 0);
    }
    None
}

/// Whether any of the six reserved CloudEvent headers is present.
pub open spec fn has_event_headers(hs: Seq<(Seq<u8>, Seq<u8>)>) -> bool {
    ||| header_lookup(hs, hdr_ce_id()) is Some
    ||| header_lookup(hs, hdr_ce_specversion()) is Some
    ||| header_lookup(hs, hdr_ce_source()) is Some
    ||| header_lookup(hs, hdr_ce_type()) is Some
    ||| header_lookup(hs, hdr_ce_subject()) is Some
    ||| header_lookup(hs, hdr_ce_time()) is Some
}

/// A request read in the binary encoding. Each of the four required
/// attributes is demanded in turn; the first one absent names the error.
pub open spec fn decode_binary(hs: Seq<(Seq<u8>, Seq<u8>)>, body: Option<Seq<u8>>) -> Result<
    EventView,
    DecodeError,
> {
    match header_lookup(hs, hdr_ce_id()) {
        None => Err(DecodeError::MissingAttribute(AttrName::Id)),
        Some(id) => match header_lookup(hs, hdr_ce_specversion()) {
            None => Err(DecodeError::MissingAttribute(AttrName::SpecVersion)),
            Some(sv) => match header_lookup(hs, hdr_ce_source()) {
                None => Err(DecodeError::MissingAttribute(AttrName::Source)),
                Some(src) => match header_lookup(hs, hdr_ce_type()) {
                    None => Err(DecodeError::MissingAttribute(AttrName::Type)),
                    Some(ty) => Ok(
                        EventView {
                            id: id,
                            spec_version: sv,
                            source: src,
                            event_type: ty,
                            subject: header_lookup(hs, hdr_ce_subject()),
                            time: header_lookup(hs, hdr_ce_time()),
                            payload: match body {
                                Some(b) => Some(
                                    PayloadView {
                                        content_type: match header_lookup(
                                            hs,
                                            hdr_content_type(),
                                        ) {
                                            Some(ct) => ct,
                                            None => Seq::<u8>::empty(),
                                        },
                                        data: b,
                                    },
                                ),
                                None => None,
                            },
                        },
                    ),
                },
            },
        },
    }
}

/// What decoding a request yields: no event, or one event and the encoding
/// it arrived in, or the reason it was refused.
pub open spec fn decode_request(r: HttpRequestView) -> Result<
    Option<(Encoding, EventView)>,
    DecodeError,
> {
    if header_lookup(r.headers, hdr_content_type()) == Some(media_type_structured()) {
        match r.body {
            Some(b) => match parse_event_json(b) {
                Some(e) => Ok(Some((Encoding::Structured, e))),
                None => Err(DecodeError::Malformed),
            },
            None => Err(DecodeError::Malformed),
        }
    } else if r.body is None && !has_event_headers(r.headers) {
        Ok(None)
    } else {
        match decode_binary(r.headers, r.body) {
            Ok(e) => Ok(Some((Encoding::Binary, e))),
            Err(err) => Err(err),
        }
    }
}

/// Reads one request into its batch of events: none for a zero-event
/// request, one otherwise, together with the encoding it arrived in.
pub fn read_cloud_event(req: &HttpRequest) -> (r: Result<
    Option<(Encoding, Vec<Event>)>,
    DecodeError,
>)
    ensures
        match r {
            Ok(Some((enc, evs))) => evs@.len() == 1 && decode_request(req@) == Ok::<
                _,
                DecodeError,
            >(Some((enc, evs@[0]@))),
            Ok(None) => decode_request(req@) == Ok::<_, DecodeError>(
                None::<(Encoding, EventView)>,
            ),
            Err(e) => decode_request(req@) == Err::<Option<(Encoding, EventView)>, _>(e),
        },
{
    let ct_name = hdr_content_type_bytes();
    let media = media_type_structured_bytes();
    let ct = find_header(&req.headers, &ct_name);
    let is_structured = match &ct {
        Some(v) => bytes_eq(v, &media),
        None => false,
    };
    if is_structured {
        match &req.body {
            Some(b) => match decode_structured(b) {
                Some(ev) => {
                    let mut evs: Vec<Event> = Vec::new();
                    evs.push(ev);
                    Ok(Some((Encoding::Structured, evs)))
                },
                None => Err(DecodeError::Malformed),
            },
            None => Err(DecodeError::Malformed),
        }
    } else {
        let body_absent = match &req.body {
            Some(_) => false,
            None => true,
        };
        if body_absent && !has_any_event_header(&req.headers) {
            return Ok(None);
        }
        match decode_binary_event(req) {
            Ok(ev) => {
                let mut evs: Vec<Event> = Vec::new();
                evs.push(ev);
                Ok(Some((Encoding::Binary, evs)))
            },
            Err(e) => Err(e),
        }
    }
}

/// Whether any of the six reserved CloudEvent headers occurs in the list.
fn has_any_event_header(hs: &Vec<(Vec<u8>, Vec<u8>)>) -> (r: bool)
    ensures
        r == has_event_headers(pairs_view(hs@)),
{
    let n_id = hdr_ce_id_bytes();
    if find_header(hs, &n_id).is_some() {
        return true;
    }
    let n_sv = hdr_ce_specversion_bytes();
    if find_header(hs, &n_sv).is_some() {
        return true;
    }
    let n_src = hdr_ce_source_bytes();
    if find_header(hs, &n_src).is_some() {
        return true;
    }
    let n_ty = hdr_ce_type_bytes();
    if find_header(hs, &n_ty).is_some() {
        return true;
    }
    let n_sub = hdr_ce_subject_bytes();
    if find_header(hs, &n_sub).is_some() {
        return true;
    }
    let n_time = hdr_ce_time_bytes();
    if find_header(hs, &n_time).is_some() {
        return true;
    }
    false
}

/// Reads the binary encoding out of a request.
fn decode_binary_event(req: &HttpRequest) -> (r: Result<Event, DecodeError>)
    ensures
        match r {
            Ok(ev) => decode_binary(req@.headers, req@.body) == Ok::<_, DecodeError>(ev@),
            Err(e) => decode_binary(req@.headers, req@.body) == Err::<EventView, _>(e),
        },
{
    let n_id = hdr_ce_id_bytes();
    let id = match find_header(&req.headers, &n_id) {
        Some(v) => v,
        None => {
            return Err(DecodeError::MissingAttribute(AttrName::Id));
        },
    };
    let n_sv = hdr_ce_specversion_bytes();
    let spec_version = match find_header(&req.headers, &n_sv) {
        Some(v) => v,
        None => {
            return Err(DecodeError::MissingAttribute(AttrName::SpecVersion));
        },
    };
    let n_src = hdr_ce_source_bytes();
    let source = match find_header(&req.headers, &n_src) {
        Some(v) => v,
        None => {
            return Err(DecodeError::MissingAttribute(AttrName::Source));
        },
    };
    let n_ty = hdr_ce_type_bytes();
    let event_type = match find_header(&req.headers, &n_ty) {
        Some(v) => v,
        None => {
            return Err(DecodeError::MissingAttribute(AttrName::Type));
        },
    };
    let n_sub = hdr_ce_subject_bytes();
    let subject = find_header(&req.headers, &n_sub);
    let n_time = hdr_ce_time_bytes();
    let time = find_header(&req.headers, &n_time);
    let payload = match &req.body {
        Some(b) => {
            let n_ct = hdr_content_type_bytes();
            let content_type = match find_header(&req.headers, &n_ct) {
                Some(ct) => ct,
                None => Vec::new(),
            };
            Some(Payload { content_type, data: copy_bytes(b) })
        },
        None => None,
    };
    Ok(Event { id, spec_version, source, event_type, subject, time, payload })
}

} // verus!
