//! The round-trip laws of the wire codec: an event written in either
//! encoding and read back as a request decodes to the same event, and a
//! request that carries nothing decodes to no event.

use vstd::prelude::*;
use crate::codec::{decode_request, decode_binary, header_lookup, has_event_headers,
    lemma_header_lookup_app};
use crate::errors::{AttrName, DecodeError};
use crate::event::{Encoding, EventView};
use crate::json::lemma_structured_round_trip;
use crate::message::{HttpRequestView, as_request};
use crate::names::{hdr_ce_id, hdr_ce_specversion, hdr_ce_source, hdr_ce_type, hdr_ce_subject,
    hdr_ce_time, hdr_content_type, media_type_structured};
use crate::response::{binary_headers, binary_response, structured_response};

verus! {

/// The reserved header names of equal length differ; the others differ
/// already by their lengths.
proof fn lemma_hdr_names_distinct()
    ensures
        hdr_ce_type() != hdr_ce_time(),
{
    assert(hdr_ce_type()[4] == 0x79 && hdr_ce_time()[4] == 0x69);
}

/// What each reserved header holds in the headers of a binary response:
/// exactly the event's attributes, present ones found, absent ones absent.
proof fn lemma_binary_lookups(e: EventView)
    ensures
        header_lookup(binary_headers(e), hdr_ce_id()) == Some(e.id),
        header_lookup(binary_headers(e), hdr_ce_specversion()) == Some(e.spec_version),
        header_lookup(binary_headers(e), hdr_ce_source()) == Some(e.source),
        header_lookup(binary_headers(e), hdr_ce_type()) == Some(e.event_type),
        header_lookup(binary_headers(e), hdr_ce_subject()) == e.subject,
        header_lookup(binary_headers(e), hdr_ce_time()) == e.time,
        header_lookup(binary_headers(e), hdr_content_type()) == (match e.payload {
            Some(p) => Some(p.content_type),
            None => None::<Seq<u8>>,
        }),
{
    lemma_hdr_names_distinct();
    let base = seq![
        (hdr_ce_id(), e.id),
        (hdr_ce_specversion(), e.spec_version),
        (hdr_ce_source(), e.source),
        (hdr_ce_type(), e.event_type),
    ];
    let s1 = match e.subject {
        Some(s) => seq![(hdr_ce_subject(), s)],
        None => Seq::<(Seq<u8>, Seq<u8>)>::empty(),
    };
    let s2 = match e.time {
        Some(t) => seq![(hdr_ce_time(), t)],
        None => Seq::<(Seq<u8>, Seq<u8>)>::empty(),
    };
    let s3 = match e.payload {
        Some(p) => seq![(hdr_content_type(), p.content_type)],
        None => Seq::<(Seq<u8>, Seq<u8>)>::empty(),
    };
    assert(binary_headers(e) == base + s1 + s2 + s3);
    lemma_header_lookup_app(base + s1 + s2, s3, hdr_ce_id());
    lemma_header_lookup_app(base + s1, s2, hdr_ce_id());
    lemma_header_lookup_app(base, s1, hdr_ce_id());
    lemma_header_lookup_app(base + s1 + s2, s3, hdr_ce_specversion());
    lemma_header_lookup_app(base + s1, s2, hdr_ce_specversion());
    lemma_header_lookup_app(base, s1, hdr_ce_specversion());
    lemma_header_lookup_app(base + s1 + s2, s3, hdr_ce_source());
    lemma_header_lookup_app(base + s1, s2, hdr_ce_source());
    lemma_header_lookup_app(base, s1, hdr_ce_source());
    lemma_header_lookup_app(base + s1 + s2, s3, hdr_ce_type());
    lemma_header_lookup_app(base + s1, s2, hdr_ce_type());
    lemma_header_lookup_app(base, s1, hdr_ce_type());
    lemma_header_lookup_app(base + s1 + s2, s3, hdr_ce_subject());
    lemma_header_lookup_app(base + s1, s2, hdr_ce_subject());
    lemma_header_lookup_app(base, s1, hdr_ce_subject());
    lemma_header_lookup_app(base + s1 + s2, s3, hdr_ce_time());
    lemma_header_lookup_app(base + s1, s2, hdr_ce_time());
    lemma_header_lookup_app(base, s1, hdr_ce_time());
    lemma_header_lookup_app(base + s1 + s2, s3, hdr_content_type());
    lemma_header_lookup_app(base + s1, s2, hdr_content_type());
    lemma_header_lookup_app(base, s1, hdr_content_type());
    assert(header_lookup(base, hdr_ce_id()) == Some(e.id)) by {
        reveal_with_fuel(header_lookup, 2);
    }
    assert(header_lookup(base, hdr_ce_specversion()) == Some(e.spec_version)) by {
        reveal_with_fuel(header_lookup, 3);
    }
    assert(header_lookup(base, hdr_ce_source()) == Some(e.source)) by {
        reveal_with_fuel(header_lookup, 4);
    }
    assert(header_lookup(base, hdr_ce_type()) == Some(e.event_type)) by {
        reveal_with_fuel(header_lookup, 5);
    }
    assert(header_lookup(base, hdr_ce_subject()) is None) by {
        reveal_with_fuel(header_lookup, 5);
    }
    assert(header_lookup(base, hdr_ce_time()) is None) by {
        reveal_with_fuel(header_lookup, 5);
    }
    assert(header_lookup(base, hdr_content_type()) is None) by {
        reveal_with_fuel(header_lookup, 5);
    }
    match e.subject {
        Some(s) => {
            assert(header_lookup(s1, hdr_ce_subject()) == Some(s)) by {
                reveal_with_fuel(header_lookup, 2);
            }
            assert(header_lookup(s1, hdr_ce_time()) is None) by {
                reveal_with_fuel(header_lookup, 2);
            }
            assert(header_lookup(s1, hdr_content_type()) is None) by {
                reveal_with_fuel(header_lookup, 2);
            }
        },
        None => {
            assert(header_lookup(s1, hdr_ce_subject()) is None);
            assert(header_lookup(s1, hdr_ce_time()) is None);
            assert(header_lookup(s1, hdr_content_type()) is None);
        },
    }
    match e.time {
        Some(t) => {
            assert(header_lookup(s2, hdr_ce_subject()) is None) by {
                reveal_with_fuel(header_lookup, 2);
            }
            assert(header_lookup(s2, hdr_ce_time()) == Some(t)) by {
                reveal_with_fuel(header_lookup, 2);
            }
            assert(header_lookup(s2, hdr_content_type()) is None) by {
                reveal_with_fuel(header_lookup, 2);
            }
        },
        None => {
            assert(header_lookup(s2, hdr_ce_subject()) is None);
            assert(header_lookup(s2, hdr_ce_time()) is None);
            assert(header_lookup(s2, hdr_content_type()) is None);
        },
    }
    match e.payload {
        Some(p) => {
            assert(header_lookup(s3, hdr_ce_subject()) is None) by {
                reveal_with_fuel(header_lookup, 2);
            }
            assert(header_lookup(s3, hdr_ce_time()) is None) by {
                reveal_with_fuel(header_lookup, 2);
            }
            assert(header_lookup(s3, hdr_content_type()) == Some(p.content_type)) by {
                reveal_with_fuel(header_lookup, 2);
            }
        },
        None => {
            assert(header_lookup(s3, hdr_ce_subject()) is None);
            assert(header_lookup(s3, hdr_ce_time()) is None);
            assert(header_lookup(s3, hdr_content_type()) is None);
        },
    }
}

/// Round trip of the binary encoding: a binary response read back as a
/// request decodes to the same event, in the binary encoding. The one
/// family of events left out: a payload whose content type is the
/// structured media type itself would make the reader choose the
/// structured encoding instead.
pub proof fn lemma_binary_round_trip(e: EventView)
    requires
        match e.payload {
            Some(p) => p.content_type != media_type_structured(),
            None => true,
        },
    ensures
        decode_request(as_request(binary_response(e))) == Ok::<_, DecodeError>(
            Some((Encoding::Binary, e)),
        ),
{
    lemma_binary_lookups(e);
    let r = as_request(binary_response(e));
    assert(r.headers == binary_headers(e));
    assert(header_lookup(r.headers, hdr_content_type()) != Some(media_type_structured()));
    assert(has_event_headers(r.headers));
    assert(decode_binary(r.headers, r.body) == Ok::<EventView, DecodeError>(e));
}

/// Round trip of the structured encoding: a structured response read back
/// as a request decodes to the same event, in the structured encoding, for
/// every event.
pub proof fn lemma_structured_http_round_trip(e: EventView)
    ensures
        decode_request(as_request(structured_response(e))) == Ok::<_, DecodeError>(
            Some((Encoding::Structured, e)),
        ),
{
    let r = as_request(structured_response(e));
    assert(header_lookup(r.headers, hdr_content_type()) == Some(media_type_structured())) by {
        reveal_with_fuel(header_lookup, 2);
    }
    lemma_structured_round_trip(e);
}

/// Required-attribute enforcement of the binary decode: it fails exactly
/// when one of the four required attribute headers is absent — the absence
/// of the subject or time headers never errs — and the error names the
/// first absent one, in the order identifier, spec version, source, type.
pub proof fn lemma_required_attribute_enforcement(
    hs: Seq<(Seq<u8>, Seq<u8>)>,
    body: Option<Seq<u8>>,
)
    ensures
        decode_binary(hs, body) is Err <==> (header_lookup(hs, hdr_ce_id()) is None
            || header_lookup(hs, hdr_ce_specversion()) is None || header_lookup(
            hs,
            hdr_ce_source(),
        ) is None || header_lookup(hs, hdr_ce_type()) is None),
        header_lookup(hs, hdr_ce_id()) is None ==> decode_binary(hs, body) == Err::<
            EventView,
            _,
        >(DecodeError::MissingAttribute(AttrName::Id)),
        header_lookup(hs, hdr_ce_id()) is Some && header_lookup(hs, hdr_ce_specversion())
            is None ==> decode_binary(hs, body) == Err::<EventView, _>(
            DecodeError::MissingAttribute(AttrName::SpecVersion),
        ),
        header_lookup(hs, hdr_ce_id()) is Some && header_lookup(hs, hdr_ce_specversion())
            is Some && header_lookup(hs, hdr_ce_source()) is None ==> decode_binary(hs, body)
            == Err::<EventView, _>(DecodeError::MissingAttribute(AttrName::Source)),
        header_lookup(hs, hdr_ce_id()) is Some && header_lookup(hs, hdr_ce_specversion())
            is Some && header_lookup(hs, hdr_ce_source()) is Some && header_lookup(
            hs,
            hdr_ce_type(),
        ) is None ==> decode_binary(hs, body) == Err::<EventView, _>(
            DecodeError::MissingAttribute(AttrName::Type),
        ),
{
}

/// Zero-event symmetry on the read side: a request with no body, none of
/// the reserved CloudEvent headers and not the structured content type
/// decodes to no event at all, with no encoding forced.
pub proof fn lemma_zero_event_decode(r: HttpRequestView)
    requires
        r.body is None,
        !has_event_headers(r.headers),
        header_lookup(r.headers, hdr_content_type()) != Some(media_type_structured()),
    ensures
        decode_request(r) == Ok::<_, DecodeError>(None::<(Encoding, EventView)>),
{
}

} // verus!
