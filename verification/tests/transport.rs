use faas_rust::codec::read_cloud_event;
use faas_rust::errors::{AttrName, BindError, DecodeError, EncodeError, PipelineError};
use faas_rust::event::{Encoding, Event, Payload};
use faas_rust::json::{decode_structured, encode_structured};
use faas_rust::message::{HttpRequest, HttpResponse};
use faas_rust::pipeline::{assemble_response, bind_events, normalize_output, prepare_invocation,
    FunctionOutput};
use faas_rust::response::write_cloud_event;
use faas_rust::signature::ParameterSpec;

fn full_event() -> Event {
    Event {
        id: b"42".to_vec(),
        spec_version: b"1.0".to_vec(),
        source: b"/test".to_vec(),
        event_type: b"demo".to_vec(),
        subject: Some(b"door".to_vec()),
        time: Some(b"2020-01-02T03:04:05Z".to_vec()),
        payload: Some(Payload { content_type: b"text/plain".to_vec(), data: b"hello".to_vec() }),
    }
}

fn bare_event() -> Event {
    Event {
        id: b"1".to_vec(),
        spec_version: b"1.0".to_vec(),
        source: b"/test".to_vec(),
        event_type: b"demo".to_vec(),
        subject: None,
        time: None,
        payload: None,
    }
}

fn event_with_id(id: &[u8]) -> Event {
    let mut e = bare_event();
    e.id = id.to_vec();
    e
}

fn response_as_request(resp: HttpResponse) -> HttpRequest {
    HttpRequest { headers: resp.headers, body: resp.body }
}

fn assert_same_event(a: &Event, b: &Event) {
    assert_eq!(a.id, b.id);
    assert_eq!(a.spec_version, b.spec_version);
    assert_eq!(a.source, b.source);
    assert_eq!(a.event_type, b.event_type);
    assert_eq!(a.subject, b.subject);
    assert_eq!(a.time, b.time);
    match (&a.payload, &b.payload) {
        (Some(x), Some(y)) => {
            assert_eq!(x.content_type, y.content_type);
            assert_eq!(x.data, y.data);
        },
        (None, None) => {},
        _ => panic!("payload presence differs"),
    }
}

#[test]
fn binary_round_trip_full() {
    let resp = write_cloud_event(vec![full_event()], Some(Encoding::Binary)).unwrap();
    assert_eq!(resp.status, 200);
    let req = response_as_request(resp);
    let decoded = read_cloud_event(&req).unwrap().unwrap();
    assert_eq!(decoded.0, Encoding::Binary);
    assert_eq!(decoded.1.len(), 1);
    assert_same_event(&decoded.1[0], &full_event());
}

#[test]
fn binary_round_trip_no_payload() {
    let resp = write_cloud_event(vec![bare_event()], Some(Encoding::Binary)).unwrap();
    assert_eq!(resp.status, 200);
    assert!(resp.body.is_none());
    let req = response_as_request(resp);
    let decoded = read_cloud_event(&req).unwrap().unwrap();
    assert_eq!(decoded.0, Encoding::Binary);
    assert_same_event(&decoded.1[0], &bare_event());
}

#[test]
fn structured_round_trip_full() {
    let resp = write_cloud_event(vec![full_event()], Some(Encoding::Structured)).unwrap();
    assert_eq!(resp.status, 200);
    assert_eq!(
        resp.headers,
        vec![(b"content-type".to_vec(), b"application/cloudevents+json".to_vec())]
    );
    let req = response_as_request(resp);
    let decoded = read_cloud_event(&req).unwrap().unwrap();
    assert_eq!(decoded.0, Encoding::Structured);
    assert_same_event(&decoded.1[0], &full_event());
}

#[test]
fn structured_round_trip_no_optionals() {
    let resp = write_cloud_event(vec![bare_event()], Some(Encoding::Structured)).unwrap();
    let req = response_as_request(resp);
    let decoded = read_cloud_event(&req).unwrap().unwrap();
    assert_eq!(decoded.0, Encoding::Structured);
    assert_same_event(&decoded.1[0], &bare_event());
}

#[test]
fn structured_document_exact_bytes() {
    let doc = encode_structured(&bare_event());
    assert_eq!(
        doc,
        b"{\"id\":\"1\",\"specversion\":\"1.0\",\"source\":\"/test\",\"type\":\"demo\"}".to_vec()
    );
}

#[test]
fn structured_escaping_round_trip() {
    let mut e = bare_event();
    e.id = b"a\"b\\c".to_vec();
    e.source = b"{\"x\":,}".to_vec();
    let doc = encode_structured(&e);
    let back = decode_structured(&doc).unwrap();
    assert_eq!(back.id, b"a\"b\\c".to_vec());
    assert_eq!(back.source, b"{\"x\":,}".to_vec());
}

#[test]
fn structured_rejects_malformed_body() {
    let req = HttpRequest {
        headers: vec![(b"content-type".to_vec(), b"application/cloudevents+json".to_vec())],
        body: Some(b"{not json".to_vec()),
    };
    assert_eq!(read_cloud_event(&req).unwrap_err(), DecodeError::Malformed);
}

#[test]
fn structured_rejects_missing_required_key() {
    let req = HttpRequest {
        headers: vec![(b"content-type".to_vec(), b"application/cloudevents+json".to_vec())],
        body: Some(b"{\"id\":\"1\",\"specversion\":\"1.0\",\"source\":\"/test\"}".to_vec()),
    };
    assert_eq!(read_cloud_event(&req).unwrap_err(), DecodeError::Malformed);
}

#[test]
fn zero_event_encode_gives_202() {
    let resp = write_cloud_event(vec![], None).unwrap();
    assert_eq!(resp.status, 202);
    assert!(resp.headers.is_empty());
    assert!(resp.body.is_none());
}

#[test]
fn zero_event_decode_gives_none() {
    let req = HttpRequest { headers: vec![(b"accept".to_vec(), b"*/*".to_vec())], body: None };
    assert!(read_cloud_event(&req).unwrap().is_none());
}

fn binary_request(names: &[&[u8]]) -> HttpRequest {
    let values: [(&[u8], &[u8]); 4] = [
        (b"ce-id", b"1"),
        (b"ce-specversion", b"1.0"),
        (b"ce-source", b"/test"),
        (b"ce-type", b"demo"),
    ];
    let mut headers: Vec<(Vec<u8>, Vec<u8>)> = Vec::new();
    for (n, v) in values.iter() {
        if names.iter().any(|keep| keep == n) {
            headers.push((n.to_vec(), v.to_vec()));
        }
    }
    HttpRequest { headers, body: None }
}

#[test]
fn missing_id_is_named() {
    let req = binary_request(&[b"ce-specversion", b"ce-source", b"ce-type"]);
    assert_eq!(
        read_cloud_event(&req).unwrap_err(),
        DecodeError::MissingAttribute(AttrName::Id)
    );
}

#[test]
fn missing_specversion_is_named() {
    let req = binary_request(&[b"ce-id", b"ce-source", b"ce-type"]);
    assert_eq!(
        read_cloud_event(&req).unwrap_err(),
        DecodeError::MissingAttribute(AttrName::SpecVersion)
    );
}

#[test]
fn missing_source_is_named() {
    let req = binary_request(&[b"ce-id", b"ce-specversion", b"ce-type"]);
    assert_eq!(
        read_cloud_event(&req).unwrap_err(),
        DecodeError::MissingAttribute(AttrName::Source)
    );
}

#[test]
fn missing_type_is_named() {
    let req = binary_request(&[b"ce-id", b"ce-specversion", b"ce-source"]);
    assert_eq!(
        read_cloud_event(&req).unwrap_err(),
        DecodeError::MissingAttribute(AttrName::Type)
    );
}

#[test]
fn absent_optionals_never_error() {
    let req = binary_request(&[b"ce-id", b"ce-specversion", b"ce-source", b"ce-type"]);
    let (enc, evs) = read_cloud_event(&req).unwrap().unwrap();
    assert_eq!(enc, Encoding::Binary);
    assert!(evs[0].subject.is_none());
    assert!(evs[0].time.is_none());
}

#[test]
fn binding_preserves_order() {
    let params = vec![ParameterSpec::RequiredEvent, ParameterSpec::RequiredEvent];
    let batch = vec![event_with_id(b"first"), event_with_id(b"second")];
    let args = bind_events(batch, &params).unwrap();
    assert_eq!(args.len(), 2);
    assert_eq!(args[0].as_ref().unwrap().id, b"first".to_vec());
    assert_eq!(args[1].as_ref().unwrap().id, b"second".to_vec());
}

#[test]
fn exhaustion_names_position_two() {
    let params = vec![ParameterSpec::RequiredEvent, ParameterSpec::RequiredEvent];
    let batch = vec![event_with_id(b"only")];
    assert_eq!(
        bind_events(batch, &params).unwrap_err(),
        BindError::MissingRequiredEvent(2)
    );
}

#[test]
fn optional_parameters_tolerate_empty_batch() {
    let params = vec![ParameterSpec::OptionalEvent, ParameterSpec::OptionalEvent];
    let args = bind_events(vec![], &params).unwrap();
    assert_eq!(args.len(), 2);
    assert!(args[0].is_none());
    assert!(args[1].is_none());
}

#[test]
fn single_event_normalizes_to_one() {
    let batch = normalize_output(FunctionOutput::Single(bare_event()));
    assert_eq!(batch.len(), 1);
}

#[test]
fn empty_optional_normalizes_to_202() {
    let resp = assemble_response(FunctionOutput::Optional(None), Some(Encoding::Binary)).unwrap();
    assert_eq!(resp.status, 202);
    assert!(resp.body.is_none());
}

#[test]
fn three_event_sequence_is_refused() {
    let out = FunctionOutput::Sequence(vec![
        event_with_id(b"1"),
        event_with_id(b"2"),
        event_with_id(b"3"),
    ]);
    assert_eq!(
        assemble_response(out, Some(Encoding::Binary)).unwrap_err(),
        EncodeError::UnsupportedMultiEventResponse
    );
}

#[test]
fn encoding_defaults_to_binary() {
    let resp = write_cloud_event(vec![bare_event()], None).unwrap();
    assert_eq!(resp.status, 200);
    assert!(resp.headers.iter().any(|(n, v)| n == b"ce-id" && v == b"1"));
    assert!(!resp
        .headers
        .iter()
        .any(|(n, v)| n == b"content-type" && v == b"application/cloudevents+json"));
}

#[test]
fn binary_request_keeps_binary_response() {
    let req = binary_request(&[b"ce-id", b"ce-specversion", b"ce-source", b"ce-type"]);
    let params = vec![ParameterSpec::RequiredEvent];
    let (enc, mut args) = prepare_invocation(&req, &params).unwrap();
    assert_eq!(enc, Some(Encoding::Binary));
    let event = args.remove(0).unwrap();
    let resp = assemble_response(FunctionOutput::Single(event), enc).unwrap();
    assert_eq!(resp.status, 200);
    assert!(resp.headers.iter().any(|(n, _)| n == b"ce-id"));
}

#[test]
fn echo_scenario() {
    let req = HttpRequest {
        headers: vec![
            (b"ce-id".to_vec(), b"1".to_vec()),
            (b"ce-specversion".to_vec(), b"1.0".to_vec()),
            (b"ce-source".to_vec(), b"/test".to_vec()),
            (b"ce-type".to_vec(), b"demo".to_vec()),
        ],
        body: None,
    };
    let params = vec![ParameterSpec::RequiredEvent];
    let (enc, mut args) = prepare_invocation(&req, &params).unwrap();
    let event = args.remove(0).unwrap();
    let resp = assemble_response(FunctionOutput::Single(event), enc).unwrap();
    assert_eq!(resp.status, 200);
    assert_eq!(
        resp.headers,
        vec![
            (b"ce-id".to_vec(), b"1".to_vec()),
            (b"ce-specversion".to_vec(), b"1.0".to_vec()),
            (b"ce-source".to_vec(), b"/test".to_vec()),
            (b"ce-type".to_vec(), b"demo".to_vec()),
        ]
    );
    assert!(resp.body.is_none());
}

#[test]
fn decode_failure_short_circuits_binding() {
    let req = binary_request(&[b"ce-specversion"]);
    let params = vec![ParameterSpec::RequiredEvent];
    assert_eq!(
        prepare_invocation(&req, &params).unwrap_err(),
        PipelineError::Decode(DecodeError::MissingAttribute(AttrName::Id))
    );
}

#[test]
fn bind_failure_reports_position() {
    let req = HttpRequest { headers: vec![], body: None };
    let params = vec![ParameterSpec::RequiredEvent];
    assert_eq!(
        prepare_invocation(&req, &params).unwrap_err(),
        PipelineError::Bind(BindError::MissingRequiredEvent(1))
    );
}

#[test]
fn empty_attribute_values_round_trip() {
    let mut e = bare_event();
    e.id = Vec::new();
    e.subject = Some(Vec::new());
    for enc in [Encoding::Binary, Encoding::Structured] {
        let mut e2 = bare_event();
        e2.id = Vec::new();
        e2.subject = Some(Vec::new());
        let resp = write_cloud_event(vec![e2], Some(enc)).unwrap();
        let decoded = read_cloud_event(&response_as_request(resp)).unwrap().unwrap();
        assert_eq!(decoded.1[0].id, Vec::<u8>::new());
        assert_eq!(decoded.1[0].subject, Some(Vec::new()));
    }
}

#[test]
fn empty_payload_data_round_trips() {
    let mut e = bare_event();
    e.payload = Some(Payload { content_type: b"text/plain".to_vec(), data: Vec::new() });
    let resp = write_cloud_event(vec![e], Some(Encoding::Binary)).unwrap();
    assert_eq!(resp.body, Some(Vec::new()));
    let decoded = read_cloud_event(&response_as_request(resp)).unwrap().unwrap();
    let payload = decoded.1[0].payload.as_ref().unwrap();
    assert_eq!(payload.content_type, b"text/plain".to_vec());
    assert_eq!(payload.data, Vec::<u8>::new());
}

#[test]
fn structured_media_type_payload_is_read_as_structured() {
    // The one family of events outside the binary round trip: a payload
    // whose content type is the structured media type makes the reader
    // take the structured path, where this body is not a document.
    let mut e = bare_event();
    e.payload = Some(Payload {
        content_type: b"application/cloudevents+json".to_vec(),
        data: b"hello".to_vec(),
    });
    let resp = write_cloud_event(vec![e], Some(Encoding::Binary)).unwrap();
    let req = response_as_request(resp);
    assert_eq!(read_cloud_event(&req).unwrap_err(), DecodeError::Malformed);
}

#[test]
fn binary_payload_round_trips_content_type() {
    let resp = write_cloud_event(vec![full_event()], Some(Encoding::Binary)).unwrap();
    assert!(resp
        .headers
        .iter()
        .any(|(n, v)| n == b"content-type" && v == b"text/plain"));
    assert_eq!(resp.body, Some(b"hello".to_vec()));
}
