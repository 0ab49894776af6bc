//! The structured encoding: a whole event as one JSON document. The document
//! is an object of string members; attribute values and payload bytes appear
//! as strings in which a quote or a backslash is escaped with a backslash.
//! Both directions are defined as spec functions over byte sequences
//! (`json_of` and `parse_event_json`); the executable encoder and parser are
//! proved equal to them, and `lemma_structured_round_trip` proves that
//! parsing an encoded event gives the event back, for every event.

use vstd::prelude::*;
use crate::bytes::bytes_eq;
use crate::bytes::pairs_view;
use crate::bytes::copy_bytes;
use crate::event::{Event, EventView, Payload, PayloadView, opt_bytes_view};
use crate::names::{key_id, key_specversion, key_source, key_type, key_subject, key_time,
    key_datacontenttype, key_data, key_id_bytes, key_specversion_bytes, key_source_bytes,
    key_type_bytes, key_subject_bytes, key_time_bytes, key_datacontenttype_bytes,
    key_data_bytes};

verus! {

pub const QUOTE: u8 = 0x22;

pub const BACKSLASH: u8 = 0x5c;

pub const LBRACE: u8 = 0x7b;

pub const RBRACE: u8 = 0x7d;

pub const COMMA: u8 = 0x2c;

pub const COLON: u8 = 0x3a;

/// How one byte appears inside a JSON string: quote and backslash take a
/// two-byte escape, every other byte stands for itself.
pub open spec fn esc_byte(b: u8) -> Seq<u8> {
    if b == QUOTE || b == BACKSLASH {
        seq![BACKSLASH, b]
    } else {
        seq![b]
    }
}

/// A byte string escaped for use inside a JSON string.
pub open spec fn esc(s: Seq<u8>) -> Seq<u8>
    decreases s.len(),
{
    if s.len() == 0 {
        Seq::<u8>::empty()
    } else {
        esc_byte(s[0]) + esc(s.drop_first())
    }
}

/// A JSON string: the escaped bytes between two quotes.
pub open spec fn quoted(s: Seq<u8>) -> Seq<u8> {
    seq![QUOTE] + esc(s) + seq![QUOTE]
}

/// One object member: a quoted key, a colon, a quoted value.
pub open spec fn member(k: Seq<u8>, v: Seq<u8>) -> Seq<u8> {
    quoted(k) + seq![COLON] + quoted(v)
}

/// The members of an object document after its opening brace: members
/// separated by commas, ended by the closing brace.
pub open spec fn doc_of(kvs: Seq<(Seq<u8>, Seq<u8>)>) -> Seq<u8>
    decreases kvs.len(),
{
    if kvs.len() == 0 {
        seq![RBRACE]
    } else if kvs.len() == 1 {
        member(kvs[0].0, kvs[0].1) + seq![RBRACE]
    } else {
        member(kvs[0].0, kvs[0].1) + seq![COMMA] + doc_of(kvs.drop_first())
    }
}

/// The key/value pairs of an event's document, in canonical order: the four
/// required attributes, then subject and time when present, then the payload
/// as its content type and its data.
pub open spec fn kvs_of(e: EventView) -> Seq<(Seq<u8>, Seq<u8>)> {
    seq![
        (key_id(), e.id),
        (key_specversion(), e.spec_version),
        (key_source(), e.source),
        (key_type(), e.event_type),
    ] + (match e.subject {
        Some(s) => seq![(key_subject(), s)],
        None => Seq::<(Seq<u8>, Seq<u8>)>::empty(),
    }) + (match e.time {
        Some(t) => seq![(key_time(), t)],
        None => Seq::<(Seq<u8>, Seq<u8>)>::empty(),
    }) + (match e.payload {
        Some(p) => seq![(key_datacontenttype(), p.content_type), (key_data(), p.data)],
        None => Seq::<(Seq<u8>, Seq<u8>)>::empty(),
    })
}

/// The whole structured document of an event.
pub open spec fn json_of(e: EventView) -> Seq<u8> {
    seq![LBRACE] + doc_of(kvs_of(e))
}

/// The attribute values collected while parsing a document, each one absent
/// until its member has been read.
pub struct Fields {
    pub id: Option<Seq<u8>>,
    pub spec_version: Option<Seq<u8>>,
    pub source: Option<Seq<u8>>,
    pub event_type: Option<Seq<u8>>,
    pub subject: Option<Seq<u8>>,
    pub time: Option<Seq<u8>>,
    pub content_type: Option<Seq<u8>>,
    pub data: Option<Seq<u8>>,
}

pub open spec fn empty_fields() -> Fields {
    Fields {
        id: None,
        spec_version: None,
        source: None,
        event_type: None,
        subject: None,
        time: None,
        content_type: None,
        data: None,
    }
}

/// One member applied to the collected fields: a reserved key sets its
/// field (a repeated key overwrites), any other key is rejected.
pub open spec fn set_field(p: Fields, k: Seq<u8>, v: Seq<u8>) -> Option<Fields> {
    if k == key_id() {
        Some(Fields { id: Some(v), ..p })
    } else if k == key_specversion() {
        Some(Fields { spec_version: Some(v), ..p })
    } else if k == key_source() {
        Some(Fields { source: Some(v), ..p })
    } else if k == key_type() {
        Some(Fields { event_type: Some(v), ..p })
    } else if k == key_subject() {
        Some(Fields { subject: Some(v), ..p })
    } else if k == key_time() {
        Some(Fields { time: Some(v), ..p })
    } else if k == key_datacontenttype() {
        Some(Fields { content_type: Some(v), ..p })
    } else if k == key_data() {
        Some(Fields { data: Some(v), ..p })
    } else {
        None
    }
}

/// A list of members applied in order.
pub open spec fn set_fields(p: Fields, kvs: Seq<(Seq<u8>, Seq<u8>)>) -> Option<Fields>
    decreases kvs.len(),
{
    if kvs.len() == 0 {
        Some(p)
    } else {
        match set_field(p, kvs[0].0, kvs[0].1) {
            Some(q) => set_fields(q, kvs.drop_first()),
            None => None,
        }
    }
}

/// The body of a JSON string, read after its opening quote: the unescaped
/// content and what follows the closing quote. Only the two escapes the
/// encoder emits are accepted.
pub open spec fn parse_str_body(s: Seq<u8>) -> Option<(Seq<u8>, Seq<u8>)>
    decreases s.len(),
{
    if s.len() == 0 {
        None
    } else if s[0] == QUOTE {
        Some((Seq::<u8>::empty(), s.drop_first()))
    } else if s[0] == BACKSLASH {
        if s.len() >= 2 && (s[1] == QUOTE || s[1] == BACKSLASH) {
            match parse_str_body(s.skip(2)) {
                Some((c, r)) => Some((seq![s[1]] + c, r)),
                None => None,
            }
        } else {
            None
        }
    } else {
        match parse_str_body(s.drop_first()) {
            Some((c, r)) => Some((seq![s[0]] + c, r)),
            None => None,
        }
    }
}

/// What a string parse consumes is non-empty: the rest is strictly shorter
/// than the input.
pub proof fn lemma_parse_str_body_shrinks(s: Seq<u8>)
    ensures
        match parse_str_body(s) {
            Some((c, r)) => r.len() < s.len(),
            None => true,
        },
    decreases s.len(),
{
    if s.len() == 0 {
    } else if s[0] == QUOTE {
    } else if s[0] == BACKSLASH {
        if s.len() >= 2 && (s[1] == QUOTE || s[1] == BACKSLASH) {
            lemma_parse_str_body_shrinks(s.skip(2));
        }
    } else {
        lemma_parse_str_body_shrinks(s.drop_first());
    }
}

/// The members of an object, read after its opening brace: quoted key,
/// colon, quoted value, then a comma and further members or the closing
/// brace. Returns the collected fields and what follows the brace.
pub open spec fn parse_members(s: Seq<u8>, p: Fields) -> Option<(Fields, Seq<u8>)>
    decreases s.len(),
    via parse_members_decreases
{
    if s.len() == 0 || s[0] != QUOTE {
        None
    } else {
        match parse_str_body(s.drop_first()) {
            Some((k, r1)) => {
                if r1.len() == 0 || r1[0] != COLON {
                    None
                } else {
                    let r2 = r1.drop_first();
                    if r2.len() == 0 || r2[0] != QUOTE {
                        None
                    } else {
                        match parse_str_body(r2.drop_first()) {
                            Some((v, r3)) => {
                                match set_field(p, k, v) {
                                    Some(q) => {
                                        if r3.len() > 0 && r3[0] == COMMA {
                                            parse_members(r3.drop_first(), q)
                                        } else if r3.len() > 0 && r3[0] == RBRACE {
                                            Some((q, r3.drop_first()))
                                        } else {
                                            None
                                        }
                                    },
                                    None => None,
                                }
                            },
                            None => None,
                        }
                    }
                }
            },
            None => None,
        }
    }
}

#[via_fn]
proof fn parse_members_decreases(s: Seq<u8>, p: Fields) {
    if s.len() > 0 && s[0] == QUOTE {
        lemma_parse_str_body_shrinks(s.drop_first());
        match parse_str_body(s.drop_first()) {
            Some((k, r1)) => {
                if r1.len() > 0 && r1[0] == COLON {
                    let r2 = r1.drop_first();
                    if r2.len() > 0 && r2[0] == QUOTE {
                        lemma_parse_str_body_shrinks(r2.drop_first());
                    }
                }
            },
            None => {},
        }
    }
}

/// The event the collected fields describe: the four required attributes
/// must be present, and the payload's content type and data come together
/// or not at all.
pub open spec fn fields_to_event(p: Fields) -> Option<EventView> {
    match (p.id, p.spec_version, p.source, p.event_type) {
        (Some(id), Some(sv), Some(src), Some(ty)) => {
            match (p.content_type, p.data) {
                (Some(ct), Some(d)) => Some(
                    EventView {
                        id,
                        spec_version: sv,
                        source: src,
                        event_type: ty,
                        subject: p.subject,
                        time: p.time,
                        payload: Some(PayloadView { content_type: ct, data: d }),
                    },
                ),
                (None, None) => Some(
                    EventView {
                        id,
                        spec_version: sv,
                        source: src,
                        event_type: ty,
                        subject: p.subject,
                        time: p.time,
                        payload: None,
                    },
                ),
                _ => None,
            }
        },
        _ => None,
    }
}

/// A whole structured document parsed into an event: an object whose
/// members are the reserved keys, nothing before or after it.
pub open spec fn parse_event_json(s: Seq<u8>) -> Option<EventView> {
    if s.len() == 0 || s[0] != LBRACE {
        None
    } else {
        match parse_members(s.drop_first(), empty_fields()) {
            Some((p, rest)) => {
                if rest.len() == 0 {
                    fields_to_event(p)
                } else {
                    None
                }
            },
            None => None,
        }
    }
}

/// Escaping distributes over concatenation.
pub proof fn lemma_esc_append(a: Seq<u8>, b: Seq<u8>)
    ensures
        esc(a + b) == esc(a) + esc(b),
    decreases a.len(),
{
    if a.len() == 0 {
        assert(a + b =~= b);
        assert(esc(a) + esc(b) =~= esc(b));
    } else {
        assert((a + b).drop_first() =~= a.drop_first() + b);
        lemma_esc_append(a.drop_first(), b);
        assert(esc(a + b) =~= esc(a) + esc(b));
    }
}

/// Reading a string body undoes escaping: the escaped bytes, a closing
/// quote and anything after parse back to exactly those bytes and that rest.
pub proof fn lemma_esc_parse(s: Seq<u8>, rest: Seq<u8>)
    ensures
        parse_str_body(esc(s) + seq![QUOTE] + rest) == Some((s, rest)),
    decreases s.len(),
{
    let t = esc(s) + seq![QUOTE] + rest;
    if s.len() == 0 {
        assert(t =~= seq![QUOTE] + rest);
        assert(t[0] == QUOTE);
        assert(t.drop_first() =~= rest);
        assert(s =~= Seq::<u8>::empty());
    } else {
        let b = s[0];
        assert(esc(s) == esc_byte(b) + esc(s.drop_first()));
        if b == QUOTE || b == BACKSLASH {
            assert(t[0] == BACKSLASH);
            assert(t[1] == b);
            assert(t.len() >= 2);
            assert(t.skip(2) =~= esc(s.drop_first()) + seq![QUOTE] + rest);
            lemma_esc_parse(s.drop_first(), rest);
            assert(seq![b] + s.drop_first() =~= s);
        } else {
            assert(t[0] == b);
            assert(t.drop_first() =~= esc(s.drop_first()) + seq![QUOTE] + rest);
            lemma_esc_parse(s.drop_first(), rest);
            assert(seq![b] + s.drop_first() =~= s);
        }
    }
}

/// Applying a concatenation of members is applying the two halves in turn.
pub proof fn lemma_set_fields_app(p: Fields, a: Seq<(Seq<u8>, Seq<u8>)>, b: Seq<
    (Seq<u8>, Seq<u8>),
>)
    ensures
        set_fields(p, a + b) == (match set_fields(p, a) {
            Some(q) => set_fields(q, b),
            None => None,
        }),
    decreases a.len(),
{
    if a.len() == 0 {
        assert(a + b =~= b);
    } else {
        assert((a + b)[0] == a[0]);
        assert((a + b).drop_first() =~= a.drop_first() + b);
        match set_field(p, a[0].0, a[0].1) {
            Some(q) => {
                lemma_set_fields_app(q, a.drop_first(), b);
            },
            None => {},
        }
    }
}

/// Reading an encoded member list collects exactly the fields the members
/// set, and consumes the whole document.
pub proof fn lemma_parse_doc(kvs: Seq<(Seq<u8>, Seq<u8>)>, p: Fields)
    requires
        kvs.len() >= 1,
        set_fields(p, kvs) is Some,
    ensures
        match set_fields(p, kvs) {
            Some(q) => parse_members(doc_of(kvs), p) == Some((q, Seq::<u8>::empty())),
            None => false,
        },
    decreases kvs.len(),
{
    let k = kvs[0].0;
    let v = kvs[0].1;
    let q0 = set_field(p, k, v);
    assert(q0 is Some);
    let tail: Seq<u8> = if kvs.len() == 1 {
        seq![RBRACE]
    } else {
        seq![COMMA] + doc_of(kvs.drop_first())
    };
    let t = doc_of(kvs);
    assert(t =~= member(k, v) + tail);
    assert(t[0] == QUOTE);
    let r1 = seq![COLON] + quoted(v) + tail;
    assert(t.drop_first() =~= esc(k) + seq![QUOTE] + r1);
    lemma_esc_parse(k, r1);
    assert(parse_str_body(t.drop_first()) == Some((k, r1)));
    assert(r1[0] == COLON);
    let r2 = r1.drop_first();
    assert(r2 =~= quoted(v) + tail);
    assert(r2[0] == QUOTE);
    assert(r2.drop_first() =~= esc(v) + seq![QUOTE] + tail);
    lemma_esc_parse(v, tail);
    assert(parse_str_body(r2.drop_first()) == Some((v, tail)));
    if kvs.len() == 1 {
        assert(tail[0] == RBRACE);
        assert(tail.drop_first() =~= Seq::<u8>::empty());
        assert(kvs.drop_first().len() == 0);
    } else {
        assert(tail[0] == COMMA);
        assert(tail.drop_first() =~= doc_of(kvs.drop_first()));
        match q0 {
            Some(q) => {
                lemma_parse_doc(kvs.drop_first(), q);
            },
            None => {},
        }
    }
}

/// The fields that parsing an encoded event collects.
pub open spec fn fields_of(e: EventView) -> Fields {
    Fields {
        id: Some(e.id),
        spec_version: Some(e.spec_version),
        source: Some(e.source),
        event_type: Some(e.event_type),
        subject: e.subject,
        time: e.time,
        content_type: match e.payload {
            Some(p) => Some(p.content_type),
            None => None,
        },
        data: match e.payload {
            Some(p) => Some(p.data),
            None => None,
        },
    }
}

/// The reserved keys of equal length differ; the others differ already by
/// their lengths.
proof fn lemma_keys_distinct()
    ensures
        key_time() != key_type(),
        key_data() != key_type(),
        key_data() != key_time(),
{
    assert(key_time()[1] == 0x69 && key_type()[1] == 0x79);
    assert(key_data()[0] == 0x64 && key_type()[0] == 0x74 && key_time()[0] == 0x74);
}

/// An encoded event's members set exactly the event's fields.
proof fn lemma_set_fields_of(e: EventView)
    ensures
        set_fields(empty_fields(), kvs_of(e)) == Some(fields_of(e)),
{
    lemma_keys_distinct();
    let base = seq![
        (key_id(), e.id),
        (key_specversion(), e.spec_version),
        (key_source(), e.source),
        (key_type(), e.event_type),
    ];
    let s1 = match e.subject {
        Some(s) => seq![(key_subject(), s)],
        None => Seq::<(Seq<u8>, Seq<u8>)>::empty(),
    };
    let s2 = match e.time {
        Some(t) => seq![(key_time(), t)],
        None => Seq::<(Seq<u8>, Seq<u8>)>::empty(),
    };
    let s3 = match e.payload {
        Some(p) => seq![(key_datacontenttype(), p.content_type), (key_data(), p.data)],
        None => Seq::<(Seq<u8>, Seq<u8>)>::empty(),
    };
    assert(kvs_of(e) == base + s1 + s2 + s3);
    lemma_set_fields_app(empty_fields(), base + s1 + s2, s3);
    lemma_set_fields_app(empty_fields(), base + s1, s2);
    lemma_set_fields_app(empty_fields(), base, s1);
    let p4 = Fields {
        id: Some(e.id),
        spec_version: Some(e.spec_version),
        source: Some(e.source),
        event_type: Some(e.event_type),
        subject: None,
        time: None,
        content_type: None,
        data: None,
    };
    assert(set_fields(empty_fields(), base) == Some(p4)) by {
        reveal_with_fuel(set_fields, 5);
    }
    let p5 = Fields { subject: e.subject, ..p4 };
    assert(set_fields(p4, s1) == Some(p5)) by {
        reveal_with_fuel(set_fields, 2);
    }
    let p6 = Fields { time: e.time, ..p5 };
    assert(set_fields(p5, s2) == Some(p6)) by {
        reveal_with_fuel(set_fields, 2);
    }
    match e.payload {
        Some(pl) => {
            let p7 = Fields { content_type: Some(pl.content_type), ..p6 };
            assert(set_field(p6, key_datacontenttype(), pl.content_type) == Some(p7));
            assert(s3.drop_first() =~= seq![(key_data(), pl.data)]);
            let s3b = seq![(key_data(), pl.data)];
            assert(s3b[0].0 == key_data() && s3b[0].1 == pl.data);
            assert(set_field(p7, key_data(), pl.data) == Some(fields_of(e)));
            assert(s3b.drop_first().len() == 0);
            assert(set_fields(p7, s3b) == Some(fields_of(e))) by {
                reveal_with_fuel(set_fields, 2);
            }
            assert(set_fields(p6, s3) == Some(fields_of(e)));
        },
        None => {
            assert(set_fields(p6, s3) == Some(fields_of(e)));
        },
    }
}

/// Round trip of the structured encoding: parsing the document an event
/// encodes to yields the event again, attribute for attribute, payload
/// bytes and content type preserved, and absent optionals still absent.
pub proof fn lemma_structured_round_trip(e: EventView)
    ensures
        parse_event_json(json_of(e)) == Some(e),
{
    let kvs = kvs_of(e);
    assert(kvs.len() >= 4);
    lemma_set_fields_of(e);
    lemma_parse_doc(kvs, empty_fields());
    let t = json_of(e);
    assert(t[0] == LBRACE);
    assert(t.drop_first() =~= doc_of(kvs));
    assert(parse_members(t.drop_first(), empty_fields()) == Some(
        (fields_of(e), Seq::<u8>::empty()),
    ));
    assert(fields_to_event(fields_of(e)) == Some(e));
}

/// Appends the escaped bytes of `s`.
fn escape_into(s: &Vec<u8>, out: &mut Vec<u8>)
    ensures
        final(out)@ == old(out)@ + esc(s@),
{
    let ghost orig: Seq<u8> = out@;
    let mut i: usize = 0;
    while i < s.len()
        invariant
            i <= s@.len(),
            out@ == orig + esc(s@.take(i as int)),
        decreases s@.len() - i,
    {
        let b = s[i];
        proof {
            assert(s@.take(i as int + 1) =~= s@.take(i as int) + seq![s@[i as int]]);
            lemma_esc_append(s@.take(i as int), seq![s@[i as int]]);
            assert(seq![s@[i as int]].drop_first() =~= Seq::<u8>::empty());
            assert(esc(Seq::<u8>::empty()) =~= Seq::<u8>::empty());
            assert(esc(seq![s@[i as int]]) =~= esc_byte(s@[i as int]));
        }
        if b == QUOTE || b == BACKSLASH {
            out.push(BACKSLASH);
            out.push(b);
            assert(out@ =~= orig + esc(s@.take(i as int + 1)));
        } else {
            out.push(b);
            assert(out@ =~= orig + esc(s@.take(i as int + 1)));
        }
        i = i + 1;
    }
    proof {
        assert(s@.take(s@.len() as int) =~= s@);
    }
}

/// Appends `s` as a JSON string.
fn push_quoted(s: &Vec<u8>, out: &mut Vec<u8>)
    ensures
        final(out)@ == old(out)@ + quoted(s@),
{
    out.push(QUOTE);
    escape_into(s, out);
    out.push(QUOTE);
    assert(out@ =~= old(out)@ + quoted(s@));
}

/// Appends the members from position `i` on and the closing brace.
fn emit_doc_from(kvs: &Vec<(Vec<u8>, Vec<u8>)>, i: usize, out: &mut Vec<u8>)
    requires
        i < kvs@.len(),
    ensures
        final(out)@ == old(out)@ + doc_of(pairs_view(kvs@).skip(i as int)),
    decreases kvs@.len() - i,
{
    let n = kvs.len();
    let kv = &kvs[i];
    push_quoted(&kv.0, out);
    out.push(COLON);
    push_quoted(&kv.1, out);
    proof {
        assert(pairs_view(kvs@).skip(i as int)[0] == (kv.0@, kv.1@));
    }
    if i + 1 == n {
        out.push(RBRACE);
        proof {
            assert(pairs_view(kvs@).skip(i as int).len() == 1);
            assert(out@ =~= old(out)@ + doc_of(pairs_view(kvs@).skip(i as int)));
        }
    } else {
        out.push(COMMA);
        emit_doc_from(kvs, i + 1, out);
        proof {
            assert(pairs_view(kvs@).skip(i as int).drop_first() =~= pairs_view(kvs@).skip(
                i as int + 1,
            ));
            assert(out@ =~= old(out)@ + doc_of(pairs_view(kvs@).skip(i as int)));
        }
    }
}

/// Encodes an event as its structured JSON document.
pub fn encode_structured(e: &Event) -> (r: Vec<u8>)
    ensures
        r@ == json_of(e@),
{
    let mut kvs: Vec<(Vec<u8>, Vec<u8>)> = Vec::new();
    kvs.push((key_id_bytes(), copy_bytes(&e.id)));
    kvs.push((key_specversion_bytes(), copy_bytes(&e.spec_version)));
    kvs.push((key_source_bytes(), copy_bytes(&e.source)));
    kvs.push((key_type_bytes(), copy_bytes(&e.event_type)));
    match &e.subject {
        Some(s) => kvs.push((key_subject_bytes(), copy_bytes(s))),
        None => {},
    }
    match &e.time {
        Some(t) => kvs.push((key_time_bytes(), copy_bytes(t))),
        None => {},
    }
    match &e.payload {
        Some(p) => {
            kvs.push((key_datacontenttype_bytes(), copy_bytes(&p.content_type)));
            kvs.push((key_data_bytes(), copy_bytes(&p.data)));
        },
        None => {},
    }
    proof {
        assert(pairs_view(kvs@) =~= kvs_of(e@));
    }
    let mut out: Vec<u8> = Vec::new();
    out.push(LBRACE);
    emit_doc_from(&kvs, 0, &mut out);
    proof {
        assert(pairs_view(kvs@).skip(0) =~= pairs_view(kvs@));
        assert(out@ =~= json_of(e@));
    }
    out
}

/// The fields collected so far by the executable parser.
pub struct FieldsBuf {
    pub id: Option<Vec<u8>>,
    pub spec_version: Option<Vec<u8>>,
    pub source: Option<Vec<u8>>,
    pub event_type: Option<Vec<u8>>,
    pub subject: Option<Vec<u8>>,
    pub time: Option<Vec<u8>>,
    pub content_type: Option<Vec<u8>>,
    pub data: Option<Vec<u8>>,
}

impl View for FieldsBuf {
    type V = Fields;

    open spec fn view(&self) -> Fields {
        Fields {
            id: opt_bytes_view(self.id),
            spec_version: opt_bytes_view(self.spec_version),
            source: opt_bytes_view(self.source),
            event_type: opt_bytes_view(self.event_type),
            subject: opt_bytes_view(self.subject),
            time: opt_bytes_view(self.time),
            content_type: opt_bytes_view(self.content_type),
            data: opt_bytes_view(self.data),
        }
    }
}

/// Reads a string body starting at `i`, after an opening quote.
fn parse_string_at(s: &Vec<u8>, i: usize) -> (r: Option<(Vec<u8>, usize)>)
    requires
        i <= s@.len(),
    ensures
        match r {
            Some((c, j)) => i < j <= s@.len() && parse_str_body(s@.skip(i as int)) == Some(
                (c@, s@.skip(j as int)),
            ),
            None => parse_str_body(s@.skip(i as int)) is None,
        },
    decreases s@.len() - i,
{
    if i == s.len() {
        proof {
            assert(s@.skip(i as int).len() == 0);
        }
        return None;
    }
    let b = s[i];
    proof {
        assert(s@.skip(i as int)[0] == s@[i as int]);
        assert(s@.skip(i as int).drop_first() =~= s@.skip(i as int + 1));
    }
    if b == QUOTE {
        let c: Vec<u8> = Vec::new();
        proof {
            assert(c@ =~= Seq::<u8>::empty());
        }
        return Some((c, i + 1));
    }
    if b == BACKSLASH {
        if i + 1 == s.len() {
            proof {
                assert(s@.skip(i as int).len() < 2);
            }
            return None;
        }
        let b2 = s[i + 1];
        proof {
            assert(s@.skip(i as int).len() >= 2);
            assert(s@.skip(i as int)[1] == s@[i as int + 1]);
        }
        if b2 != QUOTE && b2 != BACKSLASH {
            return None;
        }
        proof {
            assert(s@.skip(i as int).skip(2) =~= s@.skip(i as int + 2));
        }
        match parse_string_at(s, i + 2) {
            Some((c, j)) => {
                let mut c2 = c;
                c2.insert(0, b2);
                proof {
                    assert(c2@ =~= seq![s@[i as int + 1]] + c2@.drop_first());
                    assert(c2@.drop_first() =~= c2@.skip(1));
                }
                return Some((c2, j));
            },
            None => {
                return None;
            },
        }
    }
    match parse_string_at(s, i + 1) {
        Some((c, j)) => {
            let mut c2 = c;
            c2.insert(0, b);
            proof {
                assert(c2@ =~= seq![s@[i as int]] + c2@.drop_first());
            }
            Some((c2, j))
        },
        None => None,
    }
}

/// Applies one parsed member to the collected fields.
fn apply_field(p: FieldsBuf, k: Vec<u8>, v: Vec<u8>) -> (r: Option<FieldsBuf>)
    ensures
        match r {
            Some(q) => set_field(p@, k@, v@) == Some(q@),
            None => set_field(p@, k@, v@) is None,
        },
{
    let kid = key_id_bytes();
    if bytes_eq(&k, &kid) {
        return Some(FieldsBuf { id: Some(v), ..p });
    }
    let ksv = key_specversion_bytes();
    if bytes_eq(&k, &ksv) {
        return Some(FieldsBuf { spec_version: Some(v), ..p });
    }
    let ksrc = key_source_bytes();
    if bytes_eq(&k, &ksrc) {
        return Some(FieldsBuf { source: Some(v), ..p });
    }
    let kty = key_type_bytes();
    if bytes_eq(&k, &kty) {
        return Some(FieldsBuf { event_type: Some(v), ..p });
    }
    let ksub = key_subject_bytes();
    if bytes_eq(&k, &ksub) {
        return Some(FieldsBuf { subject: Some(v), ..p });
    }
    let ktime = key_time_bytes();
    if bytes_eq(&k, &ktime) {
        return Some(FieldsBuf { time: Some(v), ..p });
    }
    let kct = key_datacontenttype_bytes();
    if bytes_eq(&k, &kct) {
        return Some(FieldsBuf { content_type: Some(v), ..p });
    }
    let kdata = key_data_bytes();
    if bytes_eq(&k, &kdata) {
        return Some(FieldsBuf { data: Some(v), ..p });
    }
    None
}

/// Reads members starting at `i`, after the opening brace or a comma.
fn parse_members_at(s: &Vec<u8>, i: usize, p: FieldsBuf) -> (r: Option<(FieldsBuf, usize)>)
    requires
        i <= s@.len(),
    ensures
        match r {
            Some((q, j)) => j <= s@.len() && parse_members(s@.skip(i as int), p@) == Some(
                (q@, s@.skip(j as int)),
            ),
            None => parse_members(s@.skip(i as int), p@) is None,
        },
    decreases s@.len() - i,
{
    if i == s.len() {
        return None;
    }
    if s[i] != QUOTE {
        proof {
            assert(s@.skip(i as int)[0] == s@[i as int]);
        }
        return None;
    }
    proof {
        assert(s@.skip(i as int)[0] == s@[i as int]);
        assert(s@.skip(i as int).drop_first() =~= s@.skip(i as int + 1));
    }
    let parsed_key = parse_string_at(s, i + 1);
    let (k, j1) = match parsed_key {
        Some(x) => x,
        None => {
            return None;
        },
    };
    if j1 == s.len() {
        proof {
            assert(s@.skip(j1 as int).len() == 0);
        }
        return None;
    }
    proof {
        assert(s@.skip(j1 as int)[0] == s@[j1 as int]);
        assert(s@.skip(j1 as int).drop_first() =~= s@.skip(j1 as int + 1));
    }
    if s[j1] != COLON {
        return None;
    }
    if j1 + 1 == s.len() {
        proof {
            assert(s@.skip(j1 as int + 1).len() == 0);
        }
        return None;
    }
    proof {
        assert(s@.skip(j1 as int + 1)[0] == s@[j1 as int + 1]);
        assert(s@.skip(j1 as int + 1).drop_first() =~= s@.skip(j1 as int + 2));
    }
    if s[j1 + 1] != QUOTE {
        return None;
    }
    let parsed_val = parse_string_at(s, j1 + 2);
    let (v, j2) = match parsed_val {
        Some(x) => x,
        None => {
            return None;
        },
    };
    let q = match apply_field(p, k, v) {
        Some(x) => x,
        None => {
            return None;
        },
    };
    if j2 == s.len() {
        proof {
            assert(s@.skip(j2 as int).len() == 0);
        }
        return None;
    }
    proof {
        assert(s@.skip(j2 as int)[0] == s@[j2 as int]);
        assert(s@.skip(j2 as int).drop_first() =~= s@.skip(j2 as int + 1));
    }
    let b = s[j2];
    if b == COMMA {
        parse_members_at(s, j2 + 1, q)
    } else if b == RBRACE {
        Some((q, j2 + 1))
    } else {
        None
    }
}

/// Builds the event the collected fields describe.
fn build_event(p: FieldsBuf) -> (r: Option<Event>)
    ensures
        match r {
            Some(ev) => fields_to_event(p@) == Some(ev@),
            None => fields_to_event(p@) is None,
        },
{
    let FieldsBuf { id, spec_version, source, event_type, subject, time, content_type, data } = p;
    let id = match id {
        Some(x) => x,
        None => {
            return None;
        },
    };
    let spec_version = match spec_version {
        Some(x) => x,
        None => {
            return None;
        },
    };
    let source = match source {
        Some(x) => x,
        None => {
            return None;
        },
    };
    let event_type = match event_type {
        Some(x) => x,
        None => {
            return None;
        },
    };
    let payload = match (content_type, data) {
        (Some(ct), Some(d)) => Some(Payload { content_type: ct, data: d }),
        (None, None) => None,
        _ => {
            return None;
        },
    };
    Some(Event { id, spec_version, source, event_type, subject, time, payload })
}

/// Parses a whole structured JSON document into an event.
pub fn decode_structured(bytes: &Vec<u8>) -> (r: Option<Event>)
    ensures
        match r {
            Some(ev) => parse_event_json(bytes@) == Some(ev@),
            None => parse_event_json(bytes@) is None,
        },
{
    if bytes.len() == 0 {
        return None;
    }
    if bytes[0] != LBRACE {
        return None;
    }
    let empty_buf = FieldsBuf {
        id: None,
        spec_version: None,
        source: None,
        event_type: None,
        subject: None,
        time: None,
        content_type: None,
        data: None,
    };
    proof {
        assert(empty_buf@ == empty_fields());
        assert(bytes@.skip(1) =~= bytes@.drop_first());
    }
    let parsed = parse_members_at(bytes, 1, empty_buf);
    let (q, j) = match parsed {
        Some(x) => x,
        None => {
            return None;
        },
    };
    if j != bytes.len() {
        proof {
            assert(bytes@.skip(j as int).len() > 0);
        }
        return None;
    }
    proof {
        assert(bytes@.skip(j as int).len() == 0);
    }
    build_event(q)
}

} // verus!
