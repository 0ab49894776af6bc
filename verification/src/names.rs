//! The reserved byte strings of the wire format: attribute keys of the
//! structured JSON document, the CloudEvents header names of the binary
//! encoding, and the structured media type. Each name exists twice: a spec
//! function giving its mathematical value and an executable function that
//! allocates it, the two tied together by an `ensures`.

use vstd::prelude::*;
use vstd::slice::slice_to_vec;

verus! {

// "id"
pub open spec fn key_id() -> Seq<u8> {
    seq![0x69, 0x64]
}

pub fn key_id_bytes() -> (r: Vec<u8>)
    ensures
        r@ == key_id(),
{
    let a: [u8; 2] = [0x69, 0x64];
    let r = slice_to_vec(&a);
    assert(r@ =~= key_id());
    r
}

// "specversion"
pub open spec fn key_specversion() -> Seq<u8> {
    seq![0x73, 0x70, 0x65, 0x63, 0x76, 0x65, 0x72, 0x73, 0x69, 0x6f, 0x6e]
}

pub fn key_specversion_bytes() -> (r: Vec<u8>)
    ensures
        r@ == key_specversion(),
{
    let a: [u8; 11] = [0x73, 0x70, 0x65, 0x63, 0x76, 0x65, 0x72, 0x73, 0x69, 0x6f, 0x6e];
    let r = slice_to_vec(&a);
    assert(r@ =~= key_specversion());
    r
}

// "source"
pub open spec fn key_source() -> Seq<u8> {
    seq![0x73, 0x6f, 0x75, 0x72, 0x63, 0x65]
}

pub fn key_source_bytes() -> (r: Vec<u8>)
    ensures
        r@ == key_source(),
{
    let a: [u8; 6] = [0x73, 0x6f, 0x75, 0x72, 0x63, 0x65];
    let r = slice_to_vec(&a);
    assert(r@ =~= key_source());
    r
}

// "type"
pub open spec fn key_type() -> Seq<u8> {
    seq![0x74, 0x79, 0x70, 0x65]
}

pub fn key_type_bytes() -> (r: Vec<u8>)
    ensures
        r@ == key_type(),
{
    let a: [u8; 4] = [0x74, 0x79, 0x70, 0x65];
    let r = slice_to_vec(&a);
    assert(r@ =~= key_type());
    r
}

// "subject"
pub open spec fn key_subject() -> Seq<u8> {
    seq![0x73, 0x75, 0x62, 0x6a, 0x65, 0x63, 0x74]
}

pub fn key_subject_bytes() -> (r: Vec<u8>)
    ensures
        r@ == key_subject(),
{
    let a: [u8; 7] = [0x73, 0x75, 0x62, 0x6a, 0x65, 0x63, 0x74];
    let r = slice_to_vec(&a);
    assert(r@ =~= key_subject());
    r
}

// "time"
pub open spec fn key_time() -> Seq<u8> {
    seq![0x74, 0x69, 0x6d, 0x65]
}

pub fn key_time_bytes() -> (r: Vec<u8>)
    ensures
        r@ == key_time(),
{
    let a: [u8; 4] = [0x74, 0x69, 0x6d, 0x65];
    let r = slice_to_vec(&a);
    assert(r@ =~= key_time());
    r
}

// "datacontenttype"
pub open spec fn key_datacontenttype() -> Seq<u8> {
    seq![0x64, 0x61, 0x74, 0x61, 0x63, 0x6f, 0x6e, 0x74, 0x65, 0x6e, 0x74, 0x74, 0x79, 0x70, 0x65]
}

pub fn key_datacontenttype_bytes() -> (r: Vec<u8>)
    ensures
        r@ == key_datacontenttype(),
{
    let a: [u8; 15] = [
        0x64,
        0x61,
        0x74,
        0x61,
        0x63,
        0x6f,
        0x6e,
        0x74,
        0x65,
        0x6e,
        0x74,
        0x74,
        0x79,
        0x70,
        0x65,
    ];
    let r = slice_to_vec(&a);
    assert(r@ =~= key_datacontenttype());
    r
}

// "data"
pub open spec fn key_data() -> Seq<u8> {
    seq![0x64, 0x61, 0x74, 0x61]
}

pub fn key_data_bytes() -> (r: Vec<u8>)
    ensures
        r@ == key_data(),
{
    let a: [u8; 4] = [0x64, 0x61, 0x74, 0x61];
    let r = slice_to_vec(&a);
    assert(r@ =~= key_data());
    r
}

// "ce-id"
pub open spec fn hdr_ce_id() -> Seq<u8> {
    seq![0x63, 0x65, 0x2d, 0x69, 0x64]
}

pub fn hdr_ce_id_bytes() -> (r: Vec<u8>)
    ensures
        r@ == hdr_ce_id(),
{
    let a: [u8; 5] = [0x63, 0x65, 0x2d, 0x69, 0x64];
    let r = slice_to_vec(&a);
    assert(r@ =~= hdr_ce_id());
    r
}

// "ce-specversion"
pub open spec fn hdr_ce_specversion() -> Seq<u8> {
    seq![0x63, 0x65, 0x2d, 0x73, 0x70, 0x65, 0x63, 0x76, 0x65, 0x72, 0x73, 0x69, 0x6f, 0x6e]
}

pub fn hdr_ce_specversion_bytes() -> (r: Vec<u8>)
    ensures
        r@ == hdr_ce_specversion(),
{
    let a: [u8; 14] = [
        0x63,
        0x65,
        0x2d,
        0x73,
        0x70,
        0x65,
        0x63,
        0x76,
        0x65,
        0x72,
        0x73,
        0x69,
        0x6f,
        0x6e,
    ];
    let r = slice_to_vec(&a);
    assert(r@ =~= hdr_ce_specversion());
    r
}

// "ce-source"
pub open spec fn hdr_ce_source() -> Seq<u8> {
    seq![0x63, 0x65, 0x2d, 0x73, 0x6f, 0x75, 0x72, 0x63, 0x65]
}

pub fn hdr_ce_source_bytes() -> (r: Vec<u8>)
    ensures
        r@ == hdr_ce_source(),
{
    let a: [u8; 9] = [0x63, 0x65, 0x2d, 0x73, 0x6f, 0x75, 0x72, 0x63, 0x65];
    let r = slice_to_vec(&a);
    assert(r@ =~= hdr_ce_source());
    r
}

// "ce-type"
pub open spec fn hdr_ce_type() -> Seq<u8> {
    seq![0x63, 0x65, 0x2d, 0x74, 0x79, 0x70, 0x65]
}

pub fn hdr_ce_type_bytes() -> (r: Vec<u8>)
    ensures
        r@ == hdr_ce_type(),
{
    let a: [u8; 7] = [0x63, 0x65, 0x2d, 0x74, 0x79, 0x70, 0x65];
    let r = slice_to_vec(&a);
    assert(r@ =~= hdr_ce_type());
    r
}

// "ce-subject"
pub open spec fn hdr_ce_subject() -> Seq<u8> {
    seq![0x63, 0x65, 0x2d, 0x73, 0x75, 0x62, 0x6a, 0x65, 0x63, 0x74]
}

pub fn hdr_ce_subject_bytes() -> (r: Vec<u8>)
    ensures
        r@ == hdr_ce_subject(),
{
    let a: [u8; 10] = [0x63, 0x65, 0x2d, 0x73, 0x75, 0x62, 0x6a, 0x65, 0x63, 0x74];
    let r = slice_to_vec(&a);
    assert(r@ =~= hdr_ce_subject());
    r
}

// "ce-time"
pub open spec fn hdr_ce_time() -> Seq<u8> {
    seq![0x63, 0x65, 0x2d, 0x74, 0x69, 0x6d, 0x65]
}

pub fn hdr_ce_time_bytes() -> (r: Vec<u8>)
    ensures
        r@ == hdr_ce_time(),
{
    let a: [u8; 7] = [0x63, 0x65, 0x2d, 0x74, 0x69, 0x6d, 0x65];
    let r = slice_to_vec(&a);
    assert(r@ =~= hdr_ce_time());
    r
}

// "content-type"
pub open spec fn hdr_content_type() -> Seq<u8> {
    seq![0x63, 0x6f, 0x6e, 0x74, 0x65, 0x6e, 0x74, 0x2d, 0x74, 0x79, 0x70, 0x65]
}

pub fn hdr_content_type_bytes() -> (r: Vec<u8>)
    ensures
        r@ == hdr_content_type(),
{
    let a: [u8; 12] = [0x63, 0x6f, 0x6e, 0x74, 0x65, 0x6e, 0x74, 0x2d, 0x74, 0x79, 0x70, 0x65];
    let r = slice_to_vec(&a);
    assert(r@ =~= hdr_content_type());
    r
}

// "application/cloudevents+json"
pub open spec fn media_type_structured() -> Seq<u8> {
    seq![
        0x61,
        0x70,
        0x70,
        0x6c,
        0x69,
        0x63,
        0x61,
        0x74,
        0x69,
        0x6f,
        0x6e,
        0x2f,
        0x63,
        0x6c,
        0x6f,
        0x75,
        0x64,
        0x65,
        0x76,
        0x65,
        0x6e,
        0x74,
        0x73,
        0x2b,
        0x6a,
        0x73,
        0x6f,
        0x6e,
    ]
}

pub fn media_type_structured_bytes() -> (r: Vec<u8>)
    ensures
        r@ == media_type_structured(),
{
    let a: [u8; 28] = [
        0x61,
        0x70,
        0x70,
        0x6c,
        0x69,
        0x63,
        0x61,
        0x74,
        0x69,
        0x6f,
        0x6e,
        0x2f,
        0x63,
        0x6c,
        0x6f,
        0x75,
        0x64,
        0x65,
        0x76,
        0x65,
        0x6e,
        0x74,
        0x73,
        0x2b,
        0x6a,
        0x73,
        0x6f,
        0x6e,
    ];
    let r = slice_to_vec(&a);
    assert(r@ =~= media_type_structured());
    r
}

} // verus!
