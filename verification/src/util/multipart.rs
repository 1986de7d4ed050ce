//! Building a multipart form body from segments.
use vstd::prelude::*;
use vstd::utf8::encode_utf8;
use crate::util::text::{decimal_string, push_bytes, push_str_bytes, spec_decimal};

verus! {

/// One part of a multipart body.
pub struct MultipartBuildSegment {
    pub name: String,
    pub filename: Option<String>,
    pub content_type: Option<String>,
    pub data: MultipartBuildSegmentData,
}

/// The content of a part.
pub enum MultipartBuildSegmentData {
    Text(String),
    Binary(Vec<u8>),
}

/// The bytes of a part's data.
pub open spec fn data_bytes(d: MultipartBuildSegmentData) -> Seq<u8> {
    match d {
        MultipartBuildSegmentData::Text(t) => encode_utf8(t@),
        MultipartBuildSegmentData::Binary(b) => b@,
    }
}

/// The `filename` attribute of a part's disposition, if it has a file name.
pub open spec fn filename_bytes(f: Option<String>) -> Seq<u8> {
    match f {
        Some(f) => encode_utf8("; filename=\""@) + encode_utf8(f@) + encode_utf8("\""@),
        None => Seq::empty(),
    }
}

/// The `Content-Type` line of a part, if it has one.
pub open spec fn content_type_bytes(c: Option<String>) -> Seq<u8> {
    match c {
        Some(c) => encode_utf8("\r\nContent-Type: "@) + encode_utf8(c@),
        None => Seq::empty(),
    }
}

/// The bytes of one part: the boundary line with its `Content-Disposition`
/// (name, then the file name where there is one), the `Content-Type` where
/// there is one, a blank line, the data and a line break.
pub open spec fn segment_bytes(boundary: Seq<char>, seg: MultipartBuildSegment) -> Seq<u8> {
    encode_utf8("--"@) + encode_utf8(boundary) + encode_utf8("\r\nContent-Disposition: form-data; name=\""@)
        + encode_utf8(seg.name@) + encode_utf8("\""@)
        + filename_bytes(seg.filename) + content_type_bytes(seg.content_type)
        + encode_utf8("\r\n\r\n"@) + data_bytes(seg.data) + encode_utf8("\r\n"@)
}

/// The parts one after the other.
pub open spec fn segments_bytes(boundary: Seq<char>, segs: Seq<MultipartBuildSegment>) -> Seq<u8>
    decreases segs.len(),
{
    if segs.len() == 0 {
        Seq::empty()
    } else {
        segments_bytes(boundary, segs.drop_last()) + segment_bytes(boundary, segs.last())
    }
}

/// A whole multipart body: the parts, then the closing boundary line.
pub open spec fn multipart_body(boundary: Seq<char>, segs: Seq<MultipartBuildSegment>) -> Seq<u8> {
    segments_bytes(boundary, segs) + encode_utf8("--"@) + encode_utf8(boundary) + encode_utf8("--\r\n"@)
}

/// The boundary line of a part and its disposition up to and with its name.
pub open spec fn disposition_bytes(boundary: Seq<char>, name: Seq<char>) -> Seq<u8> {
    encode_utf8("--"@) + encode_utf8(boundary) + encode_utf8("\r\nContent-Disposition: form-data; name=\""@)
        + encode_utf8(name) + encode_utf8("\""@)
}

fn push_disposition(out: &mut Vec<u8>, boundary: &str, name: &str)
    ensures
        final(out)@ == old(out)@ + disposition_bytes(boundary@, name@),
{
    let ghost start = out@;
    push_str_bytes(out, "--");
    push_str_bytes(out, boundary);
    push_str_bytes(out, "\r\nContent-Disposition: form-data; name=\"");
    push_str_bytes(out, name);
    push_str_bytes(out, "\"");
    assert(out@ =~= start + disposition_bytes(boundary@, name@));
}

fn push_filename(out: &mut Vec<u8>, f: &Option<String>)
    ensures
        final(out)@ == old(out)@ + filename_bytes(*f),
{
    let ghost start = out@;
    if let Some(filename) = f {
        push_str_bytes(out, "; filename=\"");
        push_str_bytes(out, filename.as_str());
        push_str_bytes(out, "\"");
    }
    assert(out@ =~= start + filename_bytes(*f));
}

fn push_content_type(out: &mut Vec<u8>, c: &Option<String>)
    ensures
        final(out)@ == old(out)@ + content_type_bytes(*c),
{
    let ghost start = out@;
    if let Some(content_type) = c {
        push_str_bytes(out, "\r\nContent-Type: ");
        push_str_bytes(out, content_type.as_str());
    }
    assert(out@ =~= start + content_type_bytes(*c));
}

fn push_data(out: &mut Vec<u8>, d: &MultipartBuildSegmentData)
    ensures
        final(out)@ == old(out)@ + encode_utf8("\r\n\r\n"@) + data_bytes(*d) + encode_utf8("\r\n"@),
{
    let ghost start = out@;
    push_str_bytes(out, "\r\n\r\n");
    match d {
        MultipartBuildSegmentData::Text(text) => push_str_bytes(out, text.as_str()),
        MultipartBuildSegmentData::Binary(binary) => push_bytes(out, binary.as_slice()),
    }
    push_str_bytes(out, "\r\n");
    assert(out@ =~= start + encode_utf8("\r\n\r\n"@) + data_bytes(*d) + encode_utf8("\r\n"@));
}

fn push_segment(out: &mut Vec<u8>, boundary: &str, seg: &MultipartBuildSegment)
    ensures
        final(out)@ == old(out)@ + segment_bytes(boundary@, *seg),
{
    let ghost start = out@;
    push_disposition(out, boundary, seg.name.as_str());
    let ghost a = out@;
    push_filename(out, &seg.filename);
    let ghost b = out@;
    push_content_type(out, &seg.content_type);
    let ghost c = out@;
    push_data(out, &seg.data);
    proof {
        let d = disposition_bytes(boundary@, seg.name@);
        let f = filename_bytes(seg.filename);
        let t = content_type_bytes(seg.content_type);
        let x = encode_utf8("\r\n\r\n"@) + data_bytes(seg.data) + encode_utf8("\r\n"@);
        assert(out@ =~= start + (d + f + t + x));
        assert(segment_bytes(boundary@, *seg) =~= d + f + t + x);
    }
}

/// Writes the multipart body of the segments with the given boundary.
pub fn build_multipart_body(boundary: &str, data: &Vec<MultipartBuildSegment>) -> (payload: Vec<u8>)
    ensures
        payload@ == multipart_body(boundary@, data@),
{
    let mut payload: Vec<u8> = Vec::new();
    let mut i: usize = 0;
    while i < data.len()
        invariant
            i <= data@.len(),
            payload@ == segments_bytes(boundary@, data@.take(i as int)),
        decreases data@.len() - i,
    {
        push_segment(&mut payload, boundary, &data[i]);
        proof {
            assert(data@.take(i + 1).drop_last() == data@.take(i as int));
            assert(data@.take(i + 1).last() == data@[i as int]);
        }
        i = i + 1;
    }
    assert(data@.take(data@.len() as int) == data@);
    push_str_bytes(&mut payload, "--");
    push_str_bytes(&mut payload, boundary);
    push_str_bytes(&mut payload, "--\r\n");
    payload
}

/// A random 64-bit number.
/// Trusted: calls `rand::random::<u64>()`; nothing is promised of the value.
/// The thread's generator panics where the operating system gives no
/// entropy to seed it; no input can rule that out.
#[verifier::external_body]
fn random_u64() -> u64 {
    rand::random::<u64>()
}

/// The boundaries this crate writes: `----WebKitFormBoundary` and three
/// numbers in decimal.
pub open spec fn is_form_boundary(b: Seq<char>) -> bool {
    exists|x: u64, y: u64, z: u64| b == "----WebKitFormBoundary"@ + spec_decimal(x as nat) + spec_decimal(y as nat) + spec_decimal(z as nat)
}

/// Draws a boundary of three random numbers.
pub fn random_boundary() -> (b: String)
    ensures
        is_form_boundary(b@),
{
    let mut boundary = "----WebKitFormBoundary".to_owned();
    let x = random_u64();
    let y = random_u64();
    let z = random_u64();
    boundary.append(decimal_string(x).as_str());
    boundary.append(decimal_string(y).as_str());
    boundary.append(decimal_string(z).as_str());
    assert(boundary@ == "----WebKitFormBoundary"@ + spec_decimal(x as nat) + spec_decimal(y as nat) + spec_decimal(z as nat));
    boundary
}

/// A multipart body of the segments under a fresh random boundary; returns
/// the boundary and the body.
pub fn generate_multipart_body(data: &Vec<MultipartBuildSegment>) -> (r: (String, Vec<u8>))
    ensures
        is_form_boundary(r.0@),
        r.1@ == multipart_body(r.0@, data@),
{
    let boundary = random_boundary();
    let payload = build_multipart_body(boundary.as_str(), data);
    (boundary, payload)
}

} // verus!
