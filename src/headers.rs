use vstd::prelude::*;
use vstd::utf8::encode_utf8;

verus! {

/// Bytes allowed in a header name: the token characters `!"#$%&'*+-.^_`|~`,
/// digits and letters of either case.
pub open spec fn header_name_byte(b: u8) -> bool {
    (33 <= b && b <= 39) || b == 42 || b == 43 || b == 45 || b == 46 || (48 <= b && b <= 57) || (65
        <= b && b <= 90) || (94 <= b && b <= 122) || b == 124 || b == 126
}

/// A header name: one to 65535 bytes, each allowed in a name.
pub open spec fn header_name_accepted(b: Seq<u8>) -> bool {
    &&& 1 <= b.len() <= 65535
    &&& forall|i: int| 0 <= i < b.len() ==> header_name_byte(#[trigger] b[i])
}

/// Bytes allowed in a header value: visible characters, space, tab and
/// bytes above the ASCII range; not other control bytes nor DEL.
pub open spec fn header_value_byte(b: u8) -> bool {
    (b >= 32 && b != 127) || b == 9
}

pub open spec fn header_value_accepted(b: Seq<u8>) -> bool {
    forall|i: int| 0 <= i < b.len() ==> header_value_byte(#[trigger] b[i])
}

/// Whether one name/value pair can be sent as a header.
pub open spec fn header_pair_ok(p: (String, String)) -> bool {
    header_name_accepted(encode_utf8(p.0@)) && header_value_accepted(encode_utf8(p.1@))
}

pub open spec fn headers_ok(h: Seq<(String, String)>) -> bool {
    forall|i: int| 0 <= i < h.len() ==> header_pair_ok(#[trigger] h[i])
}

/// Relies on http::HeaderName::from_bytes: it accepts exactly the byte
/// strings of one to 65535 bytes that are all in its table of name bytes.
#[verifier::external_body]
fn header_name_ok(name: &str) -> (r: bool)
    ensures
        r == header_name_accepted(encode_utf8(name@)),
{
    http::header::HeaderName::from_bytes(name.as_bytes()).is_ok()
}

/// Relies on http::HeaderValue::from_str: it accepts exactly the strings
/// whose bytes are all allowed in a header value.
#[verifier::external_body]
fn header_value_ok(value: &str) -> (r: bool)
    ensures
        r == header_value_accepted(encode_utf8(value@)),
{
    http::header::HeaderValue::from_str(value).is_ok()
}

/// Whether every pair of the map is a valid header.
pub fn check_headers(h: &Vec<(String, String)>) -> (r: bool)
    ensures
        r == headers_ok(h@),
{
    let mut i: usize = 0;
    while i < h.len()
        invariant
            i <= h@.len(),
            forall|k: int| 0 <= k < i ==> header_pair_ok(#[trigger] h@[k]),
        decreases h@.len() - i,
    {
        if !header_name_ok(h[i].0.as_str()) || !header_value_ok(h[i].1.as_str()) {
            assert(!header_pair_ok(h@[i as int]));
            return false;
        }
        i = i + 1;
    }
    true
}

} // verus!
