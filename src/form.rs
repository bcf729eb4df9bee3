use vstd::prelude::*;
use vstd::utf8::encode_utf8;

verus! {

/// Bytes that form encoding writes as they are.
pub open spec fn form_unchanged_byte(b: u8) -> bool {
    b == 42 || b == 45 || b == 46 || (48 <= b && b <= 57) || (65 <= b && b <= 90) || b == 95
        || (97 <= b && b <= 122)
}

/// The upper-case hexadecimal digit of a value below sixteen.
pub open spec fn hex_digit(n: u8) -> char {
    "0123456789ABCDEF"@[n as int]
}

/// How form encoding writes one byte: unreserved bytes as themselves, a
/// space as `+`, any other byte as `%` and two upper-case hex digits.
pub open spec fn form_byte(b: u8) -> Seq<char> {
    if form_unchanged_byte(b) {
        seq![b as char]
    } else if b == 32 {
        seq!['+']
    } else {
        seq!['%', hex_digit(b / 16), hex_digit(b % 16)]
    }
}

/// The form encoding of a byte string.
pub open spec fn form_component(b: Seq<u8>) -> Seq<char>
    decreases b.len(),
{
    if b.len() == 0 {
        Seq::empty()
    } else {
        form_component(b.drop_last()) + form_byte(b.last())
    }
}

/// `name=value`, each side form-encoded from its UTF-8 bytes.
pub open spec fn form_pair_text(p: (String, String)) -> Seq<char> {
    form_component(encode_utf8(p.0@)) + seq!['='] + form_component(encode_utf8(p.1@))
}

/// The pairs' texts joined by `&`.
pub open spec fn form_pairs_text(ps: Seq<(String, String)>) -> Seq<char>
    decreases ps.len(),
{
    if ps.len() == 0 {
        Seq::empty()
    } else if ps.len() == 1 {
        form_pair_text(ps[0])
    } else {
        form_pairs_text(ps.drop_last()) + seq!['&'] + form_pair_text(ps.last())
    }
}

/// One pair for each value of a field, the field's name repeated.
pub open spec fn field_pairs(f: (String, Vec<String>)) -> Seq<(String, String)> {
    f.1@.map_values(|v: String| (f.0, v))
}

/// The fields flattened to name/value pairs, fields and values in order.
pub open spec fn flatten_fields(fs: Seq<(String, Vec<String>)>) -> Seq<(String, String)>
    decreases fs.len(),
{
    if fs.len() == 0 {
        Seq::empty()
    } else {
        flatten_fields(fs.drop_last()) + field_pairs(fs.last())
    }
}

/// The `application/x-www-form-urlencoded` body of a set of fields.
pub open spec fn form_text(fs: Seq<(String, Vec<String>)>) -> Seq<char> {
    form_pairs_text(flatten_fields(fs))
}

/// Relies on form_urlencoded::Serializer (`extend_pairs`, `finish`): each
/// pair written as its name and value form-encoded from their UTF-8 bytes,
/// joined by `=`, pairs joined by `&`.
#[verifier::external_body]
fn serialize_pairs(pairs: &Vec<(String, String)>) -> (r: String)
    ensures
        r@ == form_pairs_text(pairs@),
{
    let mut serializer = form_urlencoded::Serializer::new(String::new());
    serializer.extend_pairs(pairs.iter().map(|p| (p.0.as_str(), p.1.as_str())));
    serializer.finish()
}

/// Flattens fields with one or more values each into name/value pairs.
pub fn flatten_form_fields(fields: &Vec<(String, Vec<String>)>) -> (r: Vec<(String, String)>)
    ensures
        r@ == flatten_fields(fields@),
{
    let mut r: Vec<(String, String)> = Vec::new();
    let mut i: usize = 0;
    while i < fields.len()
        invariant
            i <= fields@.len(),
            r@ == flatten_fields(fields@.subrange(0, i as int)),
        decreases fields@.len() - i,
    {
        let ghost start = r@;
        let values = &fields[i].1;
        let mut j: usize = 0;
        while j < values.len()
            invariant
                i < fields@.len(),
                values == &fields@[i as int].1,
                j <= values@.len(),
                r@ == start + field_pairs(fields@[i as int]).subrange(0, j as int),
            decreases values@.len() - j,
        {
            r.push((fields[i].0.clone(), values[j].clone()));
            assert(field_pairs(fields@[i as int]).subrange(0, j + 1) == field_pairs(
                fields@[i as int],
            ).subrange(0, j as int).push(field_pairs(fields@[i as int])[j as int]));
            j = j + 1;
        }
        assert(field_pairs(fields@[i as int]).subrange(0, j as int) == field_pairs(
            fields@[i as int],
        ));
        assert(fields@.subrange(0, i + 1).drop_last() == fields@.subrange(0, i as int));
        i = i + 1;
    }
    assert(fields@.subrange(0, fields@.len() as int) == fields@);
    r
}

/// The form body of a set of fields, each value of a field giving one
/// `name=value` pair.
pub fn encode_form(fields: &Vec<(String, Vec<String>)>) -> (r: String)
    ensures
        r@ == form_text(fields@),
{
    let pairs = flatten_form_fields(fields);
    serialize_pairs(&pairs)
}

} // verus!
