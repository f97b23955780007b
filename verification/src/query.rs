//! Query strings: fields of the form `key=value`, percent-encoded and joined
//! by `&`.

use vstd::prelude::*;
use vstd::utf8::encode_utf8;

verus! {

/// Whether a byte stands for itself in a query: an ASCII letter or digit, or
/// one of `*`, `-`, `.` and `_`.
pub open spec fn is_unreserved(b: u8) -> bool {
    ||| 0x30 <= b <= 0x39
    ||| 0x41 <= b <= 0x5a
    ||| 0x61 <= b <= 0x7a
    ||| b == 0x2a
    ||| b == 0x2d
    ||| b == 0x2e
    ||| b == 0x5f
}

/// The upper-case hexadecimal digit for `n`, for `n` in `0..16`.
pub open spec fn hex_char(n: int) -> char {
    if n < 10 {
        (n + '0' as int) as char
    } else {
        (n - 10 + 'A' as int) as char
    }
}

/// How one byte is written in a query: an unreserved byte as itself, a
/// space as `+`, any other byte as `%` and its two hexadecimal digits.
pub open spec fn escaped_byte(b: u8) -> Seq<char> {
    if is_unreserved(b) {
        seq![b as char]
    } else if b == 0x20 {
        seq!['+']
    } else {
        seq!['%', hex_char(b as int / 16), hex_char(b as int % 16)]
    }
}

/// How a run of bytes is written in a query.
pub open spec fn escaped(bytes: Seq<u8>) -> Seq<char>
    decreases bytes.len(),
{
    if bytes.len() == 0 {
        Seq::empty()
    } else {
        escaped(bytes.drop_last()) + escaped_byte(bytes.last())
    }
}

/// One field of a query: the key and the value, each written by its UTF-8
/// bytes, with `=` between them.
pub open spec fn field_text(key: Seq<char>, value: Seq<char>) -> Seq<char> {
    escaped(encode_utf8(key)) + seq!['='] + escaped(encode_utf8(value))
}

/// Fields joined by `&`.
pub open spec fn joined(fields: Seq<Seq<char>>) -> Seq<char>
    decreases fields.len(),
{
    if fields.len() == 0 {
        Seq::empty()
    } else if fields.len() == 1 {
        fields[0]
    } else {
        joined(fields.drop_last()) + seq!['&'] + fields.last()
    }
}

/// The texts that a vector of strings holds.
pub open spec fn texts(fields: Seq<String>) -> Seq<Seq<char>> {
    fields.map_values(|s: String| s@)
}

#[verifier::external_type_specification]
#[verifier::external_body]
pub struct ExQueryError(serde_qs::Error);

/// Calls `serde_qs::to_string` on a map with the one entry `key` to `value`.
/// For such a map the serializer writes the key and the value through
/// `percent_encode` with its set of bytes to escape, and a space as `+`,
/// with `=` between them; none of its error paths can be taken.
#[verifier::external_body]
fn encode_pair(key: &str, value: &str) -> (r: Result<String, serde_qs::Error>)
    ensures
        r is Ok,
        r matches Ok(s) ==> s@ == field_text(key@, value@),
{
    serde_qs::to_string(&std::collections::BTreeMap::from([(key, value)]))
}

/// Writes one field of a query.
pub fn field(key: &str, value: &str) -> (s: String)
    ensures
        s@ == field_text(key@, value@),
{
    match encode_pair(key, value) {
        Ok(s) => s,
        Err(_) => unreached(),
    }
}

/// Joins the fields of a query by `&`.
pub fn join(fields: &Vec<String>) -> (s: String)
    ensures
        s@ == joined(texts(fields@)),
{
    let mut s = String::new();
    let mut i: usize = 0;
    while i < fields.len()
        invariant
            i <= fields.len(),
            s@ == joined(texts(fields@).take(i as int)),
        decreases fields.len() - i,
    {
        if i > 0 {
            s.append("&");
        }
        s.append(fields[i].as_str());
        proof {
            reveal_strlit("&");
            let all = texts(fields@);
            assert(all.take(i + 1).drop_last() =~= all.take(i as int));
            assert(all.take(i + 1).last() == fields@[i as int]@);
            assert(s@ =~= joined(all.take(i + 1)));
        }
        i += 1;
    }
    proof {
        assert(texts(fields@).take(i as int) =~= texts(fields@));
    }
    s
}

} // verus!
