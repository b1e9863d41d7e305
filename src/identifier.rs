//! The store's document identifier: twelve bytes, written as 24 hex digits.
use vstd::prelude::*;

verus! {

/// Whether `c` is a hexadecimal digit, in either case.
pub open spec fn is_hex_digit(c: char) -> bool {
    ('0' <= c && c <= '9') || ('a' <= c && c <= 'f') || ('A' <= c && c <= 'F')
}

/// The value of the hexadecimal digit `c`.
pub open spec fn hex_value(c: char) -> int {
    if '0' <= c && c <= '9' {
        (c as int) - ('0' as int)
    } else if 'a' <= c && c <= 'f' {
        (c as int) - ('a' as int) + 10
    } else {
        (c as int) - ('A' as int) + 10
    }
}

/// The lower-case hexadecimal digit for `v` (`v < 16`).
pub open spec fn lower_digit(v: int) -> char {
    if v < 10 {
        (('0' as int) + v) as char
    } else {
        (('a' as int) + v - 10) as char
    }
}

/// Whether `s` is the external form of an identifier: exactly 24 hex digits.
pub open spec fn is_identifier_text(s: Seq<char>) -> bool {
    s.len() == 24 && forall|i: int| 0 <= i < s.len() ==> #[trigger] is_hex_digit(s[i])
}

/// The bytes that a string of hex digits stands for, two digits per byte,
/// the high half first.
pub open spec fn hex_decode(s: Seq<char>) -> Seq<u8> {
    Seq::new(
        (s.len() / 2) as nat,
        |i: int| (hex_value(s[2 * i]) * 16 + hex_value(s[2 * i + 1])) as u8,
    )
}

/// The lower-case hex text of `b`, two digits per byte, the high half first.
pub open spec fn hex_encode(b: Seq<u8>) -> Seq<char> {
    Seq::new(
        2 * b.len(),
        |i: int|
            if i % 2 == 0 {
                lower_digit(b[i / 2] as int / 16)
            } else {
                lower_digit(b[i / 2] as int % 16)
            },
    )
}

/// Declares bson's error for a malformed identifier string.
#[verifier::external_type_specification]
#[verifier::external_body]
pub struct ExOidError(bson::oid::Error);

/// Relies on bson's `ObjectId::parse_str`: it hex-decodes the string (either
/// case) and accepts it exactly when that yields twelve bytes.
#[verifier::external_body]
fn parse_object_id(s: &str) -> (r: Result<[u8; 12], bson::oid::Error>)
    ensures
        r is Ok <==> is_identifier_text(s@),
        r is Ok ==> r->Ok_0@ == hex_decode(s@),
{
    bson::oid::ObjectId::parse_str(s).map(|o| o.bytes())
}

/// Relies on bson's `ObjectId::to_hex`: lower-case hex of the twelve bytes.
#[verifier::external_body]
fn object_id_hex(b: [u8; 12]) -> (r: String)
    ensures
        r@ == hex_encode(b@),
{
    bson::oid::ObjectId::from_bytes(b).to_hex()
}

/// A store-assigned document identifier.
#[derive(Clone, Copy, Debug, PartialEq, Eq, PartialOrd, Ord)]
pub struct Identifier {
    pub bytes: [u8; 12],
}

impl Identifier {
    /// The identifier's bytes, as a sequence.
    pub open spec fn view(&self) -> Seq<u8> {
        self.bytes@
    }

    /// Parses the external form of an identifier. Any text that is not
    /// exactly 24 hex digits is refused.
    pub fn parse(text: &str) -> (r: Option<Identifier>)
        ensures
            r is Some <==> is_identifier_text(text@),
            r is Some ==> r->Some_0@ == hex_decode(text@),
    {
        match parse_object_id(text) {
            Ok(bytes) => Some(Identifier { bytes }),
            Err(_) => None,
        }
    }

    /// The external form: 24 lower-case hex digits.
    pub fn render(&self) -> (r: String)
        ensures
            r@ == hex_encode(self@),
    {
        object_id_hex(self.bytes)
    }
}

/// Rendering an identifier always gives text that parses back to it.
pub proof fn lemma_render_parses(b: Seq<u8>)
    requires
        b.len() == 12,
    ensures
        is_identifier_text(hex_encode(b)),
        hex_decode(hex_encode(b)) == b,
{
    let s = hex_encode(b);
    assert forall|i: int| 0 <= i < s.len() implies #[trigger] is_hex_digit(s[i]) by {
        let v = if i % 2 == 0 { b[i / 2] as int / 16 } else { b[i / 2] as int % 16 };
        assert(0 <= v < 16);
    }
    assert forall|i: int| 0 <= i < 12 implies #[trigger] hex_decode(s)[i] == b[i] by {
        assert((2 * i) % 2 == 0);
        assert((2 * i + 1) % 2 == 1);
        assert((2 * i) / 2 == i);
        assert((2 * i + 1) / 2 == i);
        let x = b[i] as int;
        assert(x == (x / 16) * 16 + x % 16);
    }
    assert(hex_decode(s) =~= b);
}

} // verus!
