use vstd::prelude::*;

verus! {

/// The value of a hexadecimal digit of either case.
pub open spec fn hex_digit_value(c: char) -> Option<u8> {
    if '0' <= c && c <= '9' {
        Some(((c as u32) - ('0' as u32)) as u8)
    } else if 'a' <= c && c <= 'f' {
        Some(((c as u32) - ('a' as u32) + 10) as u8)
    } else if 'A' <= c && c <= 'F' {
        Some(((c as u32) - ('A' as u32) + 10) as u8)
    } else {
        None
    }
}

/// The text form of a store id: exactly 24 hexadecimal digits.
pub open spec fn is_id_text(s: Seq<char>) -> bool {
    s.len() == 24 && forall|i: int| 0 <= i < 24 ==> (#[trigger] hex_digit_value(s[i])) is Some
}

/// The 12 bytes that 24 hexadecimal digits spell, two digits per byte, high digit first.
pub open spec fn id_bytes_of(s: Seq<char>) -> Seq<u8> {
    Seq::new(
        12,
        |i: int| (hex_digit_value(s[2 * i])->0 * 16 + hex_digit_value(s[2 * i + 1])->0) as u8,
    )
}

/// The lower-case hexadecimal digit of a value below 16.
pub open spec fn lower_hex_digit(v: u8) -> char {
    seq!['0', '1', '2', '3', '4', '5', '6', '7', '8', '9', 'a', 'b', 'c', 'd', 'e', 'f'][v as int]
}

/// Lower-case hexadecimal text of a byte sequence, two digits per byte.
pub open spec fn lower_hex_of(b: Seq<u8>) -> Seq<char> {
    Seq::new(
        2 * b.len(),
        |i: int|
            if i % 2 == 0 {
                lower_hex_digit(b[i / 2] / 16)
            } else {
                lower_hex_digit(b[i / 2] % 16)
            },
    )
}

/// The identity that the document store assigns to a record.
#[derive(Clone, Copy, Debug, PartialEq, Eq)]
pub struct RecordId {
    pub bytes: [u8; 12],
}

/// Relies on bson's `ObjectId::parse_str`, which hex-decodes the text (either
/// case) and accepts it only when it decodes to exactly 12 bytes.
#[verifier::external_body]
fn object_id_parse(s: &str) -> (r: Result<[u8; 12], String>)
    ensures
        r is Ok <==> is_id_text(s@),
        r matches Ok(b) ==> b@ == id_bytes_of(s@),
{
    bson::oid::ObjectId::parse_str(s).map(|o| o.bytes()).map_err(|e| e.to_string())
}

/// Relies on bson's `ObjectId::to_hex`, which hex-encodes the 12 bytes in lower case.
#[verifier::external_body]
fn object_id_hex(b: [u8; 12]) -> (r: String)
    ensures
        r@ == lower_hex_of(b@),
{
    bson::oid::ObjectId::from_bytes(b).to_hex()
}

impl RecordId {
    /// Parses the text form of an id; anything but 24 hexadecimal digits is refused
    /// with the store library's explanation.
    pub fn parse(s: &str) -> (r: Result<RecordId, String>)
        ensures
            r is Ok <==> is_id_text(s@),
            r matches Ok(id) ==> id.bytes@ == id_bytes_of(s@),
    {
        match object_id_parse(s) {
            Ok(b) => Ok(RecordId { bytes: b }),
            Err(m) => Err(m),
        }
    }

    /// The text form of the id: 24 lower-case hexadecimal digits.
    pub fn to_hex(&self) -> (r: String)
        ensures
            r@ == lower_hex_of(self.bytes@),
    {
        object_id_hex(self.bytes)
    }
}

/// Printing an id and parsing the text back gives the same id.
pub proof fn lemma_id_text_round_trip(b: Seq<u8>)
    requires
        b.len() == 12,
    ensures
        is_id_text(lower_hex_of(b)),
        id_bytes_of(lower_hex_of(b)) == b,
{
    let s = lower_hex_of(b);
    assert forall|v: u8| v < 16 implies hex_digit_value(#[trigger] lower_hex_digit(v)) == Some(v) by {
        assert(v == 0 || v == 1 || v == 2 || v == 3 || v == 4 || v == 5 || v == 6 || v == 7 || v == 8
            || v == 9 || v == 10 || v == 11 || v == 12 || v == 13 || v == 14 || v == 15);
    }
    assert forall|i: int| 0 <= i < 24 implies (#[trigger] hex_digit_value(s[i])) is Some by {
        if i % 2 == 0 {
            assert(b[i / 2] / 16 < 16);
            assert(hex_digit_value(lower_hex_digit(b[i / 2] / 16)) is Some);
        } else {
            assert(b[i / 2] % 16 < 16);
            assert(hex_digit_value(lower_hex_digit(b[i / 2] % 16)) is Some);
        }
    }
    assert forall|i: int| 0 <= i < 12 implies (#[trigger] id_bytes_of(s)[i]) == b[i] by {
        let hi = b[i] / 16;
        let lo = b[i] % 16;
        assert((2 * i) / 2 == i && (2 * i) % 2 == 0);
        assert((2 * i + 1) / 2 == i && (2 * i + 1) % 2 == 1);
        assert(hex_digit_value(lower_hex_digit(hi)) == Some(hi));
        assert(hex_digit_value(lower_hex_digit(lo)) == Some(lo));
        assert(hi * 16 + lo == b[i]);
    }
    assert(id_bytes_of(s) =~= b);
}

} // verus!
