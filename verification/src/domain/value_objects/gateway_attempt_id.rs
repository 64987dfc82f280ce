//! The identifier of one attempt to charge through a gateway: a UUID, sent to
//! the gateway as the order's external reference.

use vstd::prelude::*;

use crate::text::digit_char;

verus! {

#[verifier::external_type_specification]
#[verifier::external_body]
pub struct ExUuid(uuid::Uuid);

/// The lower-case hexadecimal digit of `n` (`0 <= n < 16`).
pub open spec fn hex_digit(n: int) -> char {
    if n < 10 {
        digit_char(n)
    } else if n == 10 {
        'a'
    } else if n == 11 {
        'b'
    } else if n == 12 {
        'c'
    } else if n == 13 {
        'd'
    } else if n == 14 {
        'e'
    } else {
        'f'
    }
}

/// The two lower-case hexadecimal digits of `b`, high nibble first.
pub open spec fn hex_byte(b: u8) -> Seq<char> {
    seq![hex_digit((b / 16) as int), hex_digit((b % 16) as int)]
}

/// The lower-case hexadecimal digits of `b`, two per byte.
pub open spec fn hex_bytes(b: Seq<u8>) -> Seq<char>
    decreases b.len(),
{
    if b.len() == 0 {
        seq![]
    } else {
        hex_byte(b[0]) + hex_bytes(b.drop_first())
    }
}

/// The hyphenated lower-case text of the UUID with the 16 bytes `b`:
/// 8, 4, 4, 4 and 12 hexadecimal digits separated by `'-'`.
pub open spec fn uuid_text(b: Seq<u8>) -> Seq<char> {
    hex_bytes(b.subrange(0, 4)) + seq!['-'] + hex_bytes(b.subrange(4, 6)) + seq!['-'] + hex_bytes(
        b.subrange(6, 8),
    ) + seq!['-'] + hex_bytes(b.subrange(8, 10)) + seq!['-'] + hex_bytes(b.subrange(10, 16))
}

/// The 16 bytes that the UUID `u` holds (what `uuid::Uuid::as_bytes` returns).
pub uninterp spec fn uuid_bytes(u: uuid::Uuid) -> Seq<u8>;

/// `uuid::Uuid::from_bytes`: the UUID that holds exactly `bytes` (its source
/// is `Uuid(bytes)`).
#[verifier::external_body]
fn uuid_from_bytes(bytes: [u8; 16]) -> (r: uuid::Uuid)
    ensures
        uuid_bytes(r) == bytes@,
{
    uuid::Uuid::from_bytes(bytes)
}

/// `Display` of `uuid::Uuid` (`to_string`): the crate writes the hyphenated
/// form of the bytes the UUID holds, each byte as two lower-case hex digits,
/// high nibble first, with hyphens after the 4th, 6th, 8th and 10th bytes.
#[verifier::external_body]
fn uuid_string(u: &uuid::Uuid) -> (r: String)
    ensures
        r@ == uuid_text(uuid_bytes(*u)),
{
    u.to_string()
}

/// The identifier of a gateway attempt, kept as the 16 bytes of its UUID.
#[derive(Debug, Clone, Copy, PartialEq, Eq, Hash)]
pub struct GatewayAttemptId {
    bytes: [u8; 16],
}

impl View for GatewayAttemptId {
    type V = Seq<u8>;

    closed spec fn view(&self) -> Seq<u8> {
        self.bytes@
    }
}

impl GatewayAttemptId {
    /// The identifier whose UUID has the bytes `bytes`.
    pub fn from_bytes(bytes: [u8; 16]) -> (r: Self)
        ensures
            r@ == bytes@,
    {
        GatewayAttemptId { bytes }
    }

    /// The 16 bytes of the UUID.
    pub fn as_bytes(&self) -> (r: [u8; 16])
        ensures
            r@ == self@,
    {
        self.bytes
    }

    /// The UUID itself, which holds the identifier's bytes.
    pub fn as_uuid(&self) -> (r: uuid::Uuid)
        ensures
            uuid_bytes(r) == self@,
    {
        uuid_from_bytes(self.bytes)
    }

    /// The hyphenated lower-case text of the UUID.
    pub fn to_uuid_string(&self) -> (r: String)
        ensures
            r@ == uuid_text(self@),
    {
        uuid_string(&uuid_from_bytes(self.bytes))
    }
}

} // verus!
