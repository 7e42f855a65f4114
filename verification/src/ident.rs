//! Identifiers of channels, runners, triggers, tasks and workers.

use vstd::prelude::*;

use crate::big_endian::{be_bytes, be_value};

verus! {

/// The error that `uuid` reports for bytes which are not an identifier.
#[verifier::external_type_specification]
#[verifier::external_body]
pub struct ExUuidError(uuid::Error);

/// A 128-bit identifier.
#[derive(Debug, Clone, Copy, PartialEq, Eq, Structural)]
pub struct Uuid {
    pub value: u128,
}

/// The lower case hexadecimal digit for `nibble`.
pub open spec fn hex_digit(nibble: u8) -> char {
    if nibble < 10 {
        (nibble + 48) as char
    } else {
        (nibble + 87) as char
    }
}

/// Two lower case hexadecimal digits per byte.
pub open spec fn hex(bytes: Seq<u8>) -> Seq<char> {
    Seq::new(
        2 * bytes.len(),
        |i: int| hex_digit(if i % 2 == 0 { bytes[i / 2] / 16 } else { bytes[i / 2] % 16 }),
    )
}

/// The hyphenated form of an identifier: 8, 4, 4, 4 and 12 hexadecimal digits.
pub open spec fn hyphenated(value: u128) -> Seq<char> {
    let digits = hex(be_bytes(value as nat, 16));
    digits.subrange(0, 8) + seq!['-'] + digits.subrange(8, 12) + seq!['-'] + digits.subrange(12, 16)
        + seq!['-'] + digits.subrange(16, 20) + seq!['-'] + digits.subrange(20, 32)
}

/// Calls `uuid::Uuid::from_slice`, which takes exactly sixteen bytes, most significant first, and
/// refuses every other length. What the error holds is not stated.
#[verifier::external_body]
fn uuid_from_slice(b: &[u8]) -> (result: Result<u128, uuid::Error>)
    ensures
        result is Ok <==> b@.len() == 16,
        result matches Ok(value) ==> value == be_value(b@),
{
    match uuid::Uuid::from_slice(b) {
        Ok(id) => Ok(id.as_u128()),
        Err(e) => Err(e),
    }
}

/// Calls `uuid::Uuid::into_bytes`, which hands out the sixteen bytes, most significant first.
#[verifier::external_body]
fn uuid_into_bytes(value: u128) -> (bytes: [u8; 16])
    ensures
        bytes@ == be_bytes(value as nat, 16),
{
    uuid::Uuid::from_u128(value).into_bytes()
}

/// Calls the `Display` impl of `uuid::Uuid`, which writes the lower case hyphenated form.
#[verifier::external_body]
fn uuid_to_string(value: u128) -> (text: String)
    ensures
        text@ == hyphenated(value),
{
    uuid::Uuid::from_u128(value).to_string()
}

/// Calls `uuid::Uuid::now_v7`, which makes an identifier from the clock and random bits. Of every
/// outcome it holds that the version field is 7 and the variant field is binary 10; the other bits
/// are left open. `uuid` panics when the clock stands before the Unix epoch and when the source of
/// random bits fails.
#[verifier::external_body]
fn uuid_now_v7() -> (value: u128)
    ensures
        value as nat / 0x1000_0000_0000_0000_0000nat % 16 == 7,
        value as nat / 0x4000_0000_0000_0000nat % 4 == 2,
{
    uuid::Uuid::now_v7().as_u128()
}

impl Uuid {
    /// The version field of the identifier.
    pub open spec fn version(self) -> nat {
        self.value as nat / 0x1000_0000_0000_0000_0000nat % 16
    }

    /// The variant field of the identifier.
    pub open spec fn variant(self) -> nat {
        self.value as nat / 0x4000_0000_0000_0000nat % 4
    }

    /// The identifier whose bits are all zero.
    pub fn nil() -> (id: Uuid)
        ensures
            id.value == 0,
    {
        Uuid { value: 0 }
    }

    /// Whether all bits are zero.
    pub fn is_nil(&self) -> (nil: bool)
        ensures
            nil == (self.value == 0),
    {
        self.value == 0
    }

    /// A fresh version 7 identifier. It is never nil.
    pub fn now_v7() -> (id: Uuid)
        ensures
            id.version() == 7,
            id.variant() == 2,
            id.value != 0,
    {
        Uuid { value: uuid_now_v7() }
    }

    /// Reads an identifier from its sixteen bytes, most significant first.
    pub fn from_slice(b: &[u8]) -> (result: Result<Uuid, uuid::Error>)
        ensures
            result is Ok <==> b@.len() == 16,
            result matches Ok(id) ==> id.value == be_value(b@),
    {
        match uuid_from_slice(b) {
            Ok(value) => Ok(Uuid { value }),
            Err(e) => Err(e),
        }
    }

    /// The sixteen bytes of the identifier, most significant first.
    pub fn as_bytes(&self) -> (bytes: [u8; 16])
        ensures
            bytes@ == be_bytes(self.value as nat, 16),
    {
        uuid_into_bytes(self.value)
    }

    /// The lower case hyphenated form of the identifier.
    pub fn to_string(&self) -> (text: String)
        ensures
            text@ == hyphenated(self.value),
    {
        uuid_to_string(self.value)
    }
}

} // verus!
