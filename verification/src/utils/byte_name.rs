//! Names as bytes: the form in which the proxy compares host and header
//! names.

use bytes::Bytes;
use vstd::prelude::*;
use vstd::utf8::encode_utf8;

verus! {

/// `bytes::Bytes`, a shared run of bytes.
#[verifier::external_type_specification]
#[verifier::external_body]
pub struct ExBytes(Bytes);

/// The bytes that a `Bytes` holds, in their order.
pub uninterp spec fn bytes_held(bytes: Bytes) -> Seq<u8>;

/// `Bytes::from` on a `Vec<u8>`: the `Bytes` takes the vector over and holds
/// its bytes.
#[verifier::external_body]
fn bytes_from_vec(vec: Vec<u8>) -> (bytes: Bytes)
    ensures
        bytes_held(bytes) == vec@,
{
    Bytes::from(vec)
}

/// A byte with an ASCII capital letter turned into the small one; every
/// other byte as it is.
pub open spec fn ascii_lowercase(byte: u8) -> u8 {
    if 0x41 <= byte <= 0x5a {
        (byte + 0x20) as u8
    } else {
        byte
    }
}

/// A copy of `bytes`.
fn copied(bytes: &[u8]) -> (copy: Vec<u8>)
    ensures
        copy@ == bytes@,
{
    let mut copy: Vec<u8> = Vec::new();
    let mut i: usize = 0;
    while i < bytes.len()
        invariant
            i <= bytes@.len(),
            copy@ == bytes@.subrange(0, i as int),
        decreases bytes@.len() - i,
    {
        copy.push(bytes[i]);
        i += 1;
    }
    copy
}

/// A copy of `bytes` in which each ASCII capital letter is made small.
fn lowered(bytes: &[u8]) -> (copy: Vec<u8>)
    ensures
        copy@ == bytes@.map_values(|byte: u8| ascii_lowercase(byte)),
{
    let mut copy: Vec<u8> = Vec::new();
    let mut i: usize = 0;
    while i < bytes.len()
        invariant
            i <= bytes@.len(),
            copy@ == bytes@.subrange(0, i as int).map_values(|byte: u8| ascii_lowercase(byte)),
        decreases bytes@.len() - i,
    {
        let byte = bytes[i];
        let low: u8 = if 0x41 <= byte && byte <= 0x5a {
            byte + 0x20
        } else {
            byte
        };
        copy.push(low);
        i += 1;
    }
    copy
}

/// A text that can be had as a name in bytes.
pub trait BytesName: Sized {
    /// The text of the name.
    spec fn text(self) -> Seq<char>;

    /// The name as the bytes of its text in UTF-8.
    fn to_byte_name(self) -> (name: Bytes)
        ensures
            bytes_held(name) == encode_utf8(self.text()),
    ;

    /// The name as the bytes of its text in UTF-8, with each ASCII capital
    /// letter made small. Letters outside ASCII stay as they are.
    fn to_ascii_lowercase_byte_name(self) -> (name: Bytes)
        ensures
            bytes_held(name) == encode_utf8(self.text()).map_values(
                |byte: u8| ascii_lowercase(byte),
            ),
    ;
}

impl<'a> BytesName for &'a str {
    open spec fn text(self) -> Seq<char> {
        self@
    }

    fn to_byte_name(self) -> (name: Bytes) {
        bytes_from_vec(copied(self.as_bytes()))
    }

    fn to_ascii_lowercase_byte_name(self) -> (name: Bytes) {
        bytes_from_vec(lowered(self.as_bytes()))
    }
}

impl BytesName for String {
    open spec fn text(self) -> Seq<char> {
        self@
    }

    fn to_byte_name(self) -> (name: Bytes) {
        bytes_from_vec(copied(self.as_str().as_bytes()))
    }

    fn to_ascii_lowercase_byte_name(self) -> (name: Bytes) {
        bytes_from_vec(lowered(self.as_str().as_bytes()))
    }
}

} // verus!
