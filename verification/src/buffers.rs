//! Shared byte buffers, and shared text over them.

use bytes::Bytes;
use bytestring::ByteString;
use vstd::prelude::*;
use vstd::utf8::{
    decode_utf8, decode_utf8_encode_utf8, encode_utf8, valid_utf8,
};

verus! {

/// Declares [`bytes::Bytes`]. Nothing is claimed of it here.
#[verifier::external_type_specification]
#[verifier::external_body]
pub struct ExBytes(Bytes);

/// The bytes that a buffer holds.
pub uninterp spec fn bytes_of(buffer: Bytes) -> Seq<u8>;

/// The description that [`core::str::Utf8Error`] gives of the flaw for which
/// bytes are not UTF-8.
pub uninterp spec fn utf8_flaw(bytes: Seq<u8>) -> Seq<char>;

/// [`Bytes::clone`]: the clone holds the same bytes.
pub assume_specification[ <Bytes as Clone>::clone ](buffer: &Bytes) -> (copy: Bytes)
    ensures
        bytes_of(copy) == bytes_of(*buffer),
;

/// [`Bytes::copy_from_slice`]: the buffer holds the bytes of the slice.
pub assume_specification[ Bytes::copy_from_slice ](data: &[u8]) -> (buffer: Bytes)
    ensures
        bytes_of(buffer) == data@,
;

/// [`ByteString::try_from`] on a buffer, and [`ByteString::into_bytes`]: a string
/// comes about exactly of UTF-8, and keeps the bytes as they are. Of other bytes
/// comes an error, whose description is a function of the bytes.
#[verifier::external_body]
fn check_utf8(buffer: Bytes) -> (checked: Result<Bytes, String>)
    ensures
        checked is Ok <==> valid_utf8(bytes_of(buffer)),
        checked matches Ok(same) ==> bytes_of(same) == bytes_of(buffer),
        checked matches Err(flaw) ==> flaw@ == utf8_flaw(bytes_of(buffer)),
{
    ByteString::try_from(buffer).map(ByteString::into_bytes).map_err(|flaw| flaw.to_string())
}

/// Text that shares the buffer of its UTF-8 encoding.
#[derive(Debug)]
pub struct Text {
    bytes: Bytes,
}

impl View for Text {
    type V = Seq<char>;

    closed spec fn view(&self) -> Seq<char> {
        decode_utf8(bytes_of(self.bytes))
    }
}

impl Text {
    #[verifier::type_invariant]
    closed spec fn is_utf8(&self) -> bool {
        valid_utf8(bytes_of(self.bytes))
    }

    /// The text that a buffer encodes, or a description of why it encodes none.
    pub fn from_bytes(bytes: Bytes) -> (text: Result<Text, String>)
        ensures
            text is Ok <==> valid_utf8(bytes_of(bytes)),
            text matches Ok(t) ==> t@ == decode_utf8(bytes_of(bytes)),
            text matches Err(flaw) ==> flaw@ == utf8_flaw(bytes_of(bytes)),
    {
        match check_utf8(bytes) {
            Ok(bytes) => Ok(Text { bytes }),
            Err(flaw) => Err(flaw),
        }
    }

    /// The buffer of this text's encoding.
    pub fn as_bytes(&self) -> (bytes: &Bytes)
        ensures
            bytes_of(*bytes) == encode_utf8(self@),
    {
        proof {
            use_type_invariant(self);
            decode_utf8_encode_utf8(bytes_of(self.bytes));
        }
        &self.bytes
    }
}

impl Clone for Text {
    fn clone(&self) -> (copy: Text)
        ensures
            copy@ == self@,
    {
        proof {
            use_type_invariant(self);
        }
        Text { bytes: self.bytes.clone() }
    }
}

} // verus!
