//! What an adaptation service hands back when it fails.
use crate::id::{all_ascii_string, write_hex_id, hex_id_text};
use crate::text::ascii_chars;
use vstd::prelude::*;

verus! {

/// A numeric failure tag returned by an adaptation callback.
#[derive(Debug, Copy, Clone, PartialEq, Eq, Structural, Hash, Default)]
pub struct ErrorCode(pub u16);

/// The bytes of `error code: `.
pub open spec fn error_code_prefix() -> Seq<u8> {
    seq![0x65u8, 0x72u8, 0x72u8, 0x6Fu8, 0x72u8, 0x20u8, 0x63u8, 0x6Fu8, 0x64u8, 0x65u8, 0x3Au8, 0x20u8]
}

impl ErrorCode {
    /// The code as `error code: 0x..`, with upper-case hexadecimal digits.
    pub fn to_string(&self) -> (r: String)
        ensures
            r@ == ascii_chars(error_code_prefix() + hex_id_text(self.0 as usize)),
    {
        let mut v: Vec<u8> = vec![0x65u8, 0x72u8, 0x72u8, 0x6Fu8, 0x72u8, 0x20u8, 0x63u8, 0x6Fu8, 0x64u8, 0x65u8, 0x3Au8, 0x20u8];
        write_hex_id(self.0 as usize, &mut v);
        proof {
            crate::id::lemma_hex_id_ascii(self.0 as usize);
            assert(v@ =~= error_code_prefix() + hex_id_text(self.0 as usize));
        }
        all_ascii_string(v)
    }
}

impl From<u16> for ErrorCode {
    fn from(ec: u16) -> (r: ErrorCode)
        ensures
            r == ErrorCode(ec),
    {
        ErrorCode(ec)
    }
}

impl vstd::std_specs::convert::FromSpecImpl<u16> for ErrorCode {
    open spec fn obeys_from_spec() -> bool {
        true
    }

    open spec fn from_spec(ec: u16) -> ErrorCode {
        ErrorCode(ec)
    }
}

} // verus!
