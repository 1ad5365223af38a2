//! The call into the `bytesize` crate.
use vstd::prelude::*;
use crate::text::parse_unsigned;

verus! {

/// What `text.parse::<ByteSize>()` gives, as a number of bytes.
pub uninterp spec fn parsed_byte_size(text: Seq<char>) -> Option<u64>;

/// Parses a size such as `1.2 GB` with `ByteSize`'s `FromStr`. That parser
/// first tries the text as a plain `u64`, which the second clause states; what
/// it makes of sizes with a unit is only named.
#[verifier::external_body]
pub(crate) fn call_parse_byte_size(text: &str) -> (r: Option<u64>)
    ensures
        r == parsed_byte_size(text@),
        parse_unsigned(text@, u64::MAX as nat) matches Some(v) ==> r == Some(v as u64),
{
    text.parse::<bytesize::ByteSize>().ok().map(|b| b.0)
}

} // verus!
