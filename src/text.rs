use vstd::prelude::*;
use vstd::string::{StrSliceExecFns, StringExecFns, StringSliceAdditionalSpecFns};
use vstd::utf8::{decode_utf8, encode_utf8_decode_utf8};

verus! {

/// Shortens `text` for display: kept whole when its byte length is at most
/// `max_length`, else its first `max_length - 3` bytes followed by `...`.
pub fn truncate_text(text: &str, max_length: usize) -> (r: String)
    requires
        text.spec_bytes().len() > max_length ==> max_length >= 3
            && vstd::utf8::is_char_boundary(text.spec_bytes(), max_length - 3),
    ensures
        text.spec_bytes().len() <= max_length ==> r@ == text@,
        text.spec_bytes().len() > max_length ==> r@ == decode_utf8(
            text.spec_bytes().subrange(0, max_length - 3),
        ) + "..."@,
{
    let byte_len = text.as_bytes().len();
    if byte_len <= max_length {
        String::from_str(text)
    } else {
        let (head, _) = text.split_at(max_length - 3);
        proof {
            encode_utf8_decode_utf8(head@);
        }
        String::from_str(head).concat("...")
    }
}

} // verus!
