//! Text of the task list rows.
use vstd::prelude::*;
use vstd::string::StringSliceAdditionalSpecFns;
use vstd::utf8::{decode_utf8, encode_utf8_decode_utf8, is_char_boundary};

use crate::text::owned;

verus! {

/// `s` cut to fit `max_len` bytes: unchanged when it fits, else its first
/// `max_len - 2` bytes followed by "..".
pub fn truncate(s: &str, max_len: usize) -> (r: String)
    requires
        max_len >= 2,
        s.spec_bytes().len() <= usize::MAX,
        s.spec_bytes().len() > max_len ==> is_char_boundary(s.spec_bytes(), max_len - 2),
    ensures
        s.spec_bytes().len() <= max_len ==> r@ == s@,
        s.spec_bytes().len() > max_len ==> r@ == decode_utf8(s.spec_bytes().take(max_len - 2))
            + ".."@,
{
    if s.len() <= max_len {
        owned(s)
    } else {
        let (head, _) = s.split_at(max_len - 2);
        proof {
            encode_utf8_decode_utf8(head@);
            assert(head.spec_bytes() =~= s.spec_bytes().take(max_len - 2));
        }
        let mut r = owned(head);
        r.append("..");
        r
    }
}

} // verus!
