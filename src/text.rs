use vstd::prelude::*;
use vstd::string::StringExecFns;

use crate::protocol::{decimal_of, u32_text};
use crate::report::{decode_utf8, utf8_decoded};

verus! {

/// The byte values of `s` in decimal, separated by `, `.
pub open spec fn byte_items_text(s: Seq<u8>) -> Seq<char>
    decreases s.len(),
{
    if s.len() == 0 {
        seq![]
    } else if s.len() == 1 {
        decimal_of(s[0] as nat)
    } else {
        byte_items_text(s.drop_last()) + seq![',', ' '] + decimal_of(s.last() as nat)
    }
}

/// The bytes written as a list: `[` and `]` around their decimal values.
pub open spec fn byte_list_text(s: Seq<u8>) -> Seq<char> {
    seq!['['] + byte_items_text(s) + seq![']']
}

/// Readable text for bytes that a worker printed: the text itself when the
/// bytes are UTF-8, and otherwise the list of their values.
pub fn convert(v: &[u8]) -> (r: String)
    ensures
        match utf8_decoded(v@) {
            Some(t) => r@ == t,
            None => r@ == byte_list_text(v@),
        },
{
    if let Some(t) = decode_utf8(v) {
        return t.to_owned();
    }
    let mut out = String::from_str("[");
    proof {
        reveal_strlit("[");
    }
    let mut i: usize = 0;
    while i < v.len()
        invariant
            i <= v@.len(),
            out@ == seq!['['] + byte_items_text(v@.take(i as int)),
        decreases v@.len() - i,
    {
        proof {
            reveal_strlit(", ");
        }
        if i > 0 {
            out.append(", ");
        }
        out.append(u32_text(v[i] as u32).as_str());
        proof {
            let t = v@.take(i + 1);
            assert(t.drop_last() =~= v@.take(i as int));
            assert(t.last() == v@[i as int]);
        }
        i = i + 1;
    }
    proof {
        reveal_strlit("]");
    }
    out.append("]");
    assert(v@.take(v@.len() as int) =~= v@);
    out
}

} // verus!
