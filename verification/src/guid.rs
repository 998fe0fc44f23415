//! Globally unique identifiers, as DirectPlay names its objects.

use vstd::prelude::*;
use vstd::string::StringExecFns;

use crate::text::{byte_hex, long_hex, push_byte_hex, push_long_hex, push_word_hex, word_hex};

verus! {

/// A 128-bit identifier in the usual grouping: one 32-bit value, two 16-bit
/// values and eight bytes.
#[derive(Debug, Clone, Copy, PartialEq, Eq, Structural)]
pub struct GUID(
    pub u32,
    pub u16,
    pub u16,
    pub u8,
    pub u8,
    pub u8,
    pub u8,
    pub u8,
    pub u8,
    pub u8,
    pub u8,
);

/// A GUID in registry form: in braces, five groups of hex digits with hyphens
/// between them. The third group is written in lower case, the others in
/// upper case.
pub open spec fn guid_text(g: GUID) -> Seq<char> {
    seq!['{'] + long_hex(g.0, true) + seq!['-'] + word_hex(g.1, true) + seq!['-'] + word_hex(
        g.2,
        false,
    ) + seq!['-'] + byte_hex(g.3, true) + byte_hex(g.4, true) + seq!['-'] + byte_hex(g.5, true)
        + byte_hex(g.6, true) + byte_hex(g.7, true) + byte_hex(g.8, true) + byte_hex(g.9, true)
        + byte_hex(g.10, true) + seq!['}']
}

impl GUID {
    /// The GUID in registry form.
    pub fn to_string(&self) -> (r: String)
        ensures
            r@ == guid_text(*self),
    {
        proof {
            reveal_strlit("{");
            reveal_strlit("-");
            reveal_strlit("}");
        }
        let mut out = String::from_str("{");
        assert(out@ =~= seq!['{']);
        push_long_hex(&mut out, self.0, true);
        out.append("-");
        push_word_hex(&mut out, self.1, true);
        out.append("-");
        push_word_hex(&mut out, self.2, false);
        out.append("-");
        push_byte_hex(&mut out, self.3, true);
        push_byte_hex(&mut out, self.4, true);
        out.append("-");
        push_byte_hex(&mut out, self.5, true);
        push_byte_hex(&mut out, self.6, true);
        push_byte_hex(&mut out, self.7, true);
        push_byte_hex(&mut out, self.8, true);
        push_byte_hex(&mut out, self.9, true);
        push_byte_hex(&mut out, self.10, true);
        out.append("}");
        assert("-"@ =~= seq!['-']);
        assert("}"@ =~= seq!['}']);
        assert(out@ =~= guid_text(*self));
        out
    }
}

} // verus!
