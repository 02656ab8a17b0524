use vstd::prelude::*;

use crate::text::{push_text, push_unsigned, decimal_digits};
use crate::traits::parse::TryParseFromBytes;
use crate::utils::{read_u32_le, u32_le};

verus! {

/// One call site identifier: the offset of the call site's definition.
#[derive(Debug, PartialEq, Eq, Clone, Copy)]
pub struct CallSiteIdItem {
    /// offset from the start of the file to the call site definition
    pub call_site_off: u32,
}

impl TryParseFromBytes for CallSiteIdItem {
    const NAME: &'static str = "call_site_id_item";

    const SIZE: usize = 4;

    open spec fn spec_size() -> nat {
        4
    }

    open spec fn spec_name() -> Seq<char> {
        "call_site_id_item"@
    }

    proof fn lemma_constants() {
        assert(CallSiteIdItem::SIZE == 4);
        assert(CallSiteIdItem::NAME@ == "call_site_id_item"@);
    }

    open spec fn spec_parse(bytes: Seq<u8>) -> Self {
        CallSiteIdItem { call_site_off: u32_le(bytes, 0) }
    }

    fn parse_from_bytes(buffer: &[u8]) -> (r: Self) {
        CallSiteIdItem { call_site_off: read_u32_le(buffer, 0) }
    }
}

impl CallSiteIdItem {
    /// The call site as it appears in an instruction's text: the record's
    /// name and its field with its value.
    pub open spec fn spec_text(self) -> Seq<char> {
        "CallSiteIdItem { call_site_off: "@ + decimal_digits(self.call_site_off as nat) + " }"@
    }

    /// Appends the call site's text to `out`.
    pub fn push_human_readable(&self, out: &mut String)
        ensures
            final(out)@ == old(out)@ + self.spec_text(),
    {
        push_text(out, "CallSiteIdItem { call_site_off: ");
        push_unsigned(out, self.call_site_off as u64);
        push_text(out, " }");
    }
}

} // verus!
