use vstd::prelude::*;

use crate::text::{push_text, push_unsigned, decimal_digits};
use crate::traits::parse::TryParseFromBytes;
use crate::utils::{read_u16_le, u16_le};

verus! {

/// One method handle: eight bytes, of which the first and third 16-bit words
/// are used.
#[derive(Debug, PartialEq, Eq, Clone, Copy)]
pub struct MethodHandleItem {
    /// type of the method handle
    pub method_handle_type: u16,
    /// field or method id, depending on the type of the handle
    pub field_or_method_id: u16,
}

impl TryParseFromBytes for MethodHandleItem {
    const NAME: &'static str = "method_handle_item";

    const SIZE: usize = 8;

    open spec fn spec_size() -> nat {
        8
    }

    open spec fn spec_name() -> Seq<char> {
        "method_handle_item"@
    }

    proof fn lemma_constants() {
        assert(MethodHandleItem::SIZE == 8);
        assert(MethodHandleItem::NAME@ == "method_handle_item"@);
    }

    open spec fn spec_parse(bytes: Seq<u8>) -> Self {
        MethodHandleItem {
            method_handle_type: u16_le(bytes, 0),
            field_or_method_id: u16_le(bytes, 4),
        }
    }

    fn parse_from_bytes(buffer: &[u8]) -> (r: Self) {
        let method_handle_type: u16 = read_u16_le(buffer, 0);
        let field_or_method_id: u16 = read_u16_le(buffer, 4);
        MethodHandleItem { method_handle_type, field_or_method_id }
    }
}

impl MethodHandleItem {
    /// The handle as it appears in an instruction's text: the record's name
    /// and its two fields with their values.
    pub open spec fn spec_text(self) -> Seq<char> {
        "MethodHandleItem { method_handle_type: "@ + decimal_digits(self.method_handle_type as nat)
            + ", field_or_method_id: "@ + decimal_digits(self.field_or_method_id as nat) + " }"@
    }

    /// Appends the handle's text to `out`.
    pub fn push_human_readable(&self, out: &mut String)
        ensures
            final(out)@ == old(out)@ + self.spec_text(),
    {
        push_text(out, "MethodHandleItem { method_handle_type: ");
        push_unsigned(out, self.method_handle_type as u64);
        push_text(out, ", field_or_method_id: ");
        push_unsigned(out, self.field_or_method_id as u64);
        push_text(out, " }");
    }
}

} // verus!
