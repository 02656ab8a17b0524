use vstd::prelude::*;

use crate::dex::Dex;
use crate::errors::TableIdxError;
use crate::text::push_text;
use crate::traits::parse::TryParseFromBytes;
use crate::utils::{read_u16_le, read_u32_le, u16_le, u32_le};

verus! {

/// One field identifier: eight bytes.
#[derive(Debug, PartialEq, Eq, Clone, Copy)]
pub struct FieldIdItem {
    /// index into the type pool for the class that defines the field
    pub class_idx: u16,
    /// index into the type pool for the type of the field
    pub type_idx: u16,
    /// index into the string pool for the name of the field
    pub name_idx: u32,
}

impl FieldIdItem {
    /// The field as text: the defining class, `->`, the name, `:` and the
    /// field's type. The class index is checked first, then the type index,
    /// then the name index; the first that lies outside its pool is reported.
    pub open spec fn spec_text(self, dex: Dex) -> Result<Seq<char>, TableIdxError> {
        match dex.type_at(self.class_idx as int) {
            Err(e) => Err(e),
            Ok(class_name) => match dex.type_at(self.type_idx as int) {
                Err(e) => Err(e),
                Ok(field_type) => match dex.string_at(self.name_idx as int) {
                    Err(e) => Err(e),
                    Ok(field_name) => Ok(class_name + "->"@ + field_name + ":"@ + field_type),
                },
            },
        }
    }

    /// Renders the field as `{class}->{name}:{type}`.
    pub fn to_human_readable(&self, dex: &Dex) -> (r: Result<String, TableIdxError>)
        ensures
            match self.spec_text(*dex) {
                Ok(text) => r matches Ok(s) && s@ == text,
                Err(e) => r == Err::<String, TableIdxError>(e),
            },
    {
        let class_name: &str = match dex.type_descriptor(self.class_idx as usize) {
            Ok(s) => s,
            Err(e) => {
                return Err(e);
            },
        };
        let field_type: &str = match dex.type_descriptor(self.type_idx as usize) {
            Ok(s) => s,
            Err(e) => {
                return Err(e);
            },
        };
        let field_name: &str = match dex.string(self.name_idx as usize) {
            Ok(s) => s,
            Err(e) => {
                return Err(e);
            },
        };
        let mut out: String = String::new();
        push_text(&mut out, class_name);
        push_text(&mut out, "->");
        push_text(&mut out, field_name);
        push_text(&mut out, ":");
        push_text(&mut out, field_type);
        assert(out@ =~= class_name@ + "->"@ + field_name@ + ":"@ + field_type@);
        Ok(out)
    }
}

impl TryParseFromBytes for FieldIdItem {
    const NAME: &'static str = "field_id_item";

    const SIZE: usize = 8;

    open spec fn spec_size() -> nat {
        8
    }

    open spec fn spec_name() -> Seq<char> {
        "field_id_item"@
    }

    proof fn lemma_constants() {
        assert(FieldIdItem::SIZE == 8);
        assert(FieldIdItem::NAME@ == "field_id_item"@);
    }

    open spec fn spec_parse(bytes: Seq<u8>) -> Self {
        FieldIdItem {
            class_idx: u16_le(bytes, 0),
            type_idx: u16_le(bytes, 2),
            name_idx: u32_le(bytes, 4),
        }
    }

    fn parse_from_bytes(buffer: &[u8]) -> (r: Self) {
        let class_idx: u16 = read_u16_le(buffer, 0);
        let type_idx: u16 = read_u16_le(buffer, 2);
        let name_idx: u32 = read_u32_le(buffer, 4);
        FieldIdItem { class_idx, type_idx, name_idx }
    }
}

} // verus!
