use vstd::prelude::*;

use crate::dex::Dex;
use crate::errors::TableIdxError;
use crate::text::push_text;
use crate::traits::parse::TryParseFromBytes;
use crate::utils::{read_u16_le, read_u32_le, u16_le, u32_le};

verus! {

/// One method identifier: eight bytes.
#[derive(Debug, PartialEq, Eq, Clone, Copy)]
pub struct MethodIdItem {
    /// index into the type pool for the class that defines the method
    pub class_idx: u16,
    /// index into the prototype pool for the prototype of the method
    pub proto_idx: u16,
    /// index into the string pool for the name of the method
    pub name_idx: u32,
}

impl MethodIdItem {
    /// The method as text: the defining class, `->`, the name, and the
    /// prototype with its parameters and return type. The class index is
    /// checked first, then the prototype index, then the name index, then the
    /// indices inside the prototype.
    pub open spec fn spec_text(self, dex: Dex) -> Result<Seq<char>, TableIdxError> {
        match dex.type_at(self.class_idx as int) {
            Err(e) => Err(e),
            Ok(class_name) => if self.proto_idx >= dex.proto_ids@.len() {
                Err(TableIdxError::ProtoId(self.proto_idx as usize))
            } else {
                match dex.string_at(self.name_idx as int) {
                    Err(e) => Err(e),
                    Ok(method_name) => match dex.proto_ids@[self.proto_idx as int].spec_text(dex) {
                        Err(e) => Err(e),
                        Ok(proto) => Ok(class_name + "->"@ + method_name + proto),
                    },
                }
            },
        }
    }

    /// Renders the method as `{class}->{name}({parameters}){return type}`.
    pub fn to_human_readable(&self, dex: &Dex) -> (r: Result<String, TableIdxError>)
        ensures
            match self.spec_text(*dex) {
                Ok(text) => r matches Ok(s) && s@ == text,
                Err(e) => r == Err::<String, TableIdxError>(e),
            },
    {
        let class_name: &str = match dex.type_descriptor(self.class_idx as usize) {
            Ok(s) => s,
            Err(e) => {
                return Err(e);
            },
        };
        let proto_idx: usize = self.proto_idx as usize;
        if proto_idx >= dex.proto_ids.len() {
            return Err(TableIdxError::ProtoId(proto_idx));
        }
        let method_name: &str = match dex.string(self.name_idx as usize) {
            Ok(s) => s,
            Err(e) => {
                return Err(e);
            },
        };
        let proto: String = match dex.proto_ids[proto_idx].to_human_readable(dex) {
            Ok(s) => s,
            Err(e) => {
                return Err(e);
            },
        };
        let mut out: String = String::new();
        push_text(&mut out, class_name);
        push_text(&mut out, "->");
        push_text(&mut out, method_name);
        push_text(&mut out, proto.as_str());
        assert(out@ =~= class_name@ + "->"@ + method_name@ + proto@);
        Ok(out)
    }
}

impl TryParseFromBytes for MethodIdItem {
    const NAME: &'static str = "method_id_item";

    const SIZE: usize = 8;

    open spec fn spec_size() -> nat {
        8
    }

    open spec fn spec_name() -> Seq<char> {
        "method_id_item"@
    }

    proof fn lemma_constants() {
        assert(MethodIdItem::SIZE == 8);
        assert(MethodIdItem::NAME@ == "method_id_item"@);
    }

    open spec fn spec_parse(bytes: Seq<u8>) -> Self {
        MethodIdItem {
            class_idx: u16_le(bytes, 0),
            proto_idx: u16_le(bytes, 2),
            name_idx: u32_le(bytes, 4),
        }
    }

    fn parse_from_bytes(buffer: &[u8]) -> (r: Self) {
        let class_idx: u16 = read_u16_le(buffer, 0);
        let proto_idx: u16 = read_u16_le(buffer, 2);
        let name_idx: u32 = read_u32_le(buffer, 4);
        MethodIdItem { class_idx, proto_idx, name_idx }
    }
}

} // verus!
