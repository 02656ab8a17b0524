use vstd::prelude::*;
use vstd::slice::slice_subrange;

use crate::dex::type_list::{type_list_fits, type_list_items, TypeItem, TypeList};
use crate::dex::Dex;
use crate::errors::TableIdxError;
use crate::text::push_text;
use crate::traits::parse::TryParseFromBytes;
use crate::utils::{read_u32_le, u32_le};

verus! {

/// One method prototype: twelve bytes.
#[derive(Debug, PartialEq, Eq, Clone, Copy)]
pub struct ProtoIdItem {
    /// index into the string pool for the short-form descriptor
    pub shorty_idx: u32,
    /// index into the type pool for the return type
    pub return_type_idx: u32,
    /// offset from the start of the file to the list of parameter types, or
    /// 0 if the prototype has no parameters
    pub parameters_off: u32,
}

/// The parameter types of a prototype whose list stands at `off` in `raw`:
/// none where `off` is 0, and none where no whole type list stands there.
pub open spec fn parameter_types(raw: Seq<u8>, off: int) -> Seq<TypeItem> {
    if 0 < off <= raw.len() && type_list_fits(raw.subrange(off, raw.len() as int)) {
        type_list_items(raw.subrange(off, raw.len() as int))
    } else {
        Seq::empty()
    }
}

/// The descriptors of `items` one after the other, or the first index among
/// them that lies outside the type pool.
pub open spec fn descriptors_text(dex: Dex, items: Seq<TypeItem>) -> Result<
    Seq<char>,
    TableIdxError,
>
    decreases items.len(),
{
    if items.len() == 0 {
        Ok(Seq::empty())
    } else {
        match descriptors_text(dex, items.drop_last()) {
            Err(e) => Err(e),
            Ok(front) => match dex.type_at(items.last().type_idx as int) {
                Err(e) => Err(e),
                Ok(name) => Ok(front + name),
            },
        }
    }
}

impl ProtoIdItem {
    /// The prototype as text: the descriptors of the parameters in round
    /// brackets, then the descriptor of the return type. The return type's
    /// index is checked first, then those of the parameters in order.
    pub open spec fn spec_text(self, dex: Dex) -> Result<Seq<char>, TableIdxError> {
        match dex.type_at(self.return_type_idx as int) {
            Err(e) => Err(e),
            Ok(return_type) => match descriptors_text(
                dex,
                parameter_types(dex.raw@, self.parameters_off as int),
            ) {
                Err(e) => Err(e),
                Ok(parameters) => Ok("("@ + parameters + ")"@ + return_type),
            },
        }
    }

    /// Reads the parameter types of this prototype from the container's bytes.
    pub fn parameters(&self, dex: &Dex) -> (r: Vec<TypeItem>)
        ensures
            r@ == parameter_types(dex.raw@, self.parameters_off as int),
    {
        let off: usize = self.parameters_off as usize;
        if off == 0 || off > dex.raw.len() {
            return Vec::new();
        }
        match TypeList::try_parse_from_bytes_unsized(slice_subrange(dex.raw, off, dex.raw.len())) {
            Ok(type_list) => type_list.list,
            Err(_) => Vec::new(),
        }
    }

    /// Renders the prototype as `({parameters}){return type}`.
    pub fn to_human_readable(&self, dex: &Dex) -> (r: Result<String, TableIdxError>)
        ensures
            match self.spec_text(*dex) {
                Ok(text) => r matches Ok(s) && s@ == text,
                Err(e) => r == Err::<String, TableIdxError>(e),
            },
    {
        let return_type: &str = match dex.type_descriptor(self.return_type_idx as usize) {
            Ok(s) => s,
            Err(e) => {
                return Err(e);
            },
        };
        let parameters: Vec<TypeItem> = self.parameters(dex);
        let mut out: String = String::new();
        push_text(&mut out, "(");
        let mut i: usize = 0;
        while i < parameters.len()
            invariant
                i <= parameters@.len(),
                parameters@ == parameter_types(dex.raw@, self.parameters_off as int),
                dex.type_at(self.return_type_idx as int) is Ok,
                descriptors_text(*dex, parameters@.take(i as int)) matches Ok(front) && out@ == "("@
                    + front,
            decreases parameters@.len() - i,
        {
            let name: &str = match dex.type_descriptor(parameters[i].type_idx as usize) {
                Ok(s) => s,
                Err(e) => {
                    proof {
                        assert(parameters@.take(i as int + 1).drop_last() =~= parameters@.take(
                            i as int,
                        ));
                        assert(parameters@.take(i as int + 1).last() == parameters@[i as int]);
                        lemma_descriptors_text_prefix(*dex, parameters@, i as int + 1);
                    }
                    return Err(e);
                },
            };
            proof {
                assert(parameters@.take(i as int + 1).drop_last() =~= parameters@.take(i as int));
                let front = descriptors_text(*dex, parameters@.take(i as int))->Ok_0;
                assert(("("@ + front) + name@ =~= "("@ + (front + name@));
            }
            push_text(&mut out, name);
            i += 1;
        }
        assert(parameters@.take(i as int) =~= parameters@);
        push_text(&mut out, ")");
        push_text(&mut out, return_type);
        Ok(out)
    }
}

/// An index outside the pool among the first `n` items is reported for the
/// whole list too.
pub proof fn lemma_descriptors_text_prefix(dex: Dex, items: Seq<TypeItem>, n: int)
    requires
        0 <= n <= items.len(),
        descriptors_text(dex, items.take(n)) is Err,
    ensures
        descriptors_text(dex, items) == descriptors_text(dex, items.take(n)),
    decreases items.len(),
{
    if n == items.len() {
        assert(items.take(n) =~= items);
    } else {
        assert(items.drop_last().take(n) =~= items.take(n));
        lemma_descriptors_text_prefix(dex, items.drop_last(), n);
    }
}

impl TryParseFromBytes for ProtoIdItem {
    const NAME: &'static str = "proto_id_item";

    const SIZE: usize = 12;

    open spec fn spec_size() -> nat {
        12
    }

    open spec fn spec_name() -> Seq<char> {
        "proto_id_item"@
    }

    proof fn lemma_constants() {
        assert(ProtoIdItem::SIZE == 12);
        assert(ProtoIdItem::NAME@ == "proto_id_item"@);
    }

    open spec fn spec_parse(bytes: Seq<u8>) -> Self {
        ProtoIdItem {
            shorty_idx: u32_le(bytes, 0),
            return_type_idx: u32_le(bytes, 4),
            parameters_off: u32_le(bytes, 8),
        }
    }

    fn parse_from_bytes(buffer: &[u8]) -> (r: Self) {
        let shorty_idx: u32 = read_u32_le(buffer, 0);
        let return_type_idx: u32 = read_u32_le(buffer, 4);
        let parameters_off: u32 = read_u32_le(buffer, 8);
        ProtoIdItem { shorty_idx, return_type_idx, parameters_off }
    }
}

} // verus!
