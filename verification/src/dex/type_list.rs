use vstd::prelude::*;
use vstd::slice::slice_subrange;

use crate::errors::DexParseError;
use crate::traits::parse::TryParseFromBytes;
use crate::utils::{read_u16_le, read_u32_le, u16_le, u32_le};

verus! {

/// A list of types: a 32-bit count and that many 16-bit type indices.
pub struct TypeList {
    /// elements of the list
    pub list: Vec<TypeItem>,
}

/// One element of a type list.
#[derive(Debug, PartialEq, Eq, Clone, Copy)]
pub struct TypeItem {
    /// index into the type pool
    pub type_idx: u16,
}

impl TryParseFromBytes for TypeItem {
    const NAME: &'static str = "type_item";

    const SIZE: usize = 2;

    open spec fn spec_size() -> nat {
        2
    }

    open spec fn spec_name() -> Seq<char> {
        "type_item"@
    }

    proof fn lemma_constants() {
        assert(TypeItem::SIZE == 2);
        assert(TypeItem::NAME@ == "type_item"@);
    }

    open spec fn spec_parse(bytes: Seq<u8>) -> Self {
        TypeItem { type_idx: u16_le(bytes, 0) }
    }

    fn parse_from_bytes(buffer: &[u8]) -> (r: Self) {
        TypeItem { type_idx: read_u16_le(buffer, 0) }
    }
}

/// The number of bytes that the type list at the front of `s` occupies:
/// four for the count and two for each element.
pub open spec fn type_list_size(s: Seq<u8>) -> int {
    4 + 2 * u32_le(s, 0)
}

/// Whether a whole type list stands at the front of `s`.
pub open spec fn type_list_fits(s: Seq<u8>) -> bool {
    s.len() >= 4 && s.len() >= type_list_size(s)
}

/// The elements of the type list at the front of `s`.
pub open spec fn type_list_items(s: Seq<u8>) -> Seq<TypeItem> {
    Seq::new(u32_le(s, 0) as nat, |i: int| TypeItem { type_idx: u16_le(s, 4 + 2 * i) })
}

/// `n` where it is a `usize`, and the largest `usize` where it is more.
pub open spec fn clamp_to_usize(n: int) -> usize {
    if n <= usize::MAX {
        n as usize
    } else {
        usize::MAX
    }
}

impl TypeList {
    pub const NAME: &'static str = "type_list";

    /// Reads the type list at the front of `buffer`; bytes after it are
    /// ignored. Fails where the buffer ends before the count does, or before
    /// the last element does.
    pub fn try_parse_from_bytes_unsized(buffer: &[u8]) -> (r: Result<TypeList, DexParseError>)
        ensures
            type_list_fits(buffer@) ==> (r matches Ok(tl) && tl.list@ == type_list_items(buffer@)),
            !type_list_fits(buffer@) ==> (r matches Err(
                DexParseError::InvalidElementSize { field, expected, actual },
            ) && field@ == "type_list"@ && actual == buffer@.len() && expected == (if buffer@.len()
                < 4 {
                4usize
            } else {
                clamp_to_usize(type_list_size(buffer@))
            })),
    {
        if buffer.len() < 4 {
            return Err(
                DexParseError::InvalidElementSize {
                    field: TypeList::NAME,
                    expected: 4,
                    actual: buffer.len(),
                },
            );
        }
        let size: u32 = read_u32_le(buffer, 0);
        let needed: u64 = 4 + 2 * (size as u64);
        if (buffer.len() as u64) < needed {
            let expected: usize = if needed <= usize::MAX as u64 {
                needed as usize
            } else {
                usize::MAX
            };
            return Err(
                DexParseError::InvalidElementSize {
                    field: TypeList::NAME,
                    expected,
                    actual: buffer.len(),
                },
            );
        }
        let count: usize = size as usize;
        let end: usize = buffer.len();
        let mut list: Vec<TypeItem> = Vec::new();
        let mut i: usize = 0;
        while i < count
            invariant
                i <= count,
                end == buffer@.len(),
                count == u32_le(buffer@, 0),
                4 + 2 * count <= buffer@.len() <= usize::MAX,
                list@.len() == i,
                forall|k: int| 0 <= k < i ==> list@[k] == type_list_items(buffer@)[k],
            decreases count - i,
        {
            let offset: usize = 4 + i * 2;
            let item: TypeItem = TypeItem::parse_from_bytes(
                slice_subrange(buffer, offset, end),
            );
            list.push(item);
            i += 1;
        }
        assert(list@ =~= type_list_items(buffer@));
        Ok(TypeList { list })
    }
}

} // verus!
