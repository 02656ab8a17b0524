use vstd::prelude::*;

use crate::traits::parse::TryParseFromBytes;
use crate::utils::{read_u32_le, u32_le};

verus! {

/// The index value that stands for "no index".
pub const NO_INDEX: u32 = 0xFFFF_FFFF;

/// One class definition: 32 bytes of indices and offsets.
#[derive(Debug, PartialEq, Eq, Clone, Copy)]
pub struct ClassDefItem {
    /// index into the type pool for this class
    pub class_idx: u32,
    /// access flags of the class
    pub access_flags: u32,
    /// index into the type pool for the superclass, or `NO_INDEX`
    pub superclass_idx: u32,
    /// offset from the start of the file to the list of interfaces, or 0
    pub interfaces_off: u32,
    /// index into the string pool for the source file's name, or `NO_INDEX`
    pub source_file_idx: u32,
    /// offset from the start of the file to the annotations, or 0
    pub annotations_off: u32,
    /// offset from the start of the file to the class data, or 0
    pub class_data_off: u32,
    /// offset from the start of the file to the initial static values, or 0
    pub static_values_off: u32,
}

impl TryParseFromBytes for ClassDefItem {
    const NAME: &'static str = "class_def_item";

    const SIZE: usize = 32;

    open spec fn spec_size() -> nat {
        32
    }

    open spec fn spec_name() -> Seq<char> {
        "class_def_item"@
    }

    proof fn lemma_constants() {
        assert(ClassDefItem::SIZE == 32);
        assert(ClassDefItem::NAME@ == "class_def_item"@);
    }

    open spec fn spec_parse(bytes: Seq<u8>) -> Self {
        ClassDefItem {
            class_idx: u32_le(bytes, 0),
            access_flags: u32_le(bytes, 4),
            superclass_idx: u32_le(bytes, 8),
            interfaces_off: u32_le(bytes, 12),
            source_file_idx: u32_le(bytes, 16),
            annotations_off: u32_le(bytes, 20),
            class_data_off: u32_le(bytes, 24),
            static_values_off: u32_le(bytes, 28),
        }
    }

    fn parse_from_bytes(buffer: &[u8]) -> (r: Self) {
        let class_idx: u32 = read_u32_le(buffer, 0);
        let access_flags: u32 = read_u32_le(buffer, 4);
        let superclass_idx: u32 = read_u32_le(buffer, 8);
        let interfaces_off: u32 = read_u32_le(buffer, 12);
        let source_file_idx: u32 = read_u32_le(buffer, 16);
        let annotations_off: u32 = read_u32_le(buffer, 20);
        let class_data_off: u32 = read_u32_le(buffer, 24);
        let static_values_off: u32 = read_u32_le(buffer, 28);
        ClassDefItem {
            class_idx,
            access_flags,
            superclass_idx,
            interfaces_off,
            source_file_idx,
            annotations_off,
            class_data_off,
            static_values_off,
        }
    }
}

} // verus!
