use vstd::prelude::*;

use crate::traits::parse::TryParseFromBytes;
use crate::utils::{read_u32_le, u32_le};

verus! {

/// The value of `header_size` in the container versions handled here.
pub const HEADER_SIZE: u32 = 0x70;

/// The value of `header_size` in the later container format with several
/// headers in one file.
pub const CONTAINER_HEADER_SIZE: u32 = 0x78;

/// The value of `endian_tag` in a little-endian file.
pub const ENDIAN_CONSTANT: u32 = 0x1234_5678;

/// Whether `magic` is the text `dex`, a line feed, three decimal digits of a
/// version, and a zero byte.
pub open spec fn is_dex_magic(magic: Seq<u8>) -> bool {
    &&& magic.len() == 8
    &&& magic[0] == 0x64
    &&& magic[1] == 0x65
    &&& magic[2] == 0x78
    &&& magic[3] == 0x0A
    &&& 0x30 <= magic[4] <= 0x39
    &&& 0x30 <= magic[5] <= 0x39
    &&& 0x30 <= magic[6] <= 0x39
    &&& magic[7] == 0
}

/// The fixed header at the start of the file: 112 bytes.
#[derive(Debug, PartialEq, Eq, Clone, Copy)]
pub struct HeaderItem {
    /// magic value
    pub magic: [u8; 8],
    /// adler32 checksum of the rest of the file
    pub checksum: u32,
    /// SHA-1 signature of the rest of the file
    pub signature: [u8; 20],
    /// size of the entire file, in bytes
    pub file_size: u32,
    /// size of the header, in bytes: 0x70 in the versions handled here
    pub header_size: u32,
    /// endianness tag
    pub endian_tag: u32,
    /// size of the link section, or 0
    pub link_size: u32,
    /// offset of the link section, or 0
    pub link_off: u32,
    /// offset of the map list
    pub map_off: u32,
    /// count of strings in the string identifiers list
    pub string_ids_size: u32,
    /// offset of the string identifiers list
    pub string_ids_off: u32,
    /// count of elements in the type identifiers list
    pub type_ids_size: u32,
    /// offset of the type identifiers list
    pub type_ids_off: u32,
    /// count of elements in the prototype identifiers list
    pub proto_ids_size: u32,
    /// offset of the prototype identifiers list
    pub proto_ids_off: u32,
    /// count of elements in the field identifiers list
    pub field_ids_size: u32,
    /// offset of the field identifiers list
    pub field_ids_off: u32,
    /// count of elements in the method identifiers list
    pub method_ids_size: u32,
    /// offset of the method identifiers list
    pub method_ids_off: u32,
    /// count of elements in the class definitions list
    pub class_defs_size: u32,
    /// offset of the class definitions list
    pub class_defs_off: u32,
    /// size of the data section, in bytes
    pub data_size: u32,
    /// offset of the data section
    pub data_off: u32,
}

/// The eight bytes at the start of `bytes`.
pub open spec fn magic_of(bytes: Seq<u8>) -> [u8; 8] {
    [bytes[0], bytes[1], bytes[2], bytes[3], bytes[4], bytes[5], bytes[6], bytes[7]]
}

/// The twenty bytes of the signature, which starts at byte 12.
pub open spec fn signature_of(bytes: Seq<u8>) -> [u8; 20] {
    [
        bytes[12], bytes[13], bytes[14], bytes[15], bytes[16], bytes[17], bytes[18], bytes[19],
        bytes[20], bytes[21], bytes[22], bytes[23], bytes[24], bytes[25], bytes[26], bytes[27],
        bytes[28], bytes[29], bytes[30], bytes[31],
    ]
}

impl TryParseFromBytes for HeaderItem {
    const NAME: &'static str = "header_item";

    const SIZE: usize = 112;

    open spec fn spec_size() -> nat {
        112
    }

    open spec fn spec_name() -> Seq<char> {
        "header_item"@
    }

    proof fn lemma_constants() {
        assert(HeaderItem::SIZE == 112);
        assert(HeaderItem::NAME@ == "header_item"@);
    }

    open spec fn spec_parse(bytes: Seq<u8>) -> Self {
        HeaderItem {
            magic: magic_of(bytes),
            checksum: u32_le(bytes, 8),
            signature: signature_of(bytes),
            file_size: u32_le(bytes, 32),
            header_size: u32_le(bytes, 36),
            endian_tag: u32_le(bytes, 40),
            link_size: u32_le(bytes, 44),
            link_off: u32_le(bytes, 48),
            map_off: u32_le(bytes, 52),
            string_ids_size: u32_le(bytes, 56),
            string_ids_off: u32_le(bytes, 60),
            type_ids_size: u32_le(bytes, 64),
            type_ids_off: u32_le(bytes, 68),
            proto_ids_size: u32_le(bytes, 72),
            proto_ids_off: u32_le(bytes, 76),
            field_ids_size: u32_le(bytes, 80),
            field_ids_off: u32_le(bytes, 84),
            method_ids_size: u32_le(bytes, 88),
            method_ids_off: u32_le(bytes, 92),
            class_defs_size: u32_le(bytes, 96),
            class_defs_off: u32_le(bytes, 100),
            data_size: u32_le(bytes, 104),
            data_off: u32_le(bytes, 108),
        }
    }

    fn parse_from_bytes(buffer: &[u8]) -> (r: Self) {
        let magic: [u8; 8] = [
            buffer[0], buffer[1], buffer[2], buffer[3], buffer[4], buffer[5], buffer[6], buffer[7],
        ];
        let signature: [u8; 20] = [
            buffer[12], buffer[13], buffer[14], buffer[15], buffer[16], buffer[17], buffer[18],
            buffer[19], buffer[20], buffer[21], buffer[22], buffer[23], buffer[24], buffer[25],
            buffer[26], buffer[27], buffer[28], buffer[29], buffer[30], buffer[31],
        ];
        assert(magic == magic_of(buffer@));
        assert(signature == signature_of(buffer@));
        HeaderItem {
            magic,
            checksum: read_u32_le(buffer, 8),
            signature,
            file_size: read_u32_le(buffer, 32),
            header_size: read_u32_le(buffer, 36),
            endian_tag: read_u32_le(buffer, 40),
            link_size: read_u32_le(buffer, 44),
            link_off: read_u32_le(buffer, 48),
            map_off: read_u32_le(buffer, 52),
            string_ids_size: read_u32_le(buffer, 56),
            string_ids_off: read_u32_le(buffer, 60),
            type_ids_size: read_u32_le(buffer, 64),
            type_ids_off: read_u32_le(buffer, 68),
            proto_ids_size: read_u32_le(buffer, 72),
            proto_ids_off: read_u32_le(buffer, 76),
            field_ids_size: read_u32_le(buffer, 80),
            field_ids_off: read_u32_le(buffer, 84),
            method_ids_size: read_u32_le(buffer, 88),
            method_ids_off: read_u32_le(buffer, 92),
            class_defs_size: read_u32_le(buffer, 96),
            class_defs_off: read_u32_le(buffer, 100),
            data_size: read_u32_le(buffer, 104),
            data_off: read_u32_le(buffer, 108),
        }
    }
}

impl HeaderItem {
    /// Whether the magic value has the form that every version has.
    pub fn has_dex_magic(&self) -> (r: bool)
        ensures
            r == is_dex_magic(self.magic@),
    {
        let m: &[u8; 8] = &self.magic;
        m[0] == 0x64 && m[1] == 0x65 && m[2] == 0x78 && m[3] == 0x0A && 0x30 <= m[4] && m[4] <= 0x39
            && 0x30 <= m[5] && m[5] <= 0x39 && 0x30 <= m[6] && m[6] <= 0x39 && m[7] == 0
    }

    /// The version that the magic value names, as a number; `None` where the
    /// magic value has not the form that every version has.
    pub fn version(&self) -> (r: Option<u16>)
        ensures
            is_dex_magic(self.magic@) ==> r == Some(
                ((self.magic@[4] - 0x30) * 100 + (self.magic@[5] - 0x30) * 10 + (self.magic@[6]
                    - 0x30)) as u16,
            ),
            !is_dex_magic(self.magic@) ==> r is None,
    {
        if !self.has_dex_magic() {
            return None;
        }
        let m: &[u8; 8] = &self.magic;
        Some((m[4] - 0x30) as u16 * 100 + (m[5] - 0x30) as u16 * 10 + (m[6] - 0x30) as u16)
    }

    /// Whether the endianness tag says that the file is little-endian.
    pub fn is_little_endian(&self) -> (r: bool)
        ensures
            r == (self.endian_tag == ENDIAN_CONSTANT),
    {
        self.endian_tag == ENDIAN_CONSTANT
    }

    /// Whether the header announces the size of the versions handled here.
    pub fn has_standard_size(&self) -> (r: bool)
        ensures
            r == (self.header_size == HEADER_SIZE),
    {
        self.header_size == HEADER_SIZE
    }

    /// Whether the header announces the size of the container format with
    /// several headers in one file, which is not handled here.
    pub fn is_container_format(&self) -> (r: bool)
        ensures
            r == (self.header_size == CONTAINER_HEADER_SIZE),
    {
        self.header_size == CONTAINER_HEADER_SIZE
    }
}

} // verus!
