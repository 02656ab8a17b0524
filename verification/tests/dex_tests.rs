use dex2smali::dex::class_def_item::{ClassDefItem, NO_INDEX};
use dex2smali::dex::code_item::CodeItem;
use dex2smali::dex::field_id_item::FieldIdItem;
use dex2smali::dex::header_item::HeaderItem;
use dex2smali::dex::instruction::Instruction;
use dex2smali::dex::method_handle_item::MethodHandleItem;
use dex2smali::dex::method_id_item::MethodIdItem;
use dex2smali::dex::pools::{find_section, read_strings, read_types};
use dex2smali::dex::proto_id_item::ProtoIdItem;
use dex2smali::dex::type_list::{TypeItem, TypeList};
use dex2smali::dex::Dex;
use dex2smali::errors::{ClassWriteError, DexParseError, InstructionError, TableIdxError};
use dex2smali::smali::{class_file_name, disassemble_class, read_class_data, write_class};
use dex2smali::traits::parse::TryParseFromBytes;

fn put_u16(buffer: &mut Vec<u8>, v: u16) {
    buffer.extend_from_slice(&v.to_le_bytes());
}

fn put_u32(buffer: &mut Vec<u8>, v: u32) {
    buffer.extend_from_slice(&v.to_le_bytes());
}

fn set_u32(buffer: &mut [u8], at: usize, v: u32) {
    buffer[at..at + 4].copy_from_slice(&v.to_le_bytes());
}

const STRINGS: [&str; 7] = [
    "hi",
    "LFoo;",
    "Ljava/lang/Object;",
    "V",
    "I",
    "x",
    "run",
];

// The bytes of a small container with one class, `LFoo;`, which has the
// static field `x` and the direct method `run`.
fn sample_container() -> Vec<u8> {
    let mut b = vec![0u8; 112];
    b[0..8].copy_from_slice(b"dex\n035\0");
    set_u32(&mut b, 8, 0x1234_5678);
    for i in 0..20 {
        b[12 + i] = i as u8;
    }
    set_u32(&mut b, 36, 0x70);
    set_u32(&mut b, 40, 0x1234_5678);

    // string data
    let mut string_offsets = Vec::new();
    for s in STRINGS {
        string_offsets.push(b.len() as u32);
        b.push(s.len() as u8);
        b.extend_from_slice(s.as_bytes());
        b.push(0);
    }
    // string identifiers
    set_u32(&mut b, 56, STRINGS.len() as u32);
    let at = b.len() as u32;
    set_u32(&mut b, 60, at);
    for off in string_offsets {
        put_u32(&mut b, off);
    }
    // type identifiers: LFoo;, Ljava/lang/Object;, V, I
    set_u32(&mut b, 64, 4);
    let at = b.len() as u32;
    set_u32(&mut b, 68, at);
    for idx in [1u32, 2, 3, 4] {
        put_u32(&mut b, idx);
    }
    // the parameter list (I)
    let parameters_off = b.len() as u32;
    put_u32(&mut b, 1);
    put_u16(&mut b, 3);
    put_u16(&mut b, 0);
    // prototypes: (I)V
    set_u32(&mut b, 72, 1);
    let at = b.len() as u32;
    set_u32(&mut b, 76, at);
    put_u32(&mut b, 3);
    put_u32(&mut b, 2);
    put_u32(&mut b, parameters_off);
    // fields: LFoo;->x:I
    set_u32(&mut b, 80, 1);
    let at = b.len() as u32;
    set_u32(&mut b, 84, at);
    put_u16(&mut b, 0);
    put_u16(&mut b, 3);
    put_u32(&mut b, 5);
    // methods: LFoo;->run(I)V
    set_u32(&mut b, 88, 1);
    let at = b.len() as u32;
    set_u32(&mut b, 92, at);
    put_u16(&mut b, 0);
    put_u16(&mut b, 0);
    put_u32(&mut b, 6);
    // code of run
    let code_off = b.len() as u32;
    put_u16(&mut b, 1);
    put_u16(&mut b, 1);
    put_u16(&mut b, 0);
    put_u16(&mut b, 0);
    put_u32(&mut b, 0);
    put_u32(&mut b, 7);
    b.extend_from_slice(&[
        0x12, 0x10, // const/4 v0 1
        0x1A, 0x00, 0x00, 0x00, // const-string v0 "hi"
        0x38, 0x00, 0x03, 0x00, // if-eqz v0 +3
        0x00, 0x00, // nop
        0x0E, 0x00, // return-void
    ]);
    // class data
    let class_data_off = b.len() as u32;
    b.extend_from_slice(&[0x01, 0x00, 0x01, 0x00]);
    b.extend_from_slice(&[0x00, 0x09]);
    b.push(0x00);
    b.extend_from_slice(&[0x81, 0x80, 0x04]);
    assert!(code_off < 128 * 128);
    b.push((code_off % 128) as u8 | 0x80);
    b.push((code_off / 128) as u8);
    // class definitions
    set_u32(&mut b, 96, 1);
    while b.len() % 4 != 0 {
        b.push(0);
    }
    let at = b.len() as u32;
    set_u32(&mut b, 100, at);
    put_u32(&mut b, 0);
    put_u32(&mut b, 0x11);
    put_u32(&mut b, 1);
    put_u32(&mut b, 0);
    put_u32(&mut b, NO_INDEX);
    put_u32(&mut b, 0);
    put_u32(&mut b, class_data_off);
    put_u32(&mut b, 0);
    // map list: one section of method handles
    let handles_off = b.len() as u32;
    put_u16(&mut b, 5);
    put_u16(&mut b, 0);
    put_u16(&mut b, 9);
    put_u16(&mut b, 0);
    let map_off = b.len() as u32;
    set_u32(&mut b, 52, map_off);
    put_u32(&mut b, 2);
    put_u16(&mut b, 0x0000);
    put_u16(&mut b, 0);
    put_u32(&mut b, 1);
    put_u32(&mut b, 0);
    put_u16(&mut b, 0x0008);
    put_u16(&mut b, 0);
    put_u32(&mut b, 1);
    put_u32(&mut b, handles_off);
    let size = b.len() as u32;
    set_u32(&mut b, 32, size);
    b
}

const CLASS_TEXT: &str = ".class public final LFoo;
.super Ljava/lang/Object;

.field x:I

.method public constructor run(I)V
    const/4 v0 1
    const-string v0 \"hi\"
    if-eqz v0 :L0
    nop 
  :L0
    return-void 
.end method
";

#[test]
fn header_is_read_field_by_field() {
    let bytes = sample_container();
    let header = HeaderItem::try_parse_from_bytes(&bytes).unwrap();
    assert_eq!(&header.magic, b"dex\n035\0");
    assert_eq!(header.checksum, 0x1234_5678);
    assert_eq!(header.signature[0], 0);
    assert_eq!(header.signature[19], 19);
    assert_eq!(header.file_size as usize, bytes.len());
    assert_eq!(header.header_size, 0x70);
    assert_eq!(header.endian_tag, 0x1234_5678);
    assert_eq!(header.link_size, 0);
    assert_eq!(header.link_off, 0);
    assert_eq!(header.string_ids_size, 7);
    assert_eq!(header.type_ids_size, 4);
    assert_eq!(header.proto_ids_size, 1);
    assert_eq!(header.field_ids_size, 1);
    assert_eq!(header.method_ids_size, 1);
    assert_eq!(header.class_defs_size, 1);
    assert_eq!(header.data_size, 0);
    assert_eq!(header.data_off, 0);
    assert!(header.has_standard_size());
    assert!(!header.is_container_format());
    assert!(header.has_dex_magic());
    assert_eq!(header.version(), Some(35));
    assert!(header.is_little_endian());
    assert_eq!(header, HeaderItem::parse_from_bytes(&bytes));
}

#[test]
fn header_magic_and_endianness() {
    let mut bytes = vec![0u8; 112];
    let header = HeaderItem::try_parse_from_bytes(&bytes).unwrap();
    assert!(!header.has_dex_magic());
    assert_eq!(header.version(), None);
    assert!(!header.is_little_endian());
    bytes[0..8].copy_from_slice(b"dex\n039\0");
    set_u32(&mut bytes, 40, 0x7856_3412);
    let header = HeaderItem::try_parse_from_bytes(&bytes).unwrap();
    assert!(header.has_dex_magic());
    assert_eq!(header.version(), Some(39));
    assert!(!header.is_little_endian());
    bytes[0..8].copy_from_slice(b"dex\n03a\0");
    assert!(!HeaderItem::try_parse_from_bytes(&bytes).unwrap().has_dex_magic());
    bytes[0..8].copy_from_slice(b"dex\n0390");
    assert!(!HeaderItem::try_parse_from_bytes(&bytes).unwrap().has_dex_magic());
    bytes[0..8].copy_from_slice(b"dey\n039\0");
    assert_eq!(HeaderItem::try_parse_from_bytes(&bytes).unwrap().version(), None);
}

#[test]
fn header_offsets_by_position() {
    let mut bytes = vec![0u8; 112];
    for (i, at) in (32..112).step_by(4).enumerate() {
        set_u32(&mut bytes, at, 1000 + i as u32);
    }
    let h = HeaderItem::try_parse_from_bytes(&bytes).unwrap();
    let fields = [
        h.file_size,
        h.header_size,
        h.endian_tag,
        h.link_size,
        h.link_off,
        h.map_off,
        h.string_ids_size,
        h.string_ids_off,
        h.type_ids_size,
        h.type_ids_off,
        h.proto_ids_size,
        h.proto_ids_off,
        h.field_ids_size,
        h.field_ids_off,
        h.method_ids_size,
        h.method_ids_off,
        h.class_defs_size,
        h.class_defs_off,
        h.data_size,
        h.data_off,
    ];
    for (i, v) in fields.iter().enumerate() {
        assert_eq!(*v, 1000 + i as u32);
    }
    set_u32(&mut bytes, 36, 0x78);
    let h = HeaderItem::try_parse_from_bytes(&bytes).unwrap();
    assert!(h.is_container_format());
    assert!(!h.has_standard_size());
}

#[test]
fn short_header_is_reported() {
    assert_eq!(
        HeaderItem::try_parse_from_bytes(&[0u8; 111]),
        Err(DexParseError::InvalidElementSize {
            field: "header_item",
            expected: 112,
            actual: 111
        })
    );
    match Dex::try_parse_from_bytes(&[0u8; 5]) {
        Err(e) => assert_eq!(
            e,
            DexParseError::InvalidElementSize {
                field: "header_item",
                expected: 112,
                actual: 5
            }
        ),
        Ok(_) => panic!("parsed"),
    }
    assert!(Dex::parse_from_bytes(&[]).is_err());
}

#[test]
fn fixed_records() {
    assert_eq!(
        FieldIdItem::try_parse_from_bytes(&[1, 0, 2, 0, 3, 0, 0, 0, 9]),
        Ok(FieldIdItem {
            class_idx: 1,
            type_idx: 2,
            name_idx: 3
        })
    );
    assert_eq!(
        FieldIdItem::try_parse_from_bytes(&[1, 0, 2, 0, 3, 0, 0]),
        Err(DexParseError::InvalidElementSize {
            field: "field_id_item",
            expected: 8,
            actual: 7
        })
    );
    assert_eq!(
        MethodIdItem::try_parse_from_bytes(&[1, 0, 2, 0, 0xFF, 0xFF, 0xFF, 0xFF]),
        Ok(MethodIdItem {
            class_idx: 1,
            proto_idx: 2,
            name_idx: NO_INDEX
        })
    );
    assert_eq!(
        MethodIdItem::try_parse_from_bytes(&[]),
        Err(DexParseError::InvalidElementSize {
            field: "method_id_item",
            expected: 8,
            actual: 0
        })
    );
    assert_eq!(
        ProtoIdItem::try_parse_from_bytes(&[1, 0, 0, 0, 2, 0, 0, 0, 3, 0, 0, 0]),
        Ok(ProtoIdItem {
            shorty_idx: 1,
            return_type_idx: 2,
            parameters_off: 3
        })
    );
    assert_eq!(
        ProtoIdItem::try_parse_from_bytes(&[0; 11]),
        Err(DexParseError::InvalidElementSize {
            field: "proto_id_item",
            expected: 12,
            actual: 11
        })
    );
    assert_eq!(
        MethodHandleItem::try_parse_from_bytes(&[4, 0, 0xEE, 0xEE, 7, 0, 0xEE, 0xEE]),
        Ok(MethodHandleItem {
            method_handle_type: 4,
            field_or_method_id: 7
        })
    );
    assert_eq!(
        TypeItem::try_parse_from_bytes(&[0x34, 0x12]),
        Ok(TypeItem { type_idx: 0x1234 })
    );
    let mut class_def = Vec::new();
    for v in [1u32, 2, NO_INDEX, 4, NO_INDEX, 6, 7, 8] {
        put_u32(&mut class_def, v);
    }
    assert_eq!(
        ClassDefItem::try_parse_from_bytes(&class_def),
        Ok(ClassDefItem {
            class_idx: 1,
            access_flags: 2,
            superclass_idx: NO_INDEX,
            interfaces_off: 4,
            source_file_idx: NO_INDEX,
            annotations_off: 6,
            class_data_off: 7,
            static_values_off: 8
        })
    );
    assert_eq!(
        ClassDefItem::try_parse_from_bytes(&class_def[..31]),
        Err(DexParseError::InvalidElementSize {
            field: "class_def_item",
            expected: 32,
            actual: 31
        })
    );
}

#[test]
fn type_list_is_read() {
    let list = TypeList::try_parse_from_bytes_unsized(&[2, 0, 0, 0, 3, 0, 1, 0, 0xFF]);
    assert_eq!(
        list.unwrap().list,
        vec![TypeItem { type_idx: 3 }, TypeItem { type_idx: 1 }]
    );
    let empty = TypeList::try_parse_from_bytes_unsized(&[0, 0, 0, 0]);
    assert!(empty.unwrap().list.is_empty());
}

#[test]
fn short_type_list_is_reported() {
    match TypeList::try_parse_from_bytes_unsized(&[2, 0, 0]) {
        Err(e) => assert_eq!(
            e,
            DexParseError::InvalidElementSize {
                field: "type_list",
                expected: 4,
                actual: 3
            }
        ),
        Ok(_) => panic!("parsed"),
    }
    match TypeList::try_parse_from_bytes_unsized(&[2, 0, 0, 0, 3, 0, 1]) {
        Err(e) => assert_eq!(
            e,
            DexParseError::InvalidElementSize {
                field: "type_list",
                expected: 8,
                actual: 7
            }
        ),
        Ok(_) => panic!("parsed"),
    }
}

#[test]
fn container_pools() {
    let bytes = sample_container();
    let dex = Dex::try_parse_from_bytes(&bytes).unwrap();
    assert_eq!(dex.raw, &bytes[..]);
    assert_eq!(dex.strings, STRINGS);
    assert_eq!(dex.types, ["LFoo;", "Ljava/lang/Object;", "V", "I"]);
    assert_eq!(dex.proto_ids.len(), 1);
    assert_eq!(dex.proto_ids[0].shorty_idx, 3);
    assert_eq!(dex.proto_ids[0].return_type_idx, 2);
    assert_eq!(
        dex.field_ids,
        vec![FieldIdItem {
            class_idx: 0,
            type_idx: 3,
            name_idx: 5
        }]
    );
    assert_eq!(
        dex.method_ids,
        vec![MethodIdItem {
            class_idx: 0,
            proto_idx: 0,
            name_idx: 6
        }]
    );
    assert_eq!(dex.class_defs.len(), 1);
    assert_eq!(dex.class_defs[0].source_file_idx, NO_INDEX);
    assert_eq!(dex.class_defs[0].access_flags, 0x11);
    assert_eq!(
        dex.method_handles,
        vec![MethodHandleItem {
            method_handle_type: 5,
            field_or_method_id: 9
        }]
    );
    assert!(dex.call_site_items.is_empty());
    assert_eq!(
        dex.method_ids[0].to_human_readable(&dex),
        Ok(String::from("LFoo;->run(I)V"))
    );
    let same = Dex::parse_from_bytes(&bytes).unwrap();
    assert_eq!(same.strings, dex.strings);
    assert_eq!(same.class_defs, dex.class_defs);
}

#[test]
fn pools_leave_out_what_cannot_be_read() {
    let mut bytes = sample_container();
    // one more string than there are identifiers inside the bytes
    let n = bytes.len() as u32;
    set_u32(&mut bytes, 60, n - 8);
    set_u32(&mut bytes, 56, 5);
    // the last eight bytes are the offset of the method handles twice over:
    // a count and an offset of the map list
    let dex = Dex::try_parse_from_bytes(&bytes).unwrap();
    assert!(dex.strings.len() <= 2);
    // a pool that starts behind the end is empty
    set_u32(&mut bytes, 84, n + 100);
    set_u32(&mut bytes, 80, 0xFFFF_FFFF);
    // a pool of which only one record fits
    set_u32(&mut bytes, 92, n - 12);
    set_u32(&mut bytes, 88, 3);
    let dex = Dex::try_parse_from_bytes(&bytes).unwrap();
    assert!(dex.field_ids.is_empty());
    assert_eq!(dex.method_ids.len(), 1);
}

#[test]
fn strings_and_types_by_hand() {
    // two identifiers at byte 0; the strings "a" at 8 and nothing readable at 11
    let bytes = [8, 0, 0, 0, 11, 0, 0, 0, 1, 0x61, 0, 0x80];
    assert_eq!(read_strings(&bytes, 0, 2), vec![String::from("a")]);
    assert_eq!(read_strings(&bytes, 0, 0), Vec::<String>::new());
    // a count that runs past the end of the bytes
    assert_eq!(read_strings(&bytes, 0, 1000), vec![String::from("a")]);
    let strings = vec![String::from("zero"), String::from("one")];
    let ids = [1, 0, 0, 0, 7, 0, 0, 0, 0, 0, 0, 0, 9];
    assert_eq!(
        read_types(&ids, 0, 3, &strings),
        vec![String::from("one"), String::new(), String::from("zero")]
    );
    assert_eq!(
        read_types(&ids, 0, 4, &strings),
        vec![String::from("one"), String::new(), String::from("zero")]
    );
    assert_eq!(read_types(&ids, 8, 1, &strings), vec![String::from("zero")]);
}

#[test]
fn map_list_sections() {
    let bytes = sample_container();
    let dex = Dex::try_parse_from_bytes(&bytes).unwrap();
    let map_off = dex.header_item.map_off;
    assert_eq!(find_section(&bytes, map_off, 0x0000), Some((1, 0)));
    assert!(find_section(&bytes, map_off, 0x0008).is_some());
    assert_eq!(find_section(&bytes, map_off, 0x0007), None);
    assert_eq!(find_section(&bytes, 0, 0x0000), None);
    assert_eq!(find_section(&bytes, bytes.len() as u32, 0x0000), None);
}

#[test]
fn code_item_of_the_method() {
    let bytes = sample_container();
    let dex = Dex::try_parse_from_bytes(&bytes).unwrap();
    let class_data = read_class_data(&dex, &dex.class_defs[0]).unwrap();
    assert_eq!(class_data.static_fields.len(), 1);
    assert_eq!(class_data.static_fields[0].access_flags, 9);
    assert_eq!(class_data.direct_methods.len(), 1);
    let method = class_data.direct_methods[0];
    assert_eq!(method.access_flags, 0x10001);
    let code = CodeItem::try_parse_from_bytes_unsized(&bytes[method.code_off as usize..]).unwrap();
    assert_eq!(code.registers_size, 1);
    assert_eq!(code.ins_size, 1);
    assert_eq!(code.outs_size, 0);
    assert_eq!(code.tries_size, 0);
    assert_eq!(code.debug_info_off, 0);
    assert_eq!(code.insns_size, 7);
    assert_eq!(
        code.insns,
        vec![
            Instruction::Const4 { dst: 0, value: 1 },
            Instruction::ConstString {
                dst: 0,
                string_idx: 0
            },
            Instruction::IfEqz { a: 0, offset: 3 },
            Instruction::Nop,
            Instruction::ReturnVoid,
        ]
    );
    assert_eq!(code.stopped_by, None);
    assert_eq!(code.labels.len(), 1);
    assert_eq!(code.labels.get(12), Some(0));
    assert_eq!(code.labels.get(6), None);
    assert!(code.stray_branches.is_empty());
}

#[test]
fn class_as_text() {
    let bytes = sample_container();
    let dex = Dex::try_parse_from_bytes(&bytes).unwrap();
    assert_eq!(
        disassemble_class(&dex, &dex.class_defs[0]),
        Ok(String::from(CLASS_TEXT))
    );
    let class_data = read_class_data(&dex, &dex.class_defs[0]).unwrap();
    let mut out = String::from("# head\n");
    assert_eq!(
        write_class(
            &mut out,
            &dex,
            "LFoo;",
            "Ljava/lang/Object;",
            &class_data,
            0x11
        ),
        Ok(())
    );
    assert_eq!(out, format!("# head\n{}", CLASS_TEXT));
}

#[test]
fn class_with_flags_that_are_none() {
    let bytes = sample_container();
    let dex = Dex::try_parse_from_bytes(&bytes).unwrap();
    let class_data = read_class_data(&dex, &dex.class_defs[0]).unwrap();
    let mut out = String::from("kept");
    assert_eq!(
        write_class(&mut out, &dex, "LFoo;", "LBar;", &class_data, 0x8000),
        Err(ClassWriteError::InvalidAccessFlags(0x8000))
    );
    assert_eq!(out, "kept");
}

#[test]
fn class_with_indices_outside_the_pools() {
    let bytes = sample_container();
    let mut dex = Dex::try_parse_from_bytes(&bytes).unwrap();
    let class_def = dex.class_defs[0];
    let class_data = read_class_data(&dex, &class_def).unwrap();

    let mut no_superclass = class_def;
    no_superclass.superclass_idx = NO_INDEX;
    assert_eq!(
        disassemble_class(&dex, &no_superclass),
        Err(ClassWriteError::TableIdx(TableIdxError::Type(
            0xFFFF_FFFF
        )))
    );
    let mut no_class = class_def;
    no_class.class_idx = 4;
    assert_eq!(
        disassemble_class(&dex, &no_class),
        Err(ClassWriteError::TableIdx(TableIdxError::Type(4)))
    );
    let mut no_data = class_def;
    no_data.class_data_off = bytes.len() as u32 + 1;
    assert_eq!(
        disassemble_class(&dex, &no_data),
        Err(ClassWriteError::ClassData(
            DexParseError::InvalidElementSize {
                field: "class_data_item",
                expected: bytes.len() + 1,
                actual: bytes.len()
            }
        ))
    );
    no_data.class_data_off = bytes.len() as u32;
    assert_eq!(
        disassemble_class(&dex, &no_data),
        Err(ClassWriteError::ClassData(DexParseError::MalformedLeb128 {
            field: "static_fields_size"
        }))
    );
    let mut marker = class_def;
    marker.class_data_off = 0;
    assert_eq!(
        disassemble_class(&dex, &marker),
        Ok(String::from(
            ".class public final LFoo;\n.super Ljava/lang/Object;\n"
        ))
    );

    dex.method_ids.clear();
    let mut out = String::new();
    assert_eq!(
        write_class(&mut out, &dex, "LFoo;", "LBar;", &class_data, 1),
        Err(ClassWriteError::TableIdx(TableIdxError::MethodId(0)))
    );
    assert_eq!(out, "");
    dex.field_ids.clear();
    assert_eq!(
        write_class(&mut out, &dex, "LFoo;", "LBar;", &class_data, 1),
        Err(ClassWriteError::TableIdx(TableIdxError::FieldId(0)))
    );
}

#[test]
fn method_without_readable_code_is_left_out() {
    let bytes = sample_container();
    let dex = Dex::try_parse_from_bytes(&bytes).unwrap();
    let mut class_data = read_class_data(&dex, &dex.class_defs[0]).unwrap();
    class_data.static_fields.clear();
    let mut abstract_method = class_data.direct_methods[0];
    abstract_method.code_off = 0;
    abstract_method.access_flags = 0x401;
    let mut lost_method = class_data.direct_methods[0];
    lost_method.code_off = bytes.len() as u64 - 3;
    class_data.virtual_methods = vec![abstract_method, lost_method];
    class_data.direct_methods.clear();
    let mut out = String::new();
    assert_eq!(
        write_class(&mut out, &dex, "LFoo;", "LBar;", &class_data, 0x401),
        Ok(())
    );
    assert_eq!(
        out,
        ".class public abstract LFoo;\n.super LBar;\n\n.method public abstract run(I)V\n.end method\n"
    );
}

#[test]
fn method_with_a_prototype_that_cannot_be_rendered() {
    let bytes = sample_container();
    let mut dex = Dex::try_parse_from_bytes(&bytes).unwrap();
    let mut class_data = read_class_data(&dex, &dex.class_defs[0]).unwrap();
    class_data.static_fields.clear();
    class_data.direct_methods[0].code_off = 0;
    class_data.direct_methods[0].access_flags = 0xC0;
    dex.proto_ids[0].return_type_idx = 40;
    let mut out = String::new();
    assert_eq!(
        write_class(&mut out, &dex, "LFoo;", "LBar;", &class_data, 0),
        Ok(())
    );
    assert_eq!(
        out,
        ".class  LFoo;\n.super LBar;\n\n.method bridge varargs run(Type(40))\n.end method\n"
    );
}

#[test]
fn file_names() {
    assert_eq!(
        class_file_name("Ljava/lang/String;"),
        Some(String::from("java_lang_String.smali"))
    );
    assert_eq!(class_file_name("LFoo;"), Some(String::from("Foo.smali")));
    assert_eq!(class_file_name("L;"), Some(String::from(".smali")));
    assert_eq!(class_file_name("L"), None);
    assert_eq!(class_file_name(""), None);
}

#[test]
fn instruction_errors_end_a_method() {
    let mut bytes = vec![0u8; 16];
    set_u32(&mut bytes, 12, 3);
    bytes.extend_from_slice(&[0x00, 0x00, 0x3E, 0x00, 0x0E, 0x00]);
    let code = CodeItem::try_parse_from_bytes_unsized(&bytes).unwrap();
    assert_eq!(code.insns, vec![Instruction::Nop]);
    assert_eq!(code.stopped_by, Some(InstructionError::UnknownOpcode(0x3E)));
}
