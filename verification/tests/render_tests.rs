use dex2smali::dex::call_site_id_item::CallSiteIdItem;
use dex2smali::dex::field_id_item::FieldIdItem;
use dex2smali::dex::header_item::HeaderItem;
use dex2smali::dex::instruction::Instruction;
use dex2smali::dex::labels::Labels;
use dex2smali::dex::method_handle_item::MethodHandleItem;
use dex2smali::dex::method_id_item::MethodIdItem;
use dex2smali::dex::proto_id_item::ProtoIdItem;
use dex2smali::dex::Dex;
use dex2smali::errors::{ConversionError, TableIdxError};
use dex2smali::traits::parse::TryParseFromBytes;

// A type list with the types 3 and 1 stands at byte 4 of these bytes.
const RAW: [u8; 12] = [0, 0, 0, 0, 2, 0, 0, 0, 3, 0, 1, 0];

fn sample_dex() -> Dex<'static> {
    Dex {
        raw: &RAW,
        header_item: HeaderItem::parse_from_bytes(&[0u8; 112]),
        strings: vec![
            String::from("hi"),
            String::from("run"),
            String::from("count"),
            String::from("a \"quoted\"\tline\\\n"),
        ],
        types: vec![
            String::from("LFoo;"),
            String::from("Ljava/lang/String;"),
            String::from("V"),
            String::from("I"),
        ],
        proto_ids: vec![
            ProtoIdItem {
                shorty_idx: 0,
                return_type_idx: 2,
                parameters_off: 0,
            },
            ProtoIdItem {
                shorty_idx: 0,
                return_type_idx: 3,
                parameters_off: 4,
            },
            ProtoIdItem {
                shorty_idx: 0,
                return_type_idx: 9,
                parameters_off: 0,
            },
        ],
        field_ids: vec![
            FieldIdItem {
                class_idx: 0,
                type_idx: 3,
                name_idx: 2,
            },
            FieldIdItem {
                class_idx: 0,
                type_idx: 3,
                name_idx: 77,
            },
        ],
        method_ids: vec![
            MethodIdItem {
                class_idx: 0,
                proto_idx: 0,
                name_idx: 1,
            },
            MethodIdItem {
                class_idx: 0,
                proto_idx: 1,
                name_idx: 1,
            },
            MethodIdItem {
                class_idx: 0,
                proto_idx: 5,
                name_idx: 1,
            },
        ],
        class_defs: vec![],
        method_handles: vec![MethodHandleItem {
            method_handle_type: 4,
            field_or_method_id: 1,
        }],
        call_site_items: vec![CallSiteIdItem { call_site_off: 300 }],
    }
}

fn render(insn: Instruction) -> Result<String, ConversionError> {
    insn.to_human_readable(&sample_dex(), 0, &Labels::new())
}

fn text(insn: Instruction) -> String {
    render(insn).unwrap()
}

#[test]
fn render_const4() {
    let insn = Instruction::try_decode(&[0x12, 0x21]).unwrap();
    assert_eq!(insn, Instruction::Const4 { dst: 1, value: 2 });
    assert_eq!(insn.size_bytes(), 2);
    assert_eq!(text(insn), "const/4 v1 2");
}

#[test]
fn render_const_string() {
    let insn = Instruction::try_decode(&[0x1A, 0x08, 0x00, 0x00]).unwrap();
    assert_eq!(
        insn,
        Instruction::ConstString {
            dst: 8,
            string_idx: 0
        }
    );
    assert_eq!(text(insn), "const-string v8 \"hi\"");
}

#[test]
fn render_without_operands() {
    assert_eq!(text(Instruction::Nop), "nop ");
    assert_eq!(text(Instruction::ReturnVoid), "return-void ");
}

#[test]
fn render_registers() {
    assert_eq!(text(Instruction::Move { dst: 0, src: 15 }), "move v0 v15");
    assert_eq!(
        text(Instruction::MoveFrom16 {
            dst: 255,
            src: 65535
        }),
        "move/from16 v255 v65535"
    );
    assert_eq!(
        text(Instruction::MoveObject16 {
            dst: 1000,
            src: 20
        }),
        "move-object/16 v1000 v20"
    );
    assert_eq!(text(Instruction::MoveResult { dst: 7 }), "move-result v7");
    assert_eq!(text(Instruction::Return { value: 3 }), "return v3");
    assert_eq!(text(Instruction::Throw { exception: 9 }), "throw v9");
    assert_eq!(
        text(Instruction::MonitorEnter { reference: 10 }),
        "monitor-enter v10"
    );
    assert_eq!(
        text(Instruction::ArrayLength { dst: 1, array: 2 }),
        "array-length v1 v2"
    );
    assert_eq!(
        text(Instruction::AddInt {
            dst: 1,
            src_a: 2,
            src_b: 3
        }),
        "add-int v1 v2 v3"
    );
    assert_eq!(
        text(Instruction::AgetWide {
            src: 100,
            array: 101,
            index: 102
        }),
        "aget-wide v100 v101 v102"
    );
    assert_eq!(
        text(Instruction::CmpLong {
            dst: 0,
            src_a: 1,
            src_b: 2
        }),
        "cmp-long v0 v1 v2"
    );
    assert_eq!(
        text(Instruction::DivDouble2Addr { dst: 4, src: 6 }),
        "div-double/2addr v4 v6"
    );
}

#[test]
fn render_literals() {
    assert_eq!(
        text(Instruction::Const4 { dst: 1, value: -8 }),
        "const/4 v1 -8"
    );
    assert_eq!(
        text(Instruction::Const16 {
            dst: 1,
            value: -32768
        }),
        "const/16 v1 -32768"
    );
    assert_eq!(
        text(Instruction::Const {
            dst: 0,
            value: 12345678
        }),
        "const v0 12345678"
    );
    assert_eq!(
        text(Instruction::ConstWide32 {
            dst: 0,
            value: i32::MIN
        }),
        "const-wide/32 v0 -2147483648"
    );
    assert_eq!(
        text(Instruction::ConstWide {
            dst: 2,
            value: i64::MIN
        }),
        "const-wide v2 -9223372036854775808"
    );
    assert_eq!(
        text(Instruction::ConstWide {
            dst: 2,
            value: i64::MAX
        }),
        "const-wide v2 9223372036854775807"
    );
    assert_eq!(
        text(Instruction::ConstHigh16 {
            dst: 0,
            value: 0x4120
        }),
        "const/high16 v0 16672"
    );
    assert_eq!(
        text(Instruction::AddIntLit16 {
            dst: 1,
            src: 2,
            value: 0
        }),
        "add-int/lit16 v1 v2 0"
    );
    assert_eq!(
        text(Instruction::UShrIntLit8 {
            dst: 1,
            src: 0,
            value: -1
        }),
        "ushr-int/lit8 v1 v0 -1"
    );
    assert_eq!(
        text(Instruction::RsubInt {
            dst: 1,
            src: 2,
            value: 100
        }),
        "rsub-int v1 v2 100"
    );
}

#[test]
fn render_string_with_escapes() {
    assert_eq!(
        text(Instruction::ConstString {
            dst: 0,
            string_idx: 3
        }),
        "const-string v0 \"a \\\"quoted\\\"\\tline\\\\\\n\""
    );
    assert_eq!(
        text(Instruction::ConstStringJumbo {
            dst: 1,
            string_idx: 1
        }),
        "const-string/jumbo v1 \"run\""
    );
}

#[test]
fn render_types() {
    assert_eq!(
        text(Instruction::ConstClass {
            dst: 0,
            type_idx: 1
        }),
        "const-class v0 Ljava/lang/String;"
    );
    assert_eq!(
        text(Instruction::CheckCast {
            reference: 4,
            type_idx: 0
        }),
        "check-cast v4 LFoo;"
    );
    assert_eq!(
        text(Instruction::NewInstance {
            dst: 0,
            type_idx: 0
        }),
        "new-instance v0 LFoo;"
    );
    assert_eq!(
        text(Instruction::InstanceOf {
            dst: 0,
            reference: 4,
            type_idx: 1
        }),
        "instance-of v0 v4 Ljava/lang/String;"
    );
    assert_eq!(
        text(Instruction::NewArray {
            dst: 2,
            size: 1,
            type_idx: 3
        }),
        "new-array v2 v1 I"
    );
    assert_eq!(
        text(Instruction::FilledNewArray {
            type_idx: 3,
            args: [4, 5, 6, 7, 8],
            arg_cnt: 3
        }),
        "filled-new-array v4 v5 v6 I"
    );
    assert_eq!(
        text(Instruction::FilledNewArrayRange {
            type_idx: 3,
            first_arg: 19,
            arg_cnt: 3
        }),
        "filled-new-array/range v19 v20 v21 I"
    );
}

#[test]
fn render_fields() {
    assert_eq!(
        text(Instruction::SgetObject {
            src: 1,
            field_idx: 0
        }),
        "sget-object v1 LFoo;->count:I"
    );
    assert_eq!(
        text(Instruction::SputBoolean {
            dst: 1,
            field_idx: 0
        }),
        "sput-boolean v1 LFoo;->count:I"
    );
    assert_eq!(
        text(Instruction::Iget {
            src: 1,
            object: 2,
            field_idx: 0
        }),
        "iget v1 v2 LFoo;->count:I"
    );
    assert_eq!(
        text(Instruction::IputShort {
            dst: 1,
            object: 2,
            field_idx: 0
        }),
        "iput-short v1 v2 LFoo;->count:I"
    );
}

#[test]
fn render_invokes() {
    assert_eq!(
        text(Instruction::InvokeDirect {
            method_idx: 0,
            args: [1, 0, 0, 0, 0],
            arg_cnt: 1
        }),
        "invoke-direct v1 LFoo;->run()V"
    );
    assert_eq!(
        text(Instruction::InvokeVirtual {
            method_idx: 1,
            args: [2, 3, 0, 1, 4],
            arg_cnt: 5
        }),
        "invoke-virtual v2 v3 v0 v1 v4 LFoo;->run(ILjava/lang/String;)I"
    );
    // more registers than fields: the five fields are all there is
    assert_eq!(
        text(Instruction::InvokeSuper {
            method_idx: 0,
            args: [2, 3, 0, 1, 4],
            arg_cnt: 9
        }),
        "invoke-super v2 v3 v0 v1 v4 LFoo;->run()V"
    );
    // no registers: the space before the method stays
    assert_eq!(
        text(Instruction::InvokeStatic {
            method_idx: 0,
            args: [0; 5],
            arg_cnt: 0
        }),
        "invoke-static  LFoo;->run()V"
    );
    assert_eq!(
        text(Instruction::InvokeInterfaceRange {
            method_idx: 0,
            first_arg: 65535,
            arg_cnt: 2
        }),
        "invoke-interface/range v65535 v65536 LFoo;->run()V"
    );
    assert_eq!(
        text(Instruction::InvokeStaticRange {
            method_idx: 1,
            first_arg: 1,
            arg_cnt: 0
        }),
        "invoke-static/range  LFoo;->run(ILjava/lang/String;)I"
    );
}

#[test]
fn render_polymorphic_and_custom() {
    assert_eq!(
        text(Instruction::InvokePolymorphic {
            method_idx: 0,
            proto_idx: 1,
            args: [1, 2, 0, 0, 0],
            arg_cnt: 2
        }),
        "invoke-polymorphic v1 v2 LFoo;->run()V (ILjava/lang/String;)I"
    );
    assert_eq!(
        text(Instruction::InvokePolymorphicRange {
            method_idx: 1,
            proto_idx: 0,
            first_arg: 3,
            arg_cnt: 2
        }),
        "invoke-polymorphic/range v3 v4 LFoo;->run(ILjava/lang/String;)I ()V"
    );
    assert_eq!(
        text(Instruction::InvokeCustom {
            call_site_idx: 0,
            args: [1, 2, 0, 0, 0],
            arg_cnt: 1
        }),
        "invoke-custom v1 CallSiteIdItem { call_site_off: 300 }"
    );
    assert_eq!(
        text(Instruction::InvokeCustomRange {
            call_site_idx: 0,
            first_arg: 5,
            arg_cnt: 2
        }),
        "invoke-custom/range v5 v6 CallSiteIdItem { call_site_off: 300 }"
    );
    assert_eq!(
        text(Instruction::ConstMethodHandle {
            dst: 1,
            method_handle_idx: 0
        }),
        "const-method-handle v1 MethodHandleItem { method_handle_type: 4, field_or_method_id: 1 }"
    );
    assert_eq!(
        text(Instruction::ConstMethodType {
            dst: 1,
            proto_idx: 1
        }),
        "const-method-type v1 (ILjava/lang/String;)I"
    );
}

fn labels_of(targets: &[usize]) -> Labels {
    let mut labels = Labels::new();
    for t in targets {
        labels.insert(*t);
    }
    labels
}

#[test]
fn render_branches_with_labels() {
    let dex = sample_dex();
    let labels = labels_of(&[68, 8, 304, 100]);
    // the targets in ascending order are 8, 68, 100, 304
    assert_eq!(
        Instruction::Goto { offset: -16 }.to_human_readable(&dex, 100, &labels),
        Ok(String::from("goto :L1"))
    );
    assert_eq!(
        Instruction::Goto16 { offset: 0 }.to_human_readable(&dex, 100, &labels),
        Ok(String::from("goto/16 :L2"))
    );
    assert_eq!(
        Instruction::Goto32 { offset: 102 }.to_human_readable(&dex, 100, &labels),
        Ok(String::from("goto/32 :L3"))
    );
    assert_eq!(
        Instruction::IfEq {
            a: 3,
            b: 11,
            offset: 102
        }
        .to_human_readable(&dex, 100, &labels),
        Ok(String::from("if-eq v3 v11 :L3"))
    );
    assert_eq!(
        Instruction::IfNez { a: 2, offset: 4 }.to_human_readable(&dex, 0, &labels),
        Ok(String::from("if-nez v2 :L0"))
    );
    assert_eq!(
        Instruction::PackedSwitch {
            value: 2,
            offset: 2
        }
        .to_human_readable(&dex, 4, &labels),
        Ok(String::from("packed-switch v2 :L0"))
    );
    assert_eq!(
        Instruction::SparseSwitch {
            value: 2,
            offset: 30
        }
        .to_human_readable(&dex, 8, &labels),
        Ok(String::from("sparse-switch v2 :L1"))
    );
    assert_eq!(
        Instruction::FillArrayData {
            array: 6,
            offset: 37
        }
        .to_human_readable(&dex, 26, &labels),
        Ok(String::from("fill-array-data v6 :L2"))
    );
}

#[test]
fn render_branch_without_label() {
    let dex = sample_dex();
    let labels = labels_of(&[8]);
    assert_eq!(
        Instruction::Goto { offset: 1 }.to_human_readable(&dex, 100, &labels),
        Err(ConversionError::MissingLabel(100))
    );
    // a target before the first instruction
    assert_eq!(
        Instruction::Goto { offset: -16 }.to_human_readable(&dex, 4, &labels),
        Err(ConversionError::MissingLabel(4))
    );
    assert_eq!(
        Instruction::IfEqz { a: 0, offset: 5 }.to_human_readable(&dex, 0, &Labels::new()),
        Err(ConversionError::MissingLabel(0))
    );
    assert_eq!(
        Instruction::Goto32 {
            offset: i32::MIN
        }
        .to_human_readable(&dex, usize::MAX, &labels),
        Err(ConversionError::MissingLabel(usize::MAX))
    );
}

fn table_error(insn: Instruction) -> TableIdxError {
    match render(insn) {
        Err(ConversionError::TableIdxError(e)) => e,
        other => panic!("{:?}", other),
    }
}

#[test]
fn render_reports_each_pool() {
    assert_eq!(
        table_error(Instruction::ConstString {
            dst: 0,
            string_idx: 4
        }),
        TableIdxError::String(4)
    );
    assert_eq!(
        table_error(Instruction::ConstStringJumbo {
            dst: 0,
            string_idx: 0xFFFF_FFFF
        }),
        TableIdxError::String(0xFFFF_FFFF)
    );
    assert_eq!(
        table_error(Instruction::ConstClass {
            dst: 0,
            type_idx: 4
        }),
        TableIdxError::Type(4)
    );
    assert_eq!(
        table_error(Instruction::Sget {
            src: 0,
            field_idx: 2
        }),
        TableIdxError::FieldId(2)
    );
    assert_eq!(
        table_error(Instruction::InvokeStatic {
            method_idx: 3,
            args: [0; 5],
            arg_cnt: 0
        }),
        TableIdxError::MethodId(3)
    );
    assert_eq!(
        table_error(Instruction::ConstMethodType {
            dst: 0,
            proto_idx: 3
        }),
        TableIdxError::ProtoId(3)
    );
    assert_eq!(
        table_error(Instruction::InvokeCustom {
            call_site_idx: 1,
            args: [0; 5],
            arg_cnt: 0
        }),
        TableIdxError::CallSite(1)
    );
    assert_eq!(
        table_error(Instruction::ConstMethodHandle {
            dst: 0,
            method_handle_idx: 1
        }),
        TableIdxError::MethodHandle(1)
    );
}

#[test]
fn render_reports_indices_inside_references() {
    // the field's name lies outside the string pool
    assert_eq!(
        table_error(Instruction::Sget {
            src: 0,
            field_idx: 1
        }),
        TableIdxError::String(77)
    );
    // the method's prototype lies outside the prototype pool
    assert_eq!(
        table_error(Instruction::InvokeStatic {
            method_idx: 2,
            args: [0; 5],
            arg_cnt: 0
        }),
        TableIdxError::ProtoId(5)
    );
    // the prototype's return type lies outside the type pool
    assert_eq!(
        table_error(Instruction::ConstMethodType {
            dst: 0,
            proto_idx: 2
        }),
        TableIdxError::Type(9)
    );
    // both indices are checked before either reference is rendered
    assert_eq!(
        table_error(Instruction::InvokePolymorphic {
            method_idx: 2,
            proto_idx: 8,
            args: [0; 5],
            arg_cnt: 0
        }),
        TableIdxError::ProtoId(8)
    );
    assert_eq!(
        table_error(Instruction::InvokePolymorphic {
            method_idx: 9,
            proto_idx: 8,
            args: [0; 5],
            arg_cnt: 0
        }),
        TableIdxError::MethodId(9)
    );
}

#[test]
fn reference_texts() {
    let dex = sample_dex();
    assert_eq!(
        dex.field_ids[0].to_human_readable(&dex),
        Ok(String::from("LFoo;->count:I"))
    );
    assert_eq!(
        dex.method_ids[1].to_human_readable(&dex),
        Ok(String::from("LFoo;->run(ILjava/lang/String;)I"))
    );
    assert_eq!(
        dex.proto_ids[0].to_human_readable(&dex),
        Ok(String::from("()V"))
    );
    assert_eq!(
        dex.proto_ids[1].to_human_readable(&dex),
        Ok(String::from("(ILjava/lang/String;)I"))
    );
    assert_eq!(dex.proto_ids[1].parameters(&dex).len(), 2);
    assert_eq!(dex.string(1), Ok("run"));
    assert_eq!(dex.string(4), Err(TableIdxError::String(4)));
    assert_eq!(dex.type_descriptor(2), Ok("V"));
    assert_eq!(dex.type_descriptor(4), Err(TableIdxError::Type(4)));
    assert_eq!(
        FieldIdItem {
            class_idx: 8,
            type_idx: 9,
            name_idx: 10
        }
        .to_human_readable(&dex),
        Err(TableIdxError::Type(8))
    );
    assert_eq!(
        FieldIdItem {
            class_idx: 0,
            type_idx: 9,
            name_idx: 10
        }
        .to_human_readable(&dex),
        Err(TableIdxError::Type(9))
    );
    assert_eq!(
        MethodIdItem {
            class_idx: 0,
            proto_idx: 0,
            name_idx: 10
        }
        .to_human_readable(&dex),
        Err(TableIdxError::String(10))
    );
}

#[test]
fn prototype_with_unreadable_parameters() {
    let dex = sample_dex();
    // the count that stands there asks for more bytes than there are
    let cut = ProtoIdItem {
        shorty_idx: 0,
        return_type_idx: 2,
        parameters_off: 6,
    };
    assert_eq!(cut.parameters(&dex).len(), 0);
    assert_eq!(cut.to_human_readable(&dex), Ok(String::from("()V")));
    let outside = ProtoIdItem {
        shorty_idx: 0,
        return_type_idx: 2,
        parameters_off: 4000,
    };
    assert_eq!(outside.to_human_readable(&dex), Ok(String::from("()V")));
}

#[test]
fn table_error_texts() {
    assert_eq!(TableIdxError::String(4).debug_text(), "String(4)");
    assert_eq!(TableIdxError::Type(0).debug_text(), "Type(0)");
    assert_eq!(TableIdxError::FieldId(12).debug_text(), "FieldId(12)");
    assert_eq!(TableIdxError::MethodId(3).debug_text(), "MethodId(3)");
    assert_eq!(TableIdxError::ProtoId(65535).debug_text(), "ProtoId(65535)");
    assert_eq!(TableIdxError::CallSite(1).debug_text(), "CallSite(1)");
    assert_eq!(
        TableIdxError::MethodHandle(1).debug_text(),
        "MethodHandle(1)"
    );
    assert_eq!(
        ConversionError::from(TableIdxError::Type(2)),
        ConversionError::TableIdxError(TableIdxError::Type(2))
    );
}
