use dex2smali::dex::instruction::size::instruction_size_bytes;
use dex2smali::dex::instruction::Instruction;
use dex2smali::errors::InstructionError;

fn is_defined(opcode: u8) -> bool {
    !matches!(opcode, 0x3E..=0x43 | 0x73 | 0x79 | 0x7A | 0xE3..=0xF9)
}

#[test]
fn every_undefined_opcode_is_unknown() {
    let mut undefined = 0;
    for opcode in 0x00..=0xFFu8 {
        if is_defined(opcode) {
            continue;
        }
        undefined += 1;
        assert_eq!(
            instruction_size_bytes(opcode),
            Err(InstructionError::UnknownOpcode(opcode))
        );
        let buffer = [opcode, 0, 0, 0, 0, 0, 0, 0, 0, 0];
        assert_eq!(
            Instruction::try_decode(&buffer),
            Err(InstructionError::UnknownOpcode(opcode))
        );
        assert_eq!(
            Instruction::try_decode(&[opcode]),
            Err(InstructionError::UnknownOpcode(opcode))
        );
        assert_eq!(
            Instruction::decode(&buffer),
            Err(InstructionError::UnknownOpcode(opcode))
        );
    }
    assert_eq!(undefined, 32);
}

#[test]
fn every_defined_opcode_decodes_to_its_size() {
    let mut seed: u32 = 7;
    for opcode in 0x00..=0xFFu8 {
        if !is_defined(opcode) {
            continue;
        }
        let size = instruction_size_bytes(opcode).unwrap();
        assert!(size == 2 || size == 4 || size == 6 || size == 8 || size == 10);
        for _ in 0..16 {
            let mut buffer = vec![opcode];
            while buffer.len() < size {
                seed = seed.wrapping_mul(1664525).wrapping_add(1013904223);
                buffer.push((seed >> 24) as u8);
            }
            let insn = Instruction::try_decode(&buffer).unwrap();
            assert_eq!(insn.size_bytes(), size);
            assert_eq!(Instruction::decode(&buffer), Ok((insn, size)));
            // bytes behind the instruction change nothing
            buffer.push(0xAB);
            assert_eq!(Instruction::try_decode(&buffer), Ok(insn));
            // one byte less is too short
            buffer.truncate(size - 1);
            assert_eq!(
                Instruction::try_decode(&buffer),
                Err(InstructionError::Size {
                    opcode,
                    expected: size,
                    actual: size - 1
                })
            );
        }
    }
}

#[test]
fn size_table_exact_values() {
    assert_eq!(instruction_size_bytes(0x00), Ok(2));
    assert_eq!(instruction_size_bytes(0x02), Ok(4));
    assert_eq!(instruction_size_bytes(0x03), Ok(6));
    assert_eq!(instruction_size_bytes(0x18), Ok(10));
    assert_eq!(instruction_size_bytes(0x2A), Ok(6));
    assert_eq!(instruction_size_bytes(0xFA), Ok(8));
    assert_eq!(instruction_size_bytes(0xFB), Ok(8));
    assert_eq!(instruction_size_bytes(0xFF), Ok(4));
}

#[test]
fn empty_buffer_is_reported() {
    assert_eq!(
        Instruction::try_decode(&[]),
        Err(InstructionError::EmptyBuffer)
    );
    assert_eq!(Instruction::decode(&[]), Err(InstructionError::EmptyBuffer));
}

#[test]
fn short_buffer_is_reported() {
    assert_eq!(
        Instruction::try_decode(&[0x18, 0x00, 0x01]),
        Err(InstructionError::Size {
            opcode: 0x18,
            expected: 10,
            actual: 3
        })
    );
    assert_eq!(
        Instruction::try_decode(&[0x00]),
        Err(InstructionError::Size {
            opcode: 0x00,
            expected: 2,
            actual: 1
        })
    );
}

#[test]
fn literals_are_sign_extended() {
    assert_eq!(
        Instruction::try_decode(&[0x12, 0xF3]),
        Ok(Instruction::Const4 { dst: 3, value: -1 })
    );
    assert_eq!(
        Instruction::try_decode(&[0x12, 0x83]),
        Ok(Instruction::Const4 { dst: 3, value: -8 })
    );
    assert_eq!(
        Instruction::try_decode(&[0x12, 0x73]),
        Ok(Instruction::Const4 { dst: 3, value: 7 })
    );
    assert_eq!(
        Instruction::try_decode(&[0x13, 0x01, 0xFF, 0xFF]),
        Ok(Instruction::Const16 { dst: 1, value: -1 })
    );
    assert_eq!(
        Instruction::try_decode(&[0x14, 0x01, 0x00, 0x00, 0x00, 0x80]),
        Ok(Instruction::Const {
            dst: 1,
            value: i32::MIN
        })
    );
    assert_eq!(
        Instruction::try_decode(&[0x18, 0x01, 0xFF, 0xFF, 0xFF, 0xFF, 0xFF, 0xFF, 0xFF, 0xFF]),
        Ok(Instruction::ConstWide { dst: 1, value: -1 })
    );
    assert_eq!(
        Instruction::try_decode(&[0xD8, 0x01, 0x02, 0x80]),
        Ok(Instruction::AddIntLit8 {
            dst: 1,
            src: 2,
            value: -128
        })
    );
    assert_eq!(
        Instruction::try_decode(&[0xD1, 0x21, 0xFE, 0xFF]),
        Ok(Instruction::RsubInt {
            dst: 1,
            src: 2,
            value: -2
        })
    );
}

#[test]
fn wide_formats() {
    assert_eq!(
        Instruction::try_decode(&[0x03, 0x00, 0x34, 0x12, 0x78, 0x56]),
        Ok(Instruction::Move16 {
            dst: 0x1234,
            src: 0x5678
        })
    );
    assert_eq!(Instruction::Move16 { dst: 1, src: 2 }.size_bytes(), 6);
    assert_eq!(Instruction::MoveWide16 { dst: 1, src: 2 }.size_bytes(), 6);
    assert_eq!(Instruction::MoveObject16 { dst: 1, src: 2 }.size_bytes(), 6);
    assert_eq!(
        Instruction::try_decode(&[0x1B, 0x02, 0x78, 0x56, 0x34, 0x12]),
        Ok(Instruction::ConstStringJumbo {
            dst: 2,
            string_idx: 0x1234_5678
        })
    );
    assert_eq!(
        Instruction::try_decode(&[0x2A, 0x00, 0xFE, 0xFF, 0xFF, 0xFF]),
        Ok(Instruction::Goto32 { offset: -2 })
    );
    assert_eq!(
        Instruction::try_decode(&[0xFA, 0x21, 0x05, 0x00, 0x43, 0x65, 0x07, 0x00]),
        Ok(Instruction::InvokePolymorphic {
            method_idx: 5,
            proto_idx: 7,
            args: [3, 4, 5, 6, 1],
            arg_cnt: 2
        })
    );
    assert_eq!(
        Instruction::try_decode(&[0xFB, 0x03, 0x05, 0x00, 0x10, 0x00, 0x07, 0x00]),
        Ok(Instruction::InvokePolymorphicRange {
            method_idx: 5,
            proto_idx: 7,
            first_arg: 16,
            arg_cnt: 3
        })
    );
}

#[test]
fn invoke_direct_with_one_register() {
    let (insn, size) = Instruction::decode(&[0x70, 0x10, 0x08, 0x00, 0x01, 0x00]).unwrap();
    assert_eq!(
        insn,
        Instruction::InvokeDirect {
            method_idx: 8,
            args: [1, 0, 0, 0, 0],
            arg_cnt: 1
        }
    );
    assert_eq!(size, 6);
}

#[test]
fn branch_offsets() {
    let goto = Instruction::try_decode(&[0x28, 0xF0]).unwrap();
    assert_eq!(goto, Instruction::Goto { offset: -16 });
    assert_eq!(goto.size_bytes(), 2);
    assert_eq!(goto.offset(), Some(-16));
    // the target in bytes, for an instruction at byte 100
    assert_eq!(100 + 2 * goto.offset().unwrap(), 68);

    assert_eq!(Instruction::Goto16 { offset: -497 }.offset(), Some(-497));
    assert_eq!(Instruction::Goto32 { offset: 70000 }.offset(), Some(70000));
    assert_eq!(
        Instruction::IfEq {
            a: 1,
            b: 2,
            offset: 102
        }
        .offset(),
        Some(102)
    );
    assert_eq!(Instruction::IfLez { a: 1, offset: -3 }.offset(), Some(-3));
    assert_eq!(
        Instruction::PackedSwitch {
            value: 2,
            offset: 12
        }
        .offset(),
        Some(12)
    );
    assert_eq!(
        Instruction::SparseSwitch {
            value: 2,
            offset: 13
        }
        .offset(),
        Some(13)
    );
    assert_eq!(
        Instruction::FillArrayData {
            array: 6,
            offset: 37
        }
        .offset(),
        Some(37)
    );
    assert_eq!(Instruction::Nop.offset(), None);
    assert_eq!(Instruction::Const4 { dst: 1, value: 2 }.offset(), None);
    assert_eq!(
        Instruction::InvokeStatic {
            method_idx: 1,
            args: [0; 5],
            arg_cnt: 0
        }
        .offset(),
        None
    );
}

#[test]
fn mnemonics() {
    assert_eq!(Instruction::Nop.opcode(), "nop");
    assert_eq!(Instruction::Const4 { dst: 1, value: 2 }.opcode(), "const/4");
    assert_eq!(
        Instruction::MoveWideFrom16 { dst: 1, src: 2 }.opcode(),
        "move-wide/from16"
    );
    assert_eq!(
        Instruction::UShrLong2Addr { dst: 1, src: 2 }.opcode(),
        "ushr-long/2addr"
    );
    assert_eq!(
        Instruction::RsubInt {
            dst: 1,
            src: 2,
            value: 3
        }
        .opcode(),
        "rsub-int"
    );
    assert_eq!(
        Instruction::RsubIntLit8 {
            dst: 1,
            src: 2,
            value: 3
        }
        .opcode(),
        "rsub-int/lit8"
    );
    assert_eq!(
        Instruction::InvokeInterfaceRange {
            method_idx: 1,
            first_arg: 2,
            arg_cnt: 3
        }
        .opcode(),
        "invoke-interface/range"
    );
    assert_eq!(
        Instruction::ConstMethodType {
            dst: 1,
            proto_idx: 2
        }
        .opcode(),
        "const-method-type"
    );
}
