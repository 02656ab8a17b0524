use dex2smali::dex::code_item::{collect_labels, decode_instructions, CodeItem};
use dex2smali::dex::instruction::Instruction;
use dex2smali::dex::labels::Labels;
use dex2smali::errors::{DexParseError, InstructionError};

fn code_item(insns: &[u8]) -> Vec<u8> {
    assert!(insns.len() % 2 == 0);
    let mut bytes = vec![
        0x05, 0x00, // registers_size
        0x02, 0x00, // ins_size
        0x03, 0x00, // outs_size
        0x01, 0x00, // tries_size
        0x44, 0x33, 0x22, 0x11, // debug_info_off
    ];
    bytes.extend_from_slice(&((insns.len() / 2) as u32).to_le_bytes());
    bytes.extend_from_slice(insns);
    bytes
}

#[test]
fn code_item_header() {
    let bytes = code_item(&[0x0E, 0x00]);
    let code = CodeItem::try_parse_from_bytes_unsized(&bytes).unwrap();
    assert_eq!(code.registers_size, 5);
    assert_eq!(code.ins_size, 2);
    assert_eq!(code.outs_size, 3);
    assert_eq!(code.tries_size, 1);
    assert_eq!(code.debug_info_off, 0x1122_3344);
    assert_eq!(code.insns_size, 1);
    assert_eq!(code.insns, vec![Instruction::ReturnVoid]);
    assert_eq!(code.stopped_by, None);
    assert_eq!(code.labels.len(), 0);
}

#[test]
fn code_item_without_instructions() {
    let code = CodeItem::try_parse_from_bytes_unsized(&code_item(&[])).unwrap();
    assert!(code.insns.is_empty());
    assert_eq!(code.stopped_by, None);
}

#[test]
fn code_item_that_is_cut_short() {
    match CodeItem::try_parse_from_bytes_unsized(&[0u8; 15]) {
        Err(e) => assert_eq!(
            e,
            DexParseError::InvalidElementSize {
                field: "code_item",
                expected: 16,
                actual: 15
            }
        ),
        Ok(_) => panic!("parsed"),
    }
    let mut bytes = code_item(&[0x00, 0x00, 0x0E, 0x00]);
    bytes.pop();
    match CodeItem::try_parse_from_bytes_unsized(&bytes) {
        Err(e) => assert_eq!(
            e,
            DexParseError::InvalidElementSize {
                field: "code_item",
                expected: 20,
                actual: 19
            }
        ),
        Ok(_) => panic!("parsed"),
    }
}

#[test]
fn instructions_stop_at_the_end_of_the_instructions() {
    // what follows the instructions is not decoded
    let mut bytes = code_item(&[0x00, 0x00]);
    bytes.extend_from_slice(&[0x0E, 0x00, 0x0E, 0x00]);
    let code = CodeItem::try_parse_from_bytes_unsized(&bytes).unwrap();
    assert_eq!(code.insns, vec![Instruction::Nop]);
    // an instruction that runs over the end of the instructions is cut short,
    // whatever stands behind them
    let mut bytes = code_item(&[0x00, 0x00, 0x14, 0x01]);
    bytes.extend_from_slice(&[0x01, 0x02, 0x03, 0x04]);
    let code = CodeItem::try_parse_from_bytes_unsized(&bytes).unwrap();
    assert_eq!(code.insns, vec![Instruction::Nop]);
    assert_eq!(
        code.stopped_by,
        Some(InstructionError::Size {
            opcode: 0x14,
            expected: 6,
            actual: 2
        })
    );
}

#[test]
fn labels_are_numbered_in_ascending_order() {
    let insns = [
        0x28, 0x05, // 0: goto +5 -> 10
        0x38, 0x00, 0x01, 0x00, // 2: if-eqz v0 +1 -> 4
        0x28, 0xFD, // 6: goto -3 -> 0
        0x32, 0x10, 0x01, 0x00, // 8: if-eq v0 v1 +1 -> 10
        0x29, 0x00, 0xFE, 0xFF, // 12: goto/16 -2 -> 8
        0x0E, 0x00, // 16: return-void
        0x28, 0x00, // 18: goto +0 -> 18
        0x28, 0x01, // 20: goto +1 -> 22, the end
    ];
    let code = CodeItem::try_parse_from_bytes_unsized(&code_item(&insns)).unwrap();
    assert_eq!(code.insns.len(), 8);
    assert_eq!(code.labels.len(), 6);
    let targets: Vec<usize> = (0..code.labels.len()).map(|i| code.labels.target(i)).collect();
    assert_eq!(targets, vec![0, 4, 8, 10, 18, 22]);
    assert_eq!(code.labels.get(0), Some(0));
    assert_eq!(code.labels.get(4), Some(1));
    assert_eq!(code.labels.get(8), Some(2));
    assert_eq!(code.labels.get(10), Some(3));
    assert_eq!(code.labels.get(18), Some(4));
    assert_eq!(code.labels.get(22), Some(5));
    assert_eq!(code.labels.get(2), None);
    assert!(code.stray_branches.is_empty());
}

#[test]
fn every_branch_has_a_label_or_is_stray() {
    let insns = [
        0x28, 0xFF, // 0: goto -1 -> -2
        0x28, 0x05, // 2: goto +5 -> 12, the end
        0x28, 0x05, // 4: goto +5 -> 14, behind the end
        0x2B, 0x00, 0x00, 0x00, 0x00, 0x40, // 6: packed-switch, far behind the end
    ];
    // the last instruction takes six bytes: the instructions are 12 bytes
    let code = CodeItem::try_parse_from_bytes_unsized(&code_item(&insns)).unwrap();
    assert_eq!(code.insns.len(), 4);
    let mut pc = 0usize;
    for insn in code.insns.iter() {
        if let Some(offset) = insn.offset() {
            let target = pc as i64 + 2 * offset as i64;
            if 0 <= target && target <= 12 {
                assert!(code.labels.get(target as usize).is_some());
            } else {
                assert!(code.stray_branches.contains(&pc));
            }
        }
        pc += insn.size_bytes();
    }
    assert_eq!(code.stray_branches, vec![0, 4, 6]);
    assert_eq!(code.labels.len(), 1);
    assert_eq!(code.labels.get(12), Some(0));
}

#[test]
fn decode_instructions_gives_the_failure() {
    let (insns, stopped_by) = decode_instructions(&[0x00, 0x00, 0x12, 0x21, 0xE3, 0x00]);
    assert_eq!(
        insns,
        vec![Instruction::Nop, Instruction::Const4 { dst: 1, value: 2 }]
    );
    assert_eq!(stopped_by, Some(InstructionError::UnknownOpcode(0xE3)));
    let (insns, stopped_by) = decode_instructions(&[0x00, 0x00, 0x12]);
    assert_eq!(insns, vec![Instruction::Nop]);
    assert_eq!(
        stopped_by,
        Some(InstructionError::Size {
            opcode: 0x12,
            expected: 2,
            actual: 1
        })
    );
    let (insns, stopped_by) = decode_instructions(&[]);
    assert!(insns.is_empty());
    assert_eq!(stopped_by, None);
}

#[test]
fn collect_labels_by_hand() {
    let insns = vec![
        Instruction::Goto32 { offset: 3 },
        Instruction::Nop,
        Instruction::Goto { offset: -4 },
        Instruction::IfEqz { a: 0, offset: 100 },
    ];
    let (labels, stray) = collect_labels(&insns, 14);
    assert_eq!(labels.len(), 2);
    assert_eq!(labels.get(0), Some(0));
    assert_eq!(labels.get(6), Some(1));
    assert_eq!(stray, vec![10]);
}

#[test]
fn labels_keep_their_order() {
    let mut labels = Labels::new();
    assert_eq!(labels.len(), 0);
    assert_eq!(labels.get(0), None);
    for t in [40usize, 10, 30, 10, 20, 40, 0, usize::MAX] {
        labels.insert(t);
    }
    assert_eq!(labels.len(), 6);
    let targets: Vec<usize> = (0..labels.len()).map(|i| labels.target(i)).collect();
    assert_eq!(targets, vec![0, 10, 20, 30, 40, usize::MAX]);
    for (id, t) in targets.iter().enumerate() {
        assert_eq!(labels.get(*t), Some(id));
    }
    assert_eq!(labels.get(5), None);
    assert_eq!(labels.get(35), None);
    assert_eq!(labels.get(usize::MAX - 1), None);
}
