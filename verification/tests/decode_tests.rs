use dex2smali::dex::instruction::Instruction;

#[test]
fn test_decode_nop() {
    let buffer = [0x00, 0x00];
    let (inst, length) = Instruction::decode(&buffer).unwrap();
    assert_eq!(inst, Instruction::Nop);
    assert_eq!(length, 2);
}

#[test]
fn test_decode_move() {
    let buffer = [0x01, 0x56];
    let (inst, length) = Instruction::decode(&buffer).unwrap();
    assert_eq!(inst, Instruction::Move { dst: 6, src: 5 });
    assert_eq!(length, 2);
}

#[test]
fn test_decode_move2() {
    let buffer = [0x01, 0x10];
    let (inst, length) = Instruction::decode(&buffer).unwrap();
    assert_eq!(inst, Instruction::Move { dst: 0, src: 1 });
    assert_eq!(length, 2);
}

#[test]
fn instruction_test_sget_object() {
    let buffer = [0x62, 0x01, 0x0c, 0x00];
    let (inst, length) = Instruction::decode(&buffer).unwrap();
    assert_eq!(
        inst,
        Instruction::SgetObject {
            src: 1,
            field_idx: 0xc,
        }
    );
    assert_eq!(length, 4);
}

#[test]
fn instruction_test_invoke_direct() {
    let buffer = [0x70, 0x10, 0x08, 0x00, 0x01, 0x00];
    let (inst, length) = Instruction::decode(&buffer).unwrap();
    assert_eq!(
        inst,
        Instruction::InvokeDirect {
            method_idx: 8,
            args: [1, 0, 0, 0, 0],
            arg_cnt: 1,
        }
    );
    assert_eq!(length, 6);
}
