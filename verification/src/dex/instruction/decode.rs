use vstd::prelude::*;

use crate::dex::instruction::size::{instruction_size_bytes, opcode_size};
use crate::dex::instruction::Instruction;
use crate::errors::InstructionError;
use crate::utils::{
    as_i16, as_i32, as_i64, as_i8, hi_nibble, lo_nibble, nibble_as_i8, nibble_to_i8, read_u16_le,
    read_u32_le, read_u64_le, to_i16, to_i32, to_i64, to_i8, to_nibbles, u16_le, u32_le, u64_le,
};

verus! {

/// The registers C, D, E, F and G of an instruction that names up to five
/// registers one by one: C and D share the fifth byte, E and F the sixth, and
/// G is the low half of the second byte.
pub open spec fn register_list(s: Seq<u8>) -> [u8; 5] {
    [lo_nibble(s[4]), hi_nibble(s[4]), lo_nibble(s[5]), hi_nibble(s[5]), lo_nibble(s[1])]
}

/// The instruction that the bytes `s` encode, for an `s` that starts with a
/// defined opcode and holds at least the bytes of its instruction.
pub open spec fn decode_operands(s: Seq<u8>) -> Instruction
    recommends
        s.len() >= 1,
        opcode_size(s[0]) is Some,
        s.len() >= opcode_size(s[0])->0,
{
    match s[0] {
        0x00 => Instruction::Nop,
        0x01 => Instruction::Move { dst: lo_nibble(s[1]), src: hi_nibble(s[1]) },
        0x02 => Instruction::MoveFrom16 { dst: s[1], src: u16_le(s, 2) },
        0x03 => Instruction::Move16 { dst: u16_le(s, 2), src: u16_le(s, 4) },
        0x04 => Instruction::MoveWide { dst: lo_nibble(s[1]), src: hi_nibble(s[1]) },
        0x05 => Instruction::MoveWideFrom16 { dst: s[1], src: u16_le(s, 2) },
        0x06 => Instruction::MoveWide16 { dst: u16_le(s, 2), src: u16_le(s, 4) },
        0x07 => Instruction::MoveObject { dst: lo_nibble(s[1]), src: hi_nibble(s[1]) },
        0x08 => Instruction::MoveObjectFrom16 { dst: s[1], src: u16_le(s, 2) },
        0x09 => Instruction::MoveObject16 { dst: u16_le(s, 2), src: u16_le(s, 4) },
        0x0A => Instruction::MoveResult { dst: s[1] },
        0x0B => Instruction::MoveResultWide { dst: s[1] },
        0x0C => Instruction::MoveResultObject { dst: s[1] },
        0x0D => Instruction::MoveException { dst: s[1] },
        0x0E => Instruction::ReturnVoid,
        0x0F => Instruction::Return { value: s[1] },
        0x10 => Instruction::ReturnWide { value: s[1] },
        0x11 => Instruction::ReturnObject { value: s[1] },
        0x12 => Instruction::Const4 { dst: lo_nibble(s[1]), value: nibble_as_i8(hi_nibble(s[1])) },
        0x13 => Instruction::Const16 { dst: s[1], value: as_i16(u16_le(s, 2)) },
        0x14 => Instruction::Const { dst: s[1], value: as_i32(u32_le(s, 2)) },
        0x15 => Instruction::ConstHigh16 { dst: s[1], value: as_i16(u16_le(s, 2)) },
        0x16 => Instruction::ConstWide16 { dst: s[1], value: as_i16(u16_le(s, 2)) },
        0x17 => Instruction::ConstWide32 { dst: s[1], value: as_i32(u32_le(s, 2)) },
        0x18 => Instruction::ConstWide { dst: s[1], value: as_i64(u64_le(s, 2)) },
        0x19 => Instruction::ConstWideHigh16 { dst: s[1], value: as_i16(u16_le(s, 2)) },
        0x1A => Instruction::ConstString { dst: s[1], string_idx: u16_le(s, 2) },
        0x1B => Instruction::ConstStringJumbo { dst: s[1], string_idx: u32_le(s, 2) },
        0x1C => Instruction::ConstClass { dst: s[1], type_idx: u16_le(s, 2) },
        0x1D => Instruction::MonitorEnter { reference: s[1] },
        0x1E => Instruction::MonitorExit { reference: s[1] },
        0x1F => Instruction::CheckCast { reference: s[1], type_idx: u16_le(s, 2) },
        0x20 => Instruction::InstanceOf {
            dst: lo_nibble(s[1]),
            reference: hi_nibble(s[1]),
            type_idx: u16_le(s, 2),
        },
        0x21 => Instruction::ArrayLength { dst: lo_nibble(s[1]), array: hi_nibble(s[1]) },
        0x22 => Instruction::NewInstance { dst: s[1], type_idx: u16_le(s, 2) },
        0x23 => Instruction::NewArray {
            dst: lo_nibble(s[1]),
            size: hi_nibble(s[1]),
            type_idx: u16_le(s, 2),
        },
        0x24 => Instruction::FilledNewArray {
            type_idx: u16_le(s, 2),
            args: register_list(s),
            arg_cnt: hi_nibble(s[1]),
        },
        0x25 => Instruction::FilledNewArrayRange {
            type_idx: u16_le(s, 2),
            first_arg: u16_le(s, 4),
            arg_cnt: s[1],
        },
        0x26 => Instruction::FillArrayData { array: s[1], offset: as_i32(u32_le(s, 2)) },
        0x27 => Instruction::Throw { exception: s[1] },
        0x28 => Instruction::Goto { offset: as_i8(s[1]) },
        0x29 => Instruction::Goto16 { offset: as_i16(u16_le(s, 2)) },
        0x2A => Instruction::Goto32 { offset: as_i32(u32_le(s, 2)) },
        0x2B => Instruction::PackedSwitch { value: s[1], offset: as_i32(u32_le(s, 2)) },
        0x2C => Instruction::SparseSwitch { value: s[1], offset: as_i32(u32_le(s, 2)) },
        0x2D => Instruction::CmplFloat { dst: s[1], src_a: s[2], src_b: s[3] },
        0x2E => Instruction::CmpgFloat { dst: s[1], src_a: s[2], src_b: s[3] },
        0x2F => Instruction::CmplDouble { dst: s[1], src_a: s[2], src_b: s[3] },
        0x30 => Instruction::CmpgDouble { dst: s[1], src_a: s[2], src_b: s[3] },
        0x31 => Instruction::CmpLong { dst: s[1], src_a: s[2], src_b: s[3] },
        0x32 => Instruction::IfEq {
            a: lo_nibble(s[1]),
            b: hi_nibble(s[1]),
            offset: as_i16(u16_le(s, 2)),
        },
        0x33 => Instruction::IfNe {
            a: lo_nibble(s[1]),
            b: hi_nibble(s[1]),
            offset: as_i16(u16_le(s, 2)),
        },
        0x34 => Instruction::IfLt {
            a: lo_nibble(s[1]),
            b: hi_nibble(s[1]),
            offset: as_i16(u16_le(s, 2)),
        },
        0x35 => Instruction::IfGe {
            a: lo_nibble(s[1]),
            b: hi_nibble(s[1]),
            offset: as_i16(u16_le(s, 2)),
        },
        0x36 => Instruction::IfGt {
            a: lo_nibble(s[1]),
            b: hi_nibble(s[1]),
            offset: as_i16(u16_le(s, 2)),
        },
        0x37 => Instruction::IfLe {
            a: lo_nibble(s[1]),
            b: hi_nibble(s[1]),
            offset: as_i16(u16_le(s, 2)),
        },
        0x38 => Instruction::IfEqz { a: s[1], offset: as_i16(u16_le(s, 2)) },
        0x39 => Instruction::IfNez { a: s[1], offset: as_i16(u16_le(s, 2)) },
        0x3A => Instruction::IfLtz { a: s[1], offset: as_i16(u16_le(s, 2)) },
        0x3B => Instruction::IfGez { a: s[1], offset: as_i16(u16_le(s, 2)) },
        0x3C => Instruction::IfGtz { a: s[1], offset: as_i16(u16_le(s, 2)) },
        0x3D => Instruction::IfLez { a: s[1], offset: as_i16(u16_le(s, 2)) },
        0x44 => Instruction::Aget { src: s[1], array: s[2], index: s[3] },
        0x45 => Instruction::AgetWide { src: s[1], array: s[2], index: s[3] },
        0x46 => Instruction::AgetObject { src: s[1], array: s[2], index: s[3] },
        0x47 => Instruction::AgetBoolean { src: s[1], array: s[2], index: s[3] },
        0x48 => Instruction::AgetByte { src: s[1], array: s[2], index: s[3] },
        0x49 => Instruction::AgetChar { src: s[1], array: s[2], index: s[3] },
        0x4A => Instruction::AgetShort { src: s[1], array: s[2], index: s[3] },
        0x4B => Instruction::Aput { dst: s[1], array: s[2], index: s[3] },
        0x4C => Instruction::AputWide { dst: s[1], array: s[2], index: s[3] },
        0x4D => Instruction::AputObject { dst: s[1], array: s[2], index: s[3] },
        0x4E => Instruction::AputBoolean { dst: s[1], array: s[2], index: s[3] },
        0x4F => Instruction::AputByte { dst: s[1], array: s[2], index: s[3] },
        0x50 => Instruction::AputChar { dst: s[1], array: s[2], index: s[3] },
        0x51 => Instruction::AputShort { dst: s[1], array: s[2], index: s[3] },
        0x52 => Instruction::Iget {
            src: lo_nibble(s[1]),
            object: hi_nibble(s[1]),
            field_idx: u16_le(s, 2),
        },
        0x53 => Instruction::IgetWide {
            src: lo_nibble(s[1]),
            object: hi_nibble(s[1]),
            field_idx: u16_le(s, 2),
        },
        0x54 => Instruction::IgetObject {
            src: lo_nibble(s[1]),
            object: hi_nibble(s[1]),
            field_idx: u16_le(s, 2),
        },
        0x55 => Instruction::IgetBoolean {
            src: lo_nibble(s[1]),
            object: hi_nibble(s[1]),
            field_idx: u16_le(s, 2),
        },
        0x56 => Instruction::IgetByte {
            src: lo_nibble(s[1]),
            object: hi_nibble(s[1]),
            field_idx: u16_le(s, 2),
        },
        0x57 => Instruction::IgetChar {
            src: lo_nibble(s[1]),
            object: hi_nibble(s[1]),
            field_idx: u16_le(s, 2),
        },
        0x58 => Instruction::IgetShort {
            src: lo_nibble(s[1]),
            object: hi_nibble(s[1]),
            field_idx: u16_le(s, 2),
        },
        0x59 => Instruction::Iput {
            dst: lo_nibble(s[1]),
            object: hi_nibble(s[1]),
            field_idx: u16_le(s, 2),
        },
        0x5A => Instruction::IputWide {
            dst: lo_nibble(s[1]),
            object: hi_nibble(s[1]),
            field_idx: u16_le(s, 2),
        },
        0x5B => Instruction::IputObject {
            dst: lo_nibble(s[1]),
            object: hi_nibble(s[1]),
            field_idx: u16_le(s, 2),
        },
        0x5C => Instruction::IputBoolean {
            dst: lo_nibble(s[1]),
            object: hi_nibble(s[1]),
            field_idx: u16_le(s, 2),
        },
        0x5D => Instruction::IputByte {
            dst: lo_nibble(s[1]),
            object: hi_nibble(s[1]),
            field_idx: u16_le(s, 2),
        },
        0x5E => Instruction::IputChar {
            dst: lo_nibble(s[1]),
            object: hi_nibble(s[1]),
            field_idx: u16_le(s, 2),
        },
        0x5F => Instruction::IputShort {
            dst: lo_nibble(s[1]),
            object: hi_nibble(s[1]),
            field_idx: u16_le(s, 2),
        },
        0x60 => Instruction::Sget { src: s[1], field_idx: u16_le(s, 2) },
        0x61 => Instruction::SgetWide { src: s[1], field_idx: u16_le(s, 2) },
        0x62 => Instruction::SgetObject { src: s[1], field_idx: u16_le(s, 2) },
        0x63 => Instruction::SgetBoolean { src: s[1], field_idx: u16_le(s, 2) },
        0x64 => Instruction::SgetByte { src: s[1], field_idx: u16_le(s, 2) },
        0x65 => Instruction::SgetChar { src: s[1], field_idx: u16_le(s, 2) },
        0x66 => Instruction::SgetShort { src: s[1], field_idx: u16_le(s, 2) },
        0x67 => Instruction::Sput { dst: s[1], field_idx: u16_le(s, 2) },
        0x68 => Instruction::SputWide { dst: s[1], field_idx: u16_le(s, 2) },
        0x69 => Instruction::SputObject { dst: s[1], field_idx: u16_le(s, 2) },
        0x6A => Instruction::SputBoolean { dst: s[1], field_idx: u16_le(s, 2) },
        0x6B => Instruction::SputByte { dst: s[1], field_idx: u16_le(s, 2) },
        0x6C => Instruction::SputChar { dst: s[1], field_idx: u16_le(s, 2) },
        0x6D => Instruction::SputShort { dst: s[1], field_idx: u16_le(s, 2) },
        0x6E => Instruction::InvokeVirtual {
            method_idx: u16_le(s, 2),
            args: register_list(s),
            arg_cnt: hi_nibble(s[1]),
        },
        0x6F => Instruction::InvokeSuper {
            method_idx: u16_le(s, 2),
            args: register_list(s),
            arg_cnt: hi_nibble(s[1]),
        },
        0x70 => Instruction::InvokeDirect {
            method_idx: u16_le(s, 2),
            args: register_list(s),
            arg_cnt: hi_nibble(s[1]),
        },
        0x71 => Instruction::InvokeStatic {
            method_idx: u16_le(s, 2),
            args: register_list(s),
            arg_cnt: hi_nibble(s[1]),
        },
        0x72 => Instruction::InvokeInterface {
            method_idx: u16_le(s, 2),
            args: register_list(s),
            arg_cnt: hi_nibble(s[1]),
        },
        0x74 => Instruction::InvokeVirtualRange {
            method_idx: u16_le(s, 2),
            first_arg: u16_le(s, 4),
            arg_cnt: s[1],
        },
        0x75 => Instruction::InvokeSuperRange {
            method_idx: u16_le(s, 2),
            first_arg: u16_le(s, 4),
            arg_cnt: s[1],
        },
        0x76 => Instruction::InvokeDirectRange {
            method_idx: u16_le(s, 2),
            first_arg: u16_le(s, 4),
            arg_cnt: s[1],
        },
        0x77 => Instruction::InvokeStaticRange {
            method_idx: u16_le(s, 2),
            first_arg: u16_le(s, 4),
            arg_cnt: s[1],
        },
        0x78 => Instruction::InvokeInterfaceRange {
            method_idx: u16_le(s, 2),
            first_arg: u16_le(s, 4),
            arg_cnt: s[1],
        },
        0x7B => Instruction::NegInt { dst: lo_nibble(s[1]), src: hi_nibble(s[1]) },
        0x7C => Instruction::NotInt { dst: lo_nibble(s[1]), src: hi_nibble(s[1]) },
        0x7D => Instruction::NegLong { dst: lo_nibble(s[1]), src: hi_nibble(s[1]) },
        0x7E => Instruction::NotLong { dst: lo_nibble(s[1]), src: hi_nibble(s[1]) },
        0x7F => Instruction::NegFloat { dst: lo_nibble(s[1]), src: hi_nibble(s[1]) },
        0x80 => Instruction::NegDouble { dst: lo_nibble(s[1]), src: hi_nibble(s[1]) },
        0x81 => Instruction::IntToLong { dst: lo_nibble(s[1]), src: hi_nibble(s[1]) },
        0x82 => Instruction::IntToFloat { dst: lo_nibble(s[1]), src: hi_nibble(s[1]) },
        0x83 => Instruction::IntToDouble { dst: lo_nibble(s[1]), src: hi_nibble(s[1]) },
        0x84 => Instruction::LongToInt { dst: lo_nibble(s[1]), src: hi_nibble(s[1]) },
        0x85 => Instruction::LongToFloat { dst: lo_nibble(s[1]), src: hi_nibble(s[1]) },
        0x86 => Instruction::LongToDouble { dst: lo_nibble(s[1]), src: hi_nibble(s[1]) },
        0x87 => Instruction::FloatToInt { dst: lo_nibble(s[1]), src: hi_nibble(s[1]) },
        0x88 => Instruction::FloatToLong { dst: lo_nibble(s[1]), src: hi_nibble(s[1]) },
        0x89 => Instruction::FloatToDouble { dst: lo_nibble(s[1]), src: hi_nibble(s[1]) },
        0x8A => Instruction::DoubleToInt { dst: lo_nibble(s[1]), src: hi_nibble(s[1]) },
        0x8B => Instruction::DoubleToLong { dst: lo_nibble(s[1]), src: hi_nibble(s[1]) },
        0x8C => Instruction::DoubleToFloat { dst: lo_nibble(s[1]), src: hi_nibble(s[1]) },
        0x8D => Instruction::IntToByte { dst: lo_nibble(s[1]), src: hi_nibble(s[1]) },
        0x8E => Instruction::IntToChar { dst: lo_nibble(s[1]), src: hi_nibble(s[1]) },
        0x8F => Instruction::IntToShort { dst: lo_nibble(s[1]), src: hi_nibble(s[1]) },
        0x90 => Instruction::AddInt { dst: s[1], src_a: s[2], src_b: s[3] },
        0x91 => Instruction::SubInt { dst: s[1], src_a: s[2], src_b: s[3] },
        0x92 => Instruction::MulInt { dst: s[1], src_a: s[2], src_b: s[3] },
        0x93 => Instruction::DivInt { dst: s[1], src_a: s[2], src_b: s[3] },
        0x94 => Instruction::RemInt { dst: s[1], src_a: s[2], src_b: s[3] },
        0x95 => Instruction::AndInt { dst: s[1], src_a: s[2], src_b: s[3] },
        0x96 => Instruction::OrInt { dst: s[1], src_a: s[2], src_b: s[3] },
        0x97 => Instruction::XorInt { dst: s[1], src_a: s[2], src_b: s[3] },
        0x98 => Instruction::ShlInt { dst: s[1], src_a: s[2], src_b: s[3] },
        0x99 => Instruction::ShrInt { dst: s[1], src_a: s[2], src_b: s[3] },
        0x9A => Instruction::UShrInt { dst: s[1], src_a: s[2], src_b: s[3] },
        0x9B => Instruction::AddLong { dst: s[1], src_a: s[2], src_b: s[3] },
        0x9C => Instruction::SubLong { dst: s[1], src_a: s[2], src_b: s[3] },
        0x9D => Instruction::MulLong { dst: s[1], src_a: s[2], src_b: s[3] },
        0x9E => Instruction::DivLong { dst: s[1], src_a: s[2], src_b: s[3] },
        0x9F => Instruction::RemLong { dst: s[1], src_a: s[2], src_b: s[3] },
        0xA0 => Instruction::AndLong { dst: s[1], src_a: s[2], src_b: s[3] },
        0xA1 => Instruction::OrLong { dst: s[1], src_a: s[2], src_b: s[3] },
        0xA2 => Instruction::XorLong { dst: s[1], src_a: s[2], src_b: s[3] },
        0xA3 => Instruction::ShlLong { dst: s[1], src_a: s[2], src_b: s[3] },
        0xA4 => Instruction::ShrLong { dst: s[1], src_a: s[2], src_b: s[3] },
        0xA5 => Instruction::UShrLong { dst: s[1], src_a: s[2], src_b: s[3] },
        0xA6 => Instruction::AddFloat { dst: s[1], src_a: s[2], src_b: s[3] },
        0xA7 => Instruction::SubFloat { dst: s[1], src_a: s[2], src_b: s[3] },
        0xA8 => Instruction::MulFloat { dst: s[1], src_a: s[2], src_b: s[3] },
        0xA9 => Instruction::DivFloat { dst: s[1], src_a: s[2], src_b: s[3] },
        0xAA => Instruction::RemFloat { dst: s[1], src_a: s[2], src_b: s[3] },
        0xAB => Instruction::AddDouble { dst: s[1], src_a: s[2], src_b: s[3] },
        0xAC => Instruction::SubDouble { dst: s[1], src_a: s[2], src_b: s[3] },
        0xAD => Instruction::MulDouble { dst: s[1], src_a: s[2], src_b: s[3] },
        0xAE => Instruction::DivDouble { dst: s[1], src_a: s[2], src_b: s[3] },
        0xAF => Instruction::RemDouble { dst: s[1], src_a: s[2], src_b: s[3] },
        0xB0 => Instruction::AddInt2Addr { dst: lo_nibble(s[1]), src: hi_nibble(s[1]) },
        0xB1 => Instruction::SubInt2Addr { dst: lo_nibble(s[1]), src: hi_nibble(s[1]) },
        0xB2 => Instruction::MulInt2Addr { dst: lo_nibble(s[1]), src: hi_nibble(s[1]) },
        0xB3 => Instruction::DivInt2Addr { dst: lo_nibble(s[1]), src: hi_nibble(s[1]) },
        0xB4 => Instruction::RemInt2Addr { dst: lo_nibble(s[1]), src: hi_nibble(s[1]) },
        0xB5 => Instruction::AndInt2Addr { dst: lo_nibble(s[1]), src: hi_nibble(s[1]) },
        0xB6 => Instruction::OrInt2Addr { dst: lo_nibble(s[1]), src: hi_nibble(s[1]) },
        0xB7 => Instruction::XorInt2Addr { dst: lo_nibble(s[1]), src: hi_nibble(s[1]) },
        0xB8 => Instruction::ShlInt2Addr { dst: lo_nibble(s[1]), src: hi_nibble(s[1]) },
        0xB9 => Instruction::ShrInt2Addr { dst: lo_nibble(s[1]), src: hi_nibble(s[1]) },
        0xBA => Instruction::UShrInt2Addr { dst: lo_nibble(s[1]), src: hi_nibble(s[1]) },
        0xBB => Instruction::AddLong2Addr { dst: lo_nibble(s[1]), src: hi_nibble(s[1]) },
        0xBC => Instruction::SubLong2Addr { dst: lo_nibble(s[1]), src: hi_nibble(s[1]) },
        0xBD => Instruction::MulLong2Addr { dst: lo_nibble(s[1]), src: hi_nibble(s[1]) },
        0xBE => Instruction::DivLong2Addr { dst: lo_nibble(s[1]), src: hi_nibble(s[1]) },
        0xBF => Instruction::RemLong2Addr { dst: lo_nibble(s[1]), src: hi_nibble(s[1]) },
        0xC0 => Instruction::AndLong2Addr { dst: lo_nibble(s[1]), src: hi_nibble(s[1]) },
        0xC1 => Instruction::OrLong2Addr { dst: lo_nibble(s[1]), src: hi_nibble(s[1]) },
        0xC2 => Instruction::XorLong2Addr { dst: lo_nibble(s[1]), src: hi_nibble(s[1]) },
        0xC3 => Instruction::ShlLong2Addr { dst: lo_nibble(s[1]), src: hi_nibble(s[1]) },
        0xC4 => Instruction::ShrLong2Addr { dst: lo_nibble(s[1]), src: hi_nibble(s[1]) },
        0xC5 => Instruction::UShrLong2Addr { dst: lo_nibble(s[1]), src: hi_nibble(s[1]) },
        0xC6 => Instruction::AddFloat2Addr { dst: lo_nibble(s[1]), src: hi_nibble(s[1]) },
        0xC7 => Instruction::SubFloat2Addr { dst: lo_nibble(s[1]), src: hi_nibble(s[1]) },
        0xC8 => Instruction::MulFloat2Addr { dst: lo_nibble(s[1]), src: hi_nibble(s[1]) },
        0xC9 => Instruction::DivFloat2Addr { dst: lo_nibble(s[1]), src: hi_nibble(s[1]) },
        0xCA => Instruction::RemFloat2Addr { dst: lo_nibble(s[1]), src: hi_nibble(s[1]) },
        0xCB => Instruction::AddDouble2Addr { dst: lo_nibble(s[1]), src: hi_nibble(s[1]) },
        0xCC => Instruction::SubDouble2Addr { dst: lo_nibble(s[1]), src: hi_nibble(s[1]) },
        0xCD => Instruction::MulDouble2Addr { dst: lo_nibble(s[1]), src: hi_nibble(s[1]) },
        0xCE => Instruction::DivDouble2Addr { dst: lo_nibble(s[1]), src: hi_nibble(s[1]) },
        0xCF => Instruction::RemDouble2Addr { dst: lo_nibble(s[1]), src: hi_nibble(s[1]) },
        0xD0 => Instruction::AddIntLit16 {
            dst: lo_nibble(s[1]),
            src: hi_nibble(s[1]),
            value: as_i16(u16_le(s, 2)),
        },
        0xD1 => Instruction::RsubInt {
            dst: lo_nibble(s[1]),
            src: hi_nibble(s[1]),
            value: as_i16(u16_le(s, 2)),
        },
        0xD2 => Instruction::MulIntLit16 {
            dst: lo_nibble(s[1]),
            src: hi_nibble(s[1]),
            value: as_i16(u16_le(s, 2)),
        },
        0xD3 => Instruction::DivIntLit16 {
            dst: lo_nibble(s[1]),
            src: hi_nibble(s[1]),
            value: as_i16(u16_le(s, 2)),
        },
        0xD4 => Instruction::RemIntLit16 {
            dst: lo_nibble(s[1]),
            src: hi_nibble(s[1]),
            value: as_i16(u16_le(s, 2)),
        },
        0xD5 => Instruction::AndIntLit16 {
            dst: lo_nibble(s[1]),
            src: hi_nibble(s[1]),
            value: as_i16(u16_le(s, 2)),
        },
        0xD6 => Instruction::OrIntLit16 {
            dst: lo_nibble(s[1]),
            src: hi_nibble(s[1]),
            value: as_i16(u16_le(s, 2)),
        },
        0xD7 => Instruction::XorIntLit16 {
            dst: lo_nibble(s[1]),
            src: hi_nibble(s[1]),
            value: as_i16(u16_le(s, 2)),
        },
        0xD8 => Instruction::AddIntLit8 { dst: s[1], src: s[2], value: as_i8(s[3]) },
        0xD9 => Instruction::RsubIntLit8 { dst: s[1], src: s[2], value: as_i8(s[3]) },
        0xDA => Instruction::MulIntLit8 { dst: s[1], src: s[2], value: as_i8(s[3]) },
        0xDB => Instruction::DivIntLit8 { dst: s[1], src: s[2], value: as_i8(s[3]) },
        0xDC => Instruction::RemIntLit8 { dst: s[1], src: s[2], value: as_i8(s[3]) },
        0xDD => Instruction::AndIntLit8 { dst: s[1], src: s[2], value: as_i8(s[3]) },
        0xDE => Instruction::OrIntLit8 { dst: s[1], src: s[2], value: as_i8(s[3]) },
        0xDF => Instruction::XorIntLit8 { dst: s[1], src: s[2], value: as_i8(s[3]) },
        0xE0 => Instruction::ShlIntLit8 { dst: s[1], src: s[2], value: as_i8(s[3]) },
        0xE1 => Instruction::ShrIntLit8 { dst: s[1], src: s[2], value: as_i8(s[3]) },
        0xE2 => Instruction::UShrIntLit8 { dst: s[1], src: s[2], value: as_i8(s[3]) },
        0xFA => Instruction::InvokePolymorphic {
            method_idx: u16_le(s, 2),
            proto_idx: u16_le(s, 6),
            args: register_list(s),
            arg_cnt: hi_nibble(s[1]),
        },
        0xFB => Instruction::InvokePolymorphicRange {
            method_idx: u16_le(s, 2),
            proto_idx: u16_le(s, 6),
            first_arg: u16_le(s, 4),
            arg_cnt: s[1],
        },
        0xFC => Instruction::InvokeCustom {
            call_site_idx: u16_le(s, 2),
            args: register_list(s),
            arg_cnt: hi_nibble(s[1]),
        },
        0xFD => Instruction::InvokeCustomRange {
            call_site_idx: u16_le(s, 2),
            first_arg: u16_le(s, 4),
            arg_cnt: s[1],
        },
        0xFE => Instruction::ConstMethodHandle { dst: s[1], method_handle_idx: u16_le(s, 2) },
        0xFF => Instruction::ConstMethodType { dst: s[1], proto_idx: u16_le(s, 2) },
        _ => Instruction::Nop,
    }
}

/// What decoding the front of `s` gives: the instruction, or the reason why
/// there is none.
pub open spec fn try_decode_spec(s: Seq<u8>) -> Result<Instruction, InstructionError> {
    if s.len() == 0 {
        Err(InstructionError::EmptyBuffer)
    } else {
        match opcode_size(s[0]) {
            None => Err(InstructionError::UnknownOpcode(s[0])),
            Some(expected) => if s.len() < expected {
                Err(InstructionError::Size { opcode: s[0], expected, actual: s.len() as usize })
            } else {
                Ok(decode_operands(s))
            },
        }
    }
}

/// A decoded instruction starts with the opcode it was decoded from, and so
/// has the length that the size table gives for that opcode.
pub proof fn lemma_decode_keeps_opcode(s: Seq<u8>)
    requires
        s.len() >= 1,
        opcode_size(s[0]) is Some,
    ensures
        decode_operands(s).opcode_byte() == s[0],
        opcode_size(s[0]) == Some(decode_operands(s).spec_size_bytes()),
{
}

/// Decoding succeeds exactly on the bytes that start with a defined opcode
/// and hold at least the bytes of its instruction; a byte that starts no
/// instruction is reported as such whatever follows it.
pub proof fn lemma_decode_succeeds(s: Seq<u8>)
    requires
        s.len() >= 1,
        s.len() <= usize::MAX,
    ensures
        opcode_size(s[0]) is None ==> try_decode_spec(s) == Err::<Instruction, InstructionError>(
            InstructionError::UnknownOpcode(s[0]),
        ),
        opcode_size(s[0]) matches Some(n) ==> (try_decode_spec(s) is Ok <==> s.len() >= n),
        try_decode_spec(s) matches Ok(i) ==> opcode_size(s[0]) == Some(i.spec_size_bytes()),
{
    if opcode_size(s[0]) is Some {
        lemma_decode_keeps_opcode(s);
    }
}

/// Decodes an instruction whose operands are two registers packed into the
/// second byte.
fn decode_register_pair(opcode: u8, buffer: &[u8]) -> (r: Instruction)
    requires
        buffer@.len() >= 2,
        buffer@[0] == opcode,
        opcode == 0x01 || opcode == 0x04 || opcode == 0x07 || opcode == 0x21
            || (0x7B <= opcode && opcode <= 0x8F)
            || (0xB0 <= opcode && opcode <= 0xCF),
    ensures
        r == decode_operands(buffer@),
{
    let (lo, hi) = to_nibbles(buffer[1]);
    match opcode {
        0x01 => Instruction::Move { dst: lo, src: hi },
        0x04 => Instruction::MoveWide { dst: lo, src: hi },
        0x07 => Instruction::MoveObject { dst: lo, src: hi },
        0x21 => Instruction::ArrayLength { dst: lo, array: hi },
        0x7B => Instruction::NegInt { dst: lo, src: hi },
        0x7C => Instruction::NotInt { dst: lo, src: hi },
        0x7D => Instruction::NegLong { dst: lo, src: hi },
        0x7E => Instruction::NotLong { dst: lo, src: hi },
        0x7F => Instruction::NegFloat { dst: lo, src: hi },
        0x80 => Instruction::NegDouble { dst: lo, src: hi },
        0x81 => Instruction::IntToLong { dst: lo, src: hi },
        0x82 => Instruction::IntToFloat { dst: lo, src: hi },
        0x83 => Instruction::IntToDouble { dst: lo, src: hi },
        0x84 => Instruction::LongToInt { dst: lo, src: hi },
        0x85 => Instruction::LongToFloat { dst: lo, src: hi },
        0x86 => Instruction::LongToDouble { dst: lo, src: hi },
        0x87 => Instruction::FloatToInt { dst: lo, src: hi },
        0x88 => Instruction::FloatToLong { dst: lo, src: hi },
        0x89 => Instruction::FloatToDouble { dst: lo, src: hi },
        0x8A => Instruction::DoubleToInt { dst: lo, src: hi },
        0x8B => Instruction::DoubleToLong { dst: lo, src: hi },
        0x8C => Instruction::DoubleToFloat { dst: lo, src: hi },
        0x8D => Instruction::IntToByte { dst: lo, src: hi },
        0x8E => Instruction::IntToChar { dst: lo, src: hi },
        0x8F => Instruction::IntToShort { dst: lo, src: hi },
        0xB0 => Instruction::AddInt2Addr { dst: lo, src: hi },
        0xB1 => Instruction::SubInt2Addr { dst: lo, src: hi },
        0xB2 => Instruction::MulInt2Addr { dst: lo, src: hi },
        0xB3 => Instruction::DivInt2Addr { dst: lo, src: hi },
        0xB4 => Instruction::RemInt2Addr { dst: lo, src: hi },
        0xB5 => Instruction::AndInt2Addr { dst: lo, src: hi },
        0xB6 => Instruction::OrInt2Addr { dst: lo, src: hi },
        0xB7 => Instruction::XorInt2Addr { dst: lo, src: hi },
        0xB8 => Instruction::ShlInt2Addr { dst: lo, src: hi },
        0xB9 => Instruction::ShrInt2Addr { dst: lo, src: hi },
        0xBA => Instruction::UShrInt2Addr { dst: lo, src: hi },
        0xBB => Instruction::AddLong2Addr { dst: lo, src: hi },
        0xBC => Instruction::SubLong2Addr { dst: lo, src: hi },
        0xBD => Instruction::MulLong2Addr { dst: lo, src: hi },
        0xBE => Instruction::DivLong2Addr { dst: lo, src: hi },
        0xBF => Instruction::RemLong2Addr { dst: lo, src: hi },
        0xC0 => Instruction::AndLong2Addr { dst: lo, src: hi },
        0xC1 => Instruction::OrLong2Addr { dst: lo, src: hi },
        0xC2 => Instruction::XorLong2Addr { dst: lo, src: hi },
        0xC3 => Instruction::ShlLong2Addr { dst: lo, src: hi },
        0xC4 => Instruction::ShrLong2Addr { dst: lo, src: hi },
        0xC5 => Instruction::UShrLong2Addr { dst: lo, src: hi },
        0xC6 => Instruction::AddFloat2Addr { dst: lo, src: hi },
        0xC7 => Instruction::SubFloat2Addr { dst: lo, src: hi },
        0xC8 => Instruction::MulFloat2Addr { dst: lo, src: hi },
        0xC9 => Instruction::DivFloat2Addr { dst: lo, src: hi },
        0xCA => Instruction::RemFloat2Addr { dst: lo, src: hi },
        0xCB => Instruction::AddDouble2Addr { dst: lo, src: hi },
        0xCC => Instruction::SubDouble2Addr { dst: lo, src: hi },
        0xCD => Instruction::MulDouble2Addr { dst: lo, src: hi },
        0xCE => Instruction::DivDouble2Addr { dst: lo, src: hi },
        _ => Instruction::RemDouble2Addr { dst: lo, src: hi },
    }
}

/// Decodes an instruction whose operands are one register in the second byte.
fn decode_one_register(opcode: u8, buffer: &[u8]) -> (r: Instruction)
    requires
        buffer@.len() >= 2,
        buffer@[0] == opcode,
        (0x0A <= opcode && opcode <= 0x0D) || (0x0F <= opcode && opcode <= 0x11)
            || opcode == 0x1D || opcode == 0x1E || opcode == 0x27,
    ensures
        r == decode_operands(buffer@),
{
    let reg: u8 = buffer[1];
    match opcode {
        0x0A => Instruction::MoveResult { dst: reg },
        0x0B => Instruction::MoveResultWide { dst: reg },
        0x0C => Instruction::MoveResultObject { dst: reg },
        0x0D => Instruction::MoveException { dst: reg },
        0x0F => Instruction::Return { value: reg },
        0x10 => Instruction::ReturnWide { value: reg },
        0x11 => Instruction::ReturnObject { value: reg },
        0x1D => Instruction::MonitorEnter { reference: reg },
        0x1E => Instruction::MonitorExit { reference: reg },
        _ => Instruction::Throw { exception: reg },
    }
}

/// Decodes an instruction whose operands are a register in the second byte and
/// a 16-bit value after it.
fn decode_register_and_index(opcode: u8, buffer: &[u8]) -> (r: Instruction)
    requires
        buffer@.len() >= 4,
        buffer@[0] == opcode,
        opcode == 0x02 || opcode == 0x05 || opcode == 0x08 || opcode == 0x1A
            || opcode == 0x1C || opcode == 0x1F || opcode == 0x22
            || (0x60 <= opcode && opcode <= 0x6D) || opcode == 0xFE
            || opcode == 0xFF,
    ensures
        r == decode_operands(buffer@),
{
    let reg: u8 = buffer[1];
    let word: u16 = read_u16_le(buffer, 2);
    match opcode {
        0x02 => Instruction::MoveFrom16 { dst: reg, src: word },
        0x05 => Instruction::MoveWideFrom16 { dst: reg, src: word },
        0x08 => Instruction::MoveObjectFrom16 { dst: reg, src: word },
        0x1A => Instruction::ConstString { dst: reg, string_idx: word },
        0x1C => Instruction::ConstClass { dst: reg, type_idx: word },
        0x1F => Instruction::CheckCast { reference: reg, type_idx: word },
        0x22 => Instruction::NewInstance { dst: reg, type_idx: word },
        0x60 => Instruction::Sget { src: reg, field_idx: word },
        0x61 => Instruction::SgetWide { src: reg, field_idx: word },
        0x62 => Instruction::SgetObject { src: reg, field_idx: word },
        0x63 => Instruction::SgetBoolean { src: reg, field_idx: word },
        0x64 => Instruction::SgetByte { src: reg, field_idx: word },
        0x65 => Instruction::SgetChar { src: reg, field_idx: word },
        0x66 => Instruction::SgetShort { src: reg, field_idx: word },
        0x67 => Instruction::Sput { dst: reg, field_idx: word },
        0x68 => Instruction::SputWide { dst: reg, field_idx: word },
        0x69 => Instruction::SputObject { dst: reg, field_idx: word },
        0x6A => Instruction::SputBoolean { dst: reg, field_idx: word },
        0x6B => Instruction::SputByte { dst: reg, field_idx: word },
        0x6C => Instruction::SputChar { dst: reg, field_idx: word },
        0x6D => Instruction::SputShort { dst: reg, field_idx: word },
        0xFE => Instruction::ConstMethodHandle { dst: reg, method_handle_idx: word },
        _ => Instruction::ConstMethodType { dst: reg, proto_idx: word },
    }
}

/// Decodes an instruction whose operands are a register in the second byte and
/// a signed 16-bit value after it.
fn decode_register_and_short(opcode: u8, buffer: &[u8]) -> (r: Instruction)
    requires
        buffer@.len() >= 4,
        buffer@[0] == opcode,
        opcode == 0x13 || opcode == 0x15 || opcode == 0x16 || opcode == 0x19
            || (0x38 <= opcode && opcode <= 0x3D),
    ensures
        r == decode_operands(buffer@),
{
    let reg: u8 = buffer[1];
    let value: i16 = to_i16(read_u16_le(buffer, 2));
    match opcode {
        0x13 => Instruction::Const16 { dst: reg, value },
        0x15 => Instruction::ConstHigh16 { dst: reg, value },
        0x16 => Instruction::ConstWide16 { dst: reg, value },
        0x19 => Instruction::ConstWideHigh16 { dst: reg, value },
        0x38 => Instruction::IfEqz { a: reg, offset: value },
        0x39 => Instruction::IfNez { a: reg, offset: value },
        0x3A => Instruction::IfLtz { a: reg, offset: value },
        0x3B => Instruction::IfGez { a: reg, offset: value },
        0x3C => Instruction::IfGtz { a: reg, offset: value },
        _ => Instruction::IfLez { a: reg, offset: value },
    }
}

/// Decodes an instruction whose operands are a register in the second byte and
/// a signed 32-bit value after it.
fn decode_register_and_int(opcode: u8, buffer: &[u8]) -> (r: Instruction)
    requires
        buffer@.len() >= 6,
        buffer@[0] == opcode,
        opcode == 0x14 || opcode == 0x17 || opcode == 0x26 || opcode == 0x2B
            || opcode == 0x2C,
    ensures
        r == decode_operands(buffer@),
{
    let reg: u8 = buffer[1];
    let value: i32 = to_i32(read_u32_le(buffer, 2));
    match opcode {
        0x14 => Instruction::Const { dst: reg, value },
        0x17 => Instruction::ConstWide32 { dst: reg, value },
        0x26 => Instruction::FillArrayData { array: reg, offset: value },
        0x2B => Instruction::PackedSwitch { value: reg, offset: value },
        _ => Instruction::SparseSwitch { value: reg, offset: value },
    }
}

/// Decodes an instruction whose operands are two packed registers and a 16-bit
/// pool index.
fn decode_pair_and_index(opcode: u8, buffer: &[u8]) -> (r: Instruction)
    requires
        buffer@.len() >= 4,
        buffer@[0] == opcode,
        opcode == 0x20 || opcode == 0x23 || (0x52 <= opcode && opcode <= 0x5F),
    ensures
        r == decode_operands(buffer@),
{
    let (lo, hi) = to_nibbles(buffer[1]);
    let index: u16 = read_u16_le(buffer, 2);
    match opcode {
        0x20 => Instruction::InstanceOf { dst: lo, reference: hi, type_idx: index },
        0x23 => Instruction::NewArray { dst: lo, size: hi, type_idx: index },
        0x52 => Instruction::Iget { src: lo, object: hi, field_idx: index },
        0x53 => Instruction::IgetWide { src: lo, object: hi, field_idx: index },
        0x54 => Instruction::IgetObject { src: lo, object: hi, field_idx: index },
        0x55 => Instruction::IgetBoolean { src: lo, object: hi, field_idx: index },
        0x56 => Instruction::IgetByte { src: lo, object: hi, field_idx: index },
        0x57 => Instruction::IgetChar { src: lo, object: hi, field_idx: index },
        0x58 => Instruction::IgetShort { src: lo, object: hi, field_idx: index },
        0x59 => Instruction::Iput { dst: lo, object: hi, field_idx: index },
        0x5A => Instruction::IputWide { dst: lo, object: hi, field_idx: index },
        0x5B => Instruction::IputObject { dst: lo, object: hi, field_idx: index },
        0x5C => Instruction::IputBoolean { dst: lo, object: hi, field_idx: index },
        0x5D => Instruction::IputByte { dst: lo, object: hi, field_idx: index },
        0x5E => Instruction::IputChar { dst: lo, object: hi, field_idx: index },
        _ => Instruction::IputShort { dst: lo, object: hi, field_idx: index },
    }
}

/// Decodes an instruction whose operands are two packed registers and a signed
/// 16-bit value.
fn decode_pair_and_short(opcode: u8, buffer: &[u8]) -> (r: Instruction)
    requires
        buffer@.len() >= 4,
        buffer@[0] == opcode,
        (0x32 <= opcode && opcode <= 0x37) || (0xD0 <= opcode && opcode <= 0xD7),
    ensures
        r == decode_operands(buffer@),
{
    let (lo, hi) = to_nibbles(buffer[1]);
    let value: i16 = to_i16(read_u16_le(buffer, 2));
    match opcode {
        0x32 => Instruction::IfEq { a: lo, b: hi, offset: value },
        0x33 => Instruction::IfNe { a: lo, b: hi, offset: value },
        0x34 => Instruction::IfLt { a: lo, b: hi, offset: value },
        0x35 => Instruction::IfGe { a: lo, b: hi, offset: value },
        0x36 => Instruction::IfGt { a: lo, b: hi, offset: value },
        0x37 => Instruction::IfLe { a: lo, b: hi, offset: value },
        0xD0 => Instruction::AddIntLit16 { dst: lo, src: hi, value },
        0xD1 => Instruction::RsubInt { dst: lo, src: hi, value },
        0xD2 => Instruction::MulIntLit16 { dst: lo, src: hi, value },
        0xD3 => Instruction::DivIntLit16 { dst: lo, src: hi, value },
        0xD4 => Instruction::RemIntLit16 { dst: lo, src: hi, value },
        0xD5 => Instruction::AndIntLit16 { dst: lo, src: hi, value },
        0xD6 => Instruction::OrIntLit16 { dst: lo, src: hi, value },
        _ => Instruction::XorIntLit16 { dst: lo, src: hi, value },
    }
}

/// Decodes an instruction whose operands are three registers, one byte each.
fn decode_three_registers(opcode: u8, buffer: &[u8]) -> (r: Instruction)
    requires
        buffer@.len() >= 4,
        buffer@[0] == opcode,
        (0x2D <= opcode && opcode <= 0x31) || (0x44 <= opcode && opcode <= 0x51)
            || (0x90 <= opcode && opcode <= 0xAF),
    ensures
        r == decode_operands(buffer@),
{
    let first: u8 = buffer[1];
    let second: u8 = buffer[2];
    let third: u8 = buffer[3];
    match opcode {
        0x2D => Instruction::CmplFloat { dst: first, src_a: second, src_b: third },
        0x2E => Instruction::CmpgFloat { dst: first, src_a: second, src_b: third },
        0x2F => Instruction::CmplDouble { dst: first, src_a: second, src_b: third },
        0x30 => Instruction::CmpgDouble { dst: first, src_a: second, src_b: third },
        0x31 => Instruction::CmpLong { dst: first, src_a: second, src_b: third },
        0x44 => Instruction::Aget { src: first, array: second, index: third },
        0x45 => Instruction::AgetWide { src: first, array: second, index: third },
        0x46 => Instruction::AgetObject { src: first, array: second, index: third },
        0x47 => Instruction::AgetBoolean { src: first, array: second, index: third },
        0x48 => Instruction::AgetByte { src: first, array: second, index: third },
        0x49 => Instruction::AgetChar { src: first, array: second, index: third },
        0x4A => Instruction::AgetShort { src: first, array: second, index: third },
        0x4B => Instruction::Aput { dst: first, array: second, index: third },
        0x4C => Instruction::AputWide { dst: first, array: second, index: third },
        0x4D => Instruction::AputObject { dst: first, array: second, index: third },
        0x4E => Instruction::AputBoolean { dst: first, array: second, index: third },
        0x4F => Instruction::AputByte { dst: first, array: second, index: third },
        0x50 => Instruction::AputChar { dst: first, array: second, index: third },
        0x51 => Instruction::AputShort { dst: first, array: second, index: third },
        0x90 => Instruction::AddInt { dst: first, src_a: second, src_b: third },
        0x91 => Instruction::SubInt { dst: first, src_a: second, src_b: third },
        0x92 => Instruction::MulInt { dst: first, src_a: second, src_b: third },
        0x93 => Instruction::DivInt { dst: first, src_a: second, src_b: third },
        0x94 => Instruction::RemInt { dst: first, src_a: second, src_b: third },
        0x95 => Instruction::AndInt { dst: first, src_a: second, src_b: third },
        0x96 => Instruction::OrInt { dst: first, src_a: second, src_b: third },
        0x97 => Instruction::XorInt { dst: first, src_a: second, src_b: third },
        0x98 => Instruction::ShlInt { dst: first, src_a: second, src_b: third },
        0x99 => Instruction::ShrInt { dst: first, src_a: second, src_b: third },
        0x9A => Instruction::UShrInt { dst: first, src_a: second, src_b: third },
        0x9B => Instruction::AddLong { dst: first, src_a: second, src_b: third },
        0x9C => Instruction::SubLong { dst: first, src_a: second, src_b: third },
        0x9D => Instruction::MulLong { dst: first, src_a: second, src_b: third },
        0x9E => Instruction::DivLong { dst: first, src_a: second, src_b: third },
        0x9F => Instruction::RemLong { dst: first, src_a: second, src_b: third },
        0xA0 => Instruction::AndLong { dst: first, src_a: second, src_b: third },
        0xA1 => Instruction::OrLong { dst: first, src_a: second, src_b: third },
        0xA2 => Instruction::XorLong { dst: first, src_a: second, src_b: third },
        0xA3 => Instruction::ShlLong { dst: first, src_a: second, src_b: third },
        0xA4 => Instruction::ShrLong { dst: first, src_a: second, src_b: third },
        0xA5 => Instruction::UShrLong { dst: first, src_a: second, src_b: third },
        0xA6 => Instruction::AddFloat { dst: first, src_a: second, src_b: third },
        0xA7 => Instruction::SubFloat { dst: first, src_a: second, src_b: third },
        0xA8 => Instruction::MulFloat { dst: first, src_a: second, src_b: third },
        0xA9 => Instruction::DivFloat { dst: first, src_a: second, src_b: third },
        0xAA => Instruction::RemFloat { dst: first, src_a: second, src_b: third },
        0xAB => Instruction::AddDouble { dst: first, src_a: second, src_b: third },
        0xAC => Instruction::SubDouble { dst: first, src_a: second, src_b: third },
        0xAD => Instruction::MulDouble { dst: first, src_a: second, src_b: third },
        0xAE => Instruction::DivDouble { dst: first, src_a: second, src_b: third },
        _ => Instruction::RemDouble { dst: first, src_a: second, src_b: third },
    }
}

/// Decodes an instruction whose operands are a pool index and up to five
/// registers named one by one.
fn decode_register_list(opcode: u8, buffer: &[u8]) -> (r: Instruction)
    requires
        buffer@.len() >= 6,
        buffer@[0] == opcode,
        opcode == 0x24 || (0x6E <= opcode && opcode <= 0x72) || opcode == 0xFC,
    ensures
        r == decode_operands(buffer@),
{
    let (g, arg_cnt) = to_nibbles(buffer[1]);
    let index: u16 = read_u16_le(buffer, 2);
    let (c, d) = to_nibbles(buffer[4]);
    let (e, f) = to_nibbles(buffer[5]);
    let args: [u8; 5] = [c, d, e, f, g];
    assert(args == register_list(buffer@));
    match opcode {
        0x24 => Instruction::FilledNewArray { type_idx: index, args, arg_cnt },
        0x6E => Instruction::InvokeVirtual { method_idx: index, args, arg_cnt },
        0x6F => Instruction::InvokeSuper { method_idx: index, args, arg_cnt },
        0x70 => Instruction::InvokeDirect { method_idx: index, args, arg_cnt },
        0x71 => Instruction::InvokeStatic { method_idx: index, args, arg_cnt },
        0x72 => Instruction::InvokeInterface { method_idx: index, args, arg_cnt },
        _ => Instruction::InvokeCustom { call_site_idx: index, args, arg_cnt },
    }
}

/// Decodes an instruction whose operands are a pool index and a run of
/// consecutive registers.
fn decode_register_range(opcode: u8, buffer: &[u8]) -> (r: Instruction)
    requires
        buffer@.len() >= 6,
        buffer@[0] == opcode,
        opcode == 0x25 || (0x74 <= opcode && opcode <= 0x78) || opcode == 0xFD,
    ensures
        r == decode_operands(buffer@),
{
    let arg_cnt: u8 = buffer[1];
    let index: u16 = read_u16_le(buffer, 2);
    let first_arg: u16 = read_u16_le(buffer, 4);
    match opcode {
        0x25 => Instruction::FilledNewArrayRange { type_idx: index, first_arg, arg_cnt },
        0x74 => Instruction::InvokeVirtualRange { method_idx: index, first_arg, arg_cnt },
        0x75 => Instruction::InvokeSuperRange { method_idx: index, first_arg, arg_cnt },
        0x76 => Instruction::InvokeDirectRange { method_idx: index, first_arg, arg_cnt },
        0x77 => Instruction::InvokeStaticRange { method_idx: index, first_arg, arg_cnt },
        0x78 => Instruction::InvokeInterfaceRange { method_idx: index, first_arg, arg_cnt },
        _ => Instruction::InvokeCustomRange { call_site_idx: index, first_arg, arg_cnt },
    }
}

/// Decodes an instruction whose operands are two registers and a signed 8-bit
/// literal.
fn decode_literal8(opcode: u8, buffer: &[u8]) -> (r: Instruction)
    requires
        buffer@.len() >= 4,
        buffer@[0] == opcode,
        (0xD8 <= opcode && opcode <= 0xE2),
    ensures
        r == decode_operands(buffer@),
{
    let dst: u8 = buffer[1];
    let src: u8 = buffer[2];
    let value: i8 = to_i8(buffer[3]);
    match opcode {
        0xD8 => Instruction::AddIntLit8 { dst, src, value },
        0xD9 => Instruction::RsubIntLit8 { dst, src, value },
        0xDA => Instruction::MulIntLit8 { dst, src, value },
        0xDB => Instruction::DivIntLit8 { dst, src, value },
        0xDC => Instruction::RemIntLit8 { dst, src, value },
        0xDD => Instruction::AndIntLit8 { dst, src, value },
        0xDE => Instruction::OrIntLit8 { dst, src, value },
        0xDF => Instruction::XorIntLit8 { dst, src, value },
        0xE0 => Instruction::ShlIntLit8 { dst, src, value },
        0xE1 => Instruction::ShrIntLit8 { dst, src, value },
        _ => Instruction::UShrIntLit8 { dst, src, value },
    }
}

impl Instruction {
    /// Decodes the instruction at the front of `buffer`.
    ///
    /// Fails with `EmptyBuffer` on no bytes, with `UnknownOpcode` where the
    /// first byte starts no instruction, and with `Size` where the buffer ends
    /// before the instruction does. Bytes after the instruction are ignored.
    pub fn try_decode(buffer: &[u8]) -> (r: Result<Instruction, InstructionError>)
        ensures
            r == try_decode_spec(buffer@),
            r matches Ok(i) ==> i.opcode_byte() == buffer@[0] && opcode_size(buffer@[0]) == Some(
                i.spec_size_bytes(),
            ) && i.spec_size_bytes() <= buffer@.len(),
    {
        if buffer.len() == 0 {
            return Err(InstructionError::EmptyBuffer);
        }
        let opcode: u8 = buffer[0];
        let expected: usize = match instruction_size_bytes(opcode) {
            Ok(n) => n,
            Err(e) => {
                return Err(e);
            },
        };
        if buffer.len() < expected {
            return Err(InstructionError::Size { opcode, expected, actual: buffer.len() });
        }
        proof {
            lemma_decode_keeps_opcode(buffer@);
        }
        if opcode == 0x01 || opcode == 0x04 || opcode == 0x07 || opcode == 0x21
            || (0x7B <= opcode && opcode <= 0x8F)
            || (0xB0 <= opcode && opcode <= 0xCF) {
            return Ok(decode_register_pair(opcode, buffer));
        }
        if (0x0A <= opcode && opcode <= 0x0D) || (0x0F <= opcode && opcode <= 0x11)
            || opcode == 0x1D || opcode == 0x1E || opcode == 0x27 {
            return Ok(decode_one_register(opcode, buffer));
        }
        if opcode == 0x02 || opcode == 0x05 || opcode == 0x08 || opcode == 0x1A
            || opcode == 0x1C || opcode == 0x1F || opcode == 0x22
            || (0x60 <= opcode && opcode <= 0x6D) || opcode == 0xFE
            || opcode == 0xFF {
            return Ok(decode_register_and_index(opcode, buffer));
        }
        if opcode == 0x13 || opcode == 0x15 || opcode == 0x16 || opcode == 0x19
            || (0x38 <= opcode && opcode <= 0x3D) {
            return Ok(decode_register_and_short(opcode, buffer));
        }
        if opcode == 0x14 || opcode == 0x17 || opcode == 0x26 || opcode == 0x2B
            || opcode == 0x2C {
            return Ok(decode_register_and_int(opcode, buffer));
        }
        if opcode == 0x20 || opcode == 0x23 || (0x52 <= opcode && opcode <= 0x5F) {
            return Ok(decode_pair_and_index(opcode, buffer));
        }
        if (0x32 <= opcode && opcode <= 0x37) || (0xD0 <= opcode && opcode <= 0xD7) {
            return Ok(decode_pair_and_short(opcode, buffer));
        }
        if (0x2D <= opcode && opcode <= 0x31) || (0x44 <= opcode && opcode <= 0x51)
            || (0x90 <= opcode && opcode <= 0xAF) {
            return Ok(decode_three_registers(opcode, buffer));
        }
        if opcode == 0x24 || (0x6E <= opcode && opcode <= 0x72) || opcode == 0xFC {
            return Ok(decode_register_list(opcode, buffer));
        }
        if opcode == 0x25 || (0x74 <= opcode && opcode <= 0x78) || opcode == 0xFD {
            return Ok(decode_register_range(opcode, buffer));
        }
        if (0xD8 <= opcode && opcode <= 0xE2) {
            return Ok(decode_literal8(opcode, buffer));
        }
        Ok(decode_other(opcode, buffer))
    }

    /// Decodes the instruction at the front of `buffer` and gives it back
    /// with the number of bytes it occupies.
    pub fn decode(buffer: &[u8]) -> (r: Result<(Instruction, usize), InstructionError>)
        ensures
            match try_decode_spec(buffer@) {
                Ok(i) => r == Ok::<(Instruction, usize), InstructionError>(
                    (i, i.spec_size_bytes()),
                ),
                Err(e) => r == Err::<(Instruction, usize), InstructionError>(e),
            },
    {
        match Instruction::try_decode(buffer) {
            Ok(inst) => {
                let length: usize = inst.size_bytes();
                Ok((inst, length))
            },
            Err(e) => Err(e),
        }
    }
}

/// Decodes an instruction of one of the formats that few opcodes share.
fn decode_other(opcode: u8, buffer: &[u8]) -> (r: Instruction)
    requires
        buffer@[0] == opcode,
        opcode_size(opcode) matches Some(n) && buffer@.len() >= n,
        opcode == 0x00 || opcode == 0x03 || opcode == 0x06 || opcode == 0x09
            || opcode == 0x0E || opcode == 0x12 || opcode == 0x18 || opcode == 0x1B
            || (0x28 <= opcode && opcode <= 0x2A) || opcode == 0xFA
            || opcode == 0xFB,
    ensures
        r == decode_operands(buffer@),
{
    match opcode {
        0x00 => Instruction::Nop,
        0x03 => Instruction::Move16 { dst: read_u16_le(buffer, 2), src: read_u16_le(buffer, 4) },
        0x06 => Instruction::MoveWide16 {
            dst: read_u16_le(buffer, 2),
            src: read_u16_le(buffer, 4),
        },
        0x09 => Instruction::MoveObject16 {
            dst: read_u16_le(buffer, 2),
            src: read_u16_le(buffer, 4),
        },
        0x0E => Instruction::ReturnVoid,
        0x12 => {
            let (dst, literal) = to_nibbles(buffer[1]);
            Instruction::Const4 { dst, value: nibble_to_i8(literal) }
        },
        0x18 => Instruction::ConstWide { dst: buffer[1], value: to_i64(read_u64_le(buffer, 2)) },
        0x1B => Instruction::ConstStringJumbo {
            dst: buffer[1],
            string_idx: read_u32_le(buffer, 2),
        },
        0x28 => Instruction::Goto { offset: to_i8(buffer[1]) },
        0x29 => Instruction::Goto16 { offset: to_i16(read_u16_le(buffer, 2)) },
        0x2A => Instruction::Goto32 { offset: to_i32(read_u32_le(buffer, 2)) },
        0xFA => {
            let (g, arg_cnt) = to_nibbles(buffer[1]);
            let method_idx: u16 = read_u16_le(buffer, 2);
            let (c, d) = to_nibbles(buffer[4]);
            let (e, f) = to_nibbles(buffer[5]);
            let proto_idx: u16 = read_u16_le(buffer, 6);
            let args: [u8; 5] = [c, d, e, f, g];
            assert(args == register_list(buffer@));
            Instruction::InvokePolymorphic { method_idx, proto_idx, args, arg_cnt }
        },
        _ => {
            let arg_cnt: u8 = buffer[1];
            let method_idx: u16 = read_u16_le(buffer, 2);
            let first_arg: u16 = read_u16_le(buffer, 4);
            let proto_idx: u16 = read_u16_le(buffer, 6);
            Instruction::InvokePolymorphicRange { method_idx, proto_idx, first_arg, arg_cnt }
        },
    }
}

} // verus!
