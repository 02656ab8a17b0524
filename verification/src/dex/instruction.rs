use vstd::prelude::*;

pub mod decode;
pub mod human_readable;
pub mod offset;
pub mod size;

verus! {

/// One Dalvik instruction with its operands.
///
/// Registers are `dst`, `src`, `a`, `b` and the like; `*_idx` fields index a
/// pool of the container; `offset` is a branch distance in 16-bit code units
/// from the start of the instruction.
#[allow(inconsistent_fields)]
#[derive(Debug, PartialEq, Eq, Clone, Copy)]
pub enum Instruction {
    // Moves
    Nop,
    Move { dst: u8, src: u8 },
    MoveFrom16 { dst: u8, src: u16 },
    Move16 { dst: u16, src: u16 },
    MoveWide { dst: u8, src: u8 },
    MoveWideFrom16 { dst: u8, src: u16 },
    MoveWide16 { dst: u16, src: u16 },
    MoveObject { dst: u8, src: u8 },
    MoveObjectFrom16 { dst: u8, src: u16 },
    MoveObject16 { dst: u16, src: u16 },
    MoveResult { dst: u8 },
    MoveResultWide { dst: u8 },
    MoveResultObject { dst: u8 },
    MoveException { dst: u8 },
    // Returns
    ReturnVoid,
    Return { value: u8 },
    ReturnWide { value: u8 },
    ReturnObject { value: u8 },
    // Constants
    Const4 { dst: u8, value: i8 },
    Const16 { dst: u8, value: i16 },
    Const { dst: u8, value: i32 },
    ConstHigh16 { dst: u8, value: i16 },
    ConstWide16 { dst: u8, value: i16 },
    ConstWide32 { dst: u8, value: i32 },
    ConstWide { dst: u8, value: i64 },
    ConstWideHigh16 { dst: u8, value: i16 },
    ConstString { dst: u8, string_idx: u16 },
    ConstStringJumbo { dst: u8, string_idx: u32 },
    ConstClass { dst: u8, type_idx: u16 },
    // Monitors and casts
    MonitorEnter { reference: u8 },
    MonitorExit { reference: u8 },
    CheckCast { reference: u8, type_idx: u16 },
    InstanceOf { dst: u8, reference: u8, type_idx: u16 },
    // Arrays
    ArrayLength { dst: u8, array: u8 },
    NewInstance { dst: u8, type_idx: u16 },
    NewArray { dst: u8, size: u8, type_idx: u16 },
    FilledNewArray { type_idx: u16, args: [u8; 5], arg_cnt: u8 },
    FilledNewArrayRange { type_idx: u16, first_arg: u16, arg_cnt: u8 },
    FillArrayData { array: u8, offset: i32 },
    // Control
    Throw { exception: u8 },
    Goto { offset: i8 },
    Goto16 { offset: i16 },
    Goto32 { offset: i32 },
    PackedSwitch { value: u8, offset: i32 },
    SparseSwitch { value: u8, offset: i32 },
    // Comparisons
    CmplFloat { dst: u8, src_a: u8, src_b: u8 },
    CmpgFloat { dst: u8, src_a: u8, src_b: u8 },
    CmplDouble { dst: u8, src_a: u8, src_b: u8 },
    CmpgDouble { dst: u8, src_a: u8, src_b: u8 },
    CmpLong { dst: u8, src_a: u8, src_b: u8 },
    // Conditional branches on two registers
    IfEq { a: u8, b: u8, offset: i16 },
    IfNe { a: u8, b: u8, offset: i16 },
    IfLt { a: u8, b: u8, offset: i16 },
    IfGe { a: u8, b: u8, offset: i16 },
    IfGt { a: u8, b: u8, offset: i16 },
    IfLe { a: u8, b: u8, offset: i16 },
    // Conditional branches on zero
    IfEqz { a: u8, offset: i16 },
    IfNez { a: u8, offset: i16 },
    IfLtz { a: u8, offset: i16 },
    IfGez { a: u8, offset: i16 },
    IfGtz { a: u8, offset: i16 },
    IfLez { a: u8, offset: i16 },
    // Array elements
    Aget { src: u8, array: u8, index: u8 },
    AgetWide { src: u8, array: u8, index: u8 },
    AgetObject { src: u8, array: u8, index: u8 },
    AgetBoolean { src: u8, array: u8, index: u8 },
    AgetByte { src: u8, array: u8, index: u8 },
    AgetChar { src: u8, array: u8, index: u8 },
    AgetShort { src: u8, array: u8, index: u8 },
    Aput { dst: u8, array: u8, index: u8 },
    AputWide { dst: u8, array: u8, index: u8 },
    AputObject { dst: u8, array: u8, index: u8 },
    AputBoolean { dst: u8, array: u8, index: u8 },
    AputByte { dst: u8, array: u8, index: u8 },
    AputChar { dst: u8, array: u8, index: u8 },
    AputShort { dst: u8, array: u8, index: u8 },
    // Instance fields
    Iget { src: u8, object: u8, field_idx: u16 },
    IgetWide { src: u8, object: u8, field_idx: u16 },
    IgetObject { src: u8, object: u8, field_idx: u16 },
    IgetBoolean { src: u8, object: u8, field_idx: u16 },
    IgetByte { src: u8, object: u8, field_idx: u16 },
    IgetChar { src: u8, object: u8, field_idx: u16 },
    IgetShort { src: u8, object: u8, field_idx: u16 },
    Iput { dst: u8, object: u8, field_idx: u16 },
    IputWide { dst: u8, object: u8, field_idx: u16 },
    IputObject { dst: u8, object: u8, field_idx: u16 },
    IputBoolean { dst: u8, object: u8, field_idx: u16 },
    IputByte { dst: u8, object: u8, field_idx: u16 },
    IputChar { dst: u8, object: u8, field_idx: u16 },
    IputShort { dst: u8, object: u8, field_idx: u16 },
    // Static fields
    Sget { src: u8, field_idx: u16 },
    SgetWide { src: u8, field_idx: u16 },
    SgetObject { src: u8, field_idx: u16 },
    SgetBoolean { src: u8, field_idx: u16 },
    SgetByte { src: u8, field_idx: u16 },
    SgetChar { src: u8, field_idx: u16 },
    SgetShort { src: u8, field_idx: u16 },
    Sput { dst: u8, field_idx: u16 },
    SputWide { dst: u8, field_idx: u16 },
    SputObject { dst: u8, field_idx: u16 },
    SputBoolean { dst: u8, field_idx: u16 },
    SputByte { dst: u8, field_idx: u16 },
    SputChar { dst: u8, field_idx: u16 },
    SputShort { dst: u8, field_idx: u16 },
    // Invokes
    InvokeVirtual { method_idx: u16, args: [u8; 5], arg_cnt: u8 },
    InvokeSuper { method_idx: u16, args: [u8; 5], arg_cnt: u8 },
    InvokeDirect { method_idx: u16, args: [u8; 5], arg_cnt: u8 },
    InvokeStatic { method_idx: u16, args: [u8; 5], arg_cnt: u8 },
    InvokeInterface { method_idx: u16, args: [u8; 5], arg_cnt: u8 },
    // Invokes on a register range
    InvokeVirtualRange { method_idx: u16, first_arg: u16, arg_cnt: u8 },
    InvokeSuperRange { method_idx: u16, first_arg: u16, arg_cnt: u8 },
    InvokeDirectRange { method_idx: u16, first_arg: u16, arg_cnt: u8 },
    InvokeStaticRange { method_idx: u16, first_arg: u16, arg_cnt: u8 },
    InvokeInterfaceRange { method_idx: u16, first_arg: u16, arg_cnt: u8 },
    // Unary operations and conversions
    NegInt { dst: u8, src: u8 },
    NotInt { dst: u8, src: u8 },
    NegLong { dst: u8, src: u8 },
    NotLong { dst: u8, src: u8 },
    NegFloat { dst: u8, src: u8 },
    NegDouble { dst: u8, src: u8 },
    IntToLong { dst: u8, src: u8 },
    IntToFloat { dst: u8, src: u8 },
    IntToDouble { dst: u8, src: u8 },
    LongToInt { dst: u8, src: u8 },
    LongToFloat { dst: u8, src: u8 },
    LongToDouble { dst: u8, src: u8 },
    FloatToInt { dst: u8, src: u8 },
    FloatToLong { dst: u8, src: u8 },
    FloatToDouble { dst: u8, src: u8 },
    DoubleToInt { dst: u8, src: u8 },
    DoubleToLong { dst: u8, src: u8 },
    DoubleToFloat { dst: u8, src: u8 },
    IntToByte { dst: u8, src: u8 },
    IntToChar { dst: u8, src: u8 },
    IntToShort { dst: u8, src: u8 },
    // Binary operations
    AddInt { dst: u8, src_a: u8, src_b: u8 },
    SubInt { dst: u8, src_a: u8, src_b: u8 },
    MulInt { dst: u8, src_a: u8, src_b: u8 },
    DivInt { dst: u8, src_a: u8, src_b: u8 },
    RemInt { dst: u8, src_a: u8, src_b: u8 },
    AndInt { dst: u8, src_a: u8, src_b: u8 },
    OrInt { dst: u8, src_a: u8, src_b: u8 },
    XorInt { dst: u8, src_a: u8, src_b: u8 },
    ShlInt { dst: u8, src_a: u8, src_b: u8 },
    ShrInt { dst: u8, src_a: u8, src_b: u8 },
    UShrInt { dst: u8, src_a: u8, src_b: u8 },
    AddLong { dst: u8, src_a: u8, src_b: u8 },
    SubLong { dst: u8, src_a: u8, src_b: u8 },
    MulLong { dst: u8, src_a: u8, src_b: u8 },
    DivLong { dst: u8, src_a: u8, src_b: u8 },
    RemLong { dst: u8, src_a: u8, src_b: u8 },
    AndLong { dst: u8, src_a: u8, src_b: u8 },
    OrLong { dst: u8, src_a: u8, src_b: u8 },
    XorLong { dst: u8, src_a: u8, src_b: u8 },
    ShlLong { dst: u8, src_a: u8, src_b: u8 },
    ShrLong { dst: u8, src_a: u8, src_b: u8 },
    UShrLong { dst: u8, src_a: u8, src_b: u8 },
    AddFloat { dst: u8, src_a: u8, src_b: u8 },
    SubFloat { dst: u8, src_a: u8, src_b: u8 },
    MulFloat { dst: u8, src_a: u8, src_b: u8 },
    DivFloat { dst: u8, src_a: u8, src_b: u8 },
    RemFloat { dst: u8, src_a: u8, src_b: u8 },
    AddDouble { dst: u8, src_a: u8, src_b: u8 },
    SubDouble { dst: u8, src_a: u8, src_b: u8 },
    MulDouble { dst: u8, src_a: u8, src_b: u8 },
    DivDouble { dst: u8, src_a: u8, src_b: u8 },
    RemDouble { dst: u8, src_a: u8, src_b: u8 },
    // Binary operations, two-address form
    AddInt2Addr { dst: u8, src: u8 },
    SubInt2Addr { dst: u8, src: u8 },
    MulInt2Addr { dst: u8, src: u8 },
    DivInt2Addr { dst: u8, src: u8 },
    RemInt2Addr { dst: u8, src: u8 },
    AndInt2Addr { dst: u8, src: u8 },
    OrInt2Addr { dst: u8, src: u8 },
    XorInt2Addr { dst: u8, src: u8 },
    ShlInt2Addr { dst: u8, src: u8 },
    ShrInt2Addr { dst: u8, src: u8 },
    UShrInt2Addr { dst: u8, src: u8 },
    AddLong2Addr { dst: u8, src: u8 },
    SubLong2Addr { dst: u8, src: u8 },
    MulLong2Addr { dst: u8, src: u8 },
    DivLong2Addr { dst: u8, src: u8 },
    RemLong2Addr { dst: u8, src: u8 },
    AndLong2Addr { dst: u8, src: u8 },
    OrLong2Addr { dst: u8, src: u8 },
    XorLong2Addr { dst: u8, src: u8 },
    ShlLong2Addr { dst: u8, src: u8 },
    ShrLong2Addr { dst: u8, src: u8 },
    UShrLong2Addr { dst: u8, src: u8 },
    AddFloat2Addr { dst: u8, src: u8 },
    SubFloat2Addr { dst: u8, src: u8 },
    MulFloat2Addr { dst: u8, src: u8 },
    DivFloat2Addr { dst: u8, src: u8 },
    RemFloat2Addr { dst: u8, src: u8 },
    AddDouble2Addr { dst: u8, src: u8 },
    SubDouble2Addr { dst: u8, src: u8 },
    MulDouble2Addr { dst: u8, src: u8 },
    DivDouble2Addr { dst: u8, src: u8 },
    RemDouble2Addr { dst: u8, src: u8 },
    // Binary operations with a 16-bit literal
    AddIntLit16 { dst: u8, src: u8, value: i16 },
    RsubInt { dst: u8, src: u8, value: i16 },
    MulIntLit16 { dst: u8, src: u8, value: i16 },
    DivIntLit16 { dst: u8, src: u8, value: i16 },
    RemIntLit16 { dst: u8, src: u8, value: i16 },
    AndIntLit16 { dst: u8, src: u8, value: i16 },
    OrIntLit16 { dst: u8, src: u8, value: i16 },
    XorIntLit16 { dst: u8, src: u8, value: i16 },
    // Binary operations with an 8-bit literal
    AddIntLit8 { dst: u8, src: u8, value: i8 },
    RsubIntLit8 { dst: u8, src: u8, value: i8 },
    MulIntLit8 { dst: u8, src: u8, value: i8 },
    DivIntLit8 { dst: u8, src: u8, value: i8 },
    RemIntLit8 { dst: u8, src: u8, value: i8 },
    AndIntLit8 { dst: u8, src: u8, value: i8 },
    OrIntLit8 { dst: u8, src: u8, value: i8 },
    XorIntLit8 { dst: u8, src: u8, value: i8 },
    ShlIntLit8 { dst: u8, src: u8, value: i8 },
    ShrIntLit8 { dst: u8, src: u8, value: i8 },
    UShrIntLit8 { dst: u8, src: u8, value: i8 },
    // Polymorphic and custom invokes, method handles
    InvokePolymorphic { method_idx: u16, proto_idx: u16, args: [u8; 5], arg_cnt: u8 },
    InvokePolymorphicRange { method_idx: u16, proto_idx: u16, first_arg: u16, arg_cnt: u8 },
    InvokeCustom { call_site_idx: u16, args: [u8; 5], arg_cnt: u8 },
    InvokeCustomRange { call_site_idx: u16, first_arg: u16, arg_cnt: u8 },
    ConstMethodHandle { dst: u8, method_handle_idx: u16 },
    ConstMethodType { dst: u8, proto_idx: u16 },
}

impl Instruction {
    /// The byte that starts the encoding of this instruction.
    pub open spec fn opcode_byte(self) -> u8 {
        match self {
            Instruction::Nop => 0x00,
            Instruction::Move { .. } => 0x01,
            Instruction::MoveFrom16 { .. } => 0x02,
            Instruction::Move16 { .. } => 0x03,
            Instruction::MoveWide { .. } => 0x04,
            Instruction::MoveWideFrom16 { .. } => 0x05,
            Instruction::MoveWide16 { .. } => 0x06,
            Instruction::MoveObject { .. } => 0x07,
            Instruction::MoveObjectFrom16 { .. } => 0x08,
            Instruction::MoveObject16 { .. } => 0x09,
            Instruction::MoveResult { .. } => 0x0A,
            Instruction::MoveResultWide { .. } => 0x0B,
            Instruction::MoveResultObject { .. } => 0x0C,
            Instruction::MoveException { .. } => 0x0D,
            Instruction::ReturnVoid => 0x0E,
            Instruction::Return { .. } => 0x0F,
            Instruction::ReturnWide { .. } => 0x10,
            Instruction::ReturnObject { .. } => 0x11,
            Instruction::Const4 { .. } => 0x12,
            Instruction::Const16 { .. } => 0x13,
            Instruction::Const { .. } => 0x14,
            Instruction::ConstHigh16 { .. } => 0x15,
            Instruction::ConstWide16 { .. } => 0x16,
            Instruction::ConstWide32 { .. } => 0x17,
            Instruction::ConstWide { .. } => 0x18,
            Instruction::ConstWideHigh16 { .. } => 0x19,
            Instruction::ConstString { .. } => 0x1A,
            Instruction::ConstStringJumbo { .. } => 0x1B,
            Instruction::ConstClass { .. } => 0x1C,
            Instruction::MonitorEnter { .. } => 0x1D,
            Instruction::MonitorExit { .. } => 0x1E,
            Instruction::CheckCast { .. } => 0x1F,
            Instruction::InstanceOf { .. } => 0x20,
            Instruction::ArrayLength { .. } => 0x21,
            Instruction::NewInstance { .. } => 0x22,
            Instruction::NewArray { .. } => 0x23,
            Instruction::FilledNewArray { .. } => 0x24,
            Instruction::FilledNewArrayRange { .. } => 0x25,
            Instruction::FillArrayData { .. } => 0x26,
            Instruction::Throw { .. } => 0x27,
            Instruction::Goto { .. } => 0x28,
            Instruction::Goto16 { .. } => 0x29,
            Instruction::Goto32 { .. } => 0x2A,
            Instruction::PackedSwitch { .. } => 0x2B,
            Instruction::SparseSwitch { .. } => 0x2C,
            Instruction::CmplFloat { .. } => 0x2D,
            Instruction::CmpgFloat { .. } => 0x2E,
            Instruction::CmplDouble { .. } => 0x2F,
            Instruction::CmpgDouble { .. } => 0x30,
            Instruction::CmpLong { .. } => 0x31,
            Instruction::IfEq { .. } => 0x32,
            Instruction::IfNe { .. } => 0x33,
            Instruction::IfLt { .. } => 0x34,
            Instruction::IfGe { .. } => 0x35,
            Instruction::IfGt { .. } => 0x36,
            Instruction::IfLe { .. } => 0x37,
            Instruction::IfEqz { .. } => 0x38,
            Instruction::IfNez { .. } => 0x39,
            Instruction::IfLtz { .. } => 0x3A,
            Instruction::IfGez { .. } => 0x3B,
            Instruction::IfGtz { .. } => 0x3C,
            Instruction::IfLez { .. } => 0x3D,
            Instruction::Aget { .. } => 0x44,
            Instruction::AgetWide { .. } => 0x45,
            Instruction::AgetObject { .. } => 0x46,
            Instruction::AgetBoolean { .. } => 0x47,
            Instruction::AgetByte { .. } => 0x48,
            Instruction::AgetChar { .. } => 0x49,
            Instruction::AgetShort { .. } => 0x4A,
            Instruction::Aput { .. } => 0x4B,
            Instruction::AputWide { .. } => 0x4C,
            Instruction::AputObject { .. } => 0x4D,
            Instruction::AputBoolean { .. } => 0x4E,
            Instruction::AputByte { .. } => 0x4F,
            Instruction::AputChar { .. } => 0x50,
            Instruction::AputShort { .. } => 0x51,
            Instruction::Iget { .. } => 0x52,
            Instruction::IgetWide { .. } => 0x53,
            Instruction::IgetObject { .. } => 0x54,
            Instruction::IgetBoolean { .. } => 0x55,
            Instruction::IgetByte { .. } => 0x56,
            Instruction::IgetChar { .. } => 0x57,
            Instruction::IgetShort { .. } => 0x58,
            Instruction::Iput { .. } => 0x59,
            Instruction::IputWide { .. } => 0x5A,
            Instruction::IputObject { .. } => 0x5B,
            Instruction::IputBoolean { .. } => 0x5C,
            Instruction::IputByte { .. } => 0x5D,
            Instruction::IputChar { .. } => 0x5E,
            Instruction::IputShort { .. } => 0x5F,
            Instruction::Sget { .. } => 0x60,
            Instruction::SgetWide { .. } => 0x61,
            Instruction::SgetObject { .. } => 0x62,
            Instruction::SgetBoolean { .. } => 0x63,
            Instruction::SgetByte { .. } => 0x64,
            Instruction::SgetChar { .. } => 0x65,
            Instruction::SgetShort { .. } => 0x66,
            Instruction::Sput { .. } => 0x67,
            Instruction::SputWide { .. } => 0x68,
            Instruction::SputObject { .. } => 0x69,
            Instruction::SputBoolean { .. } => 0x6A,
            Instruction::SputByte { .. } => 0x6B,
            Instruction::SputChar { .. } => 0x6C,
            Instruction::SputShort { .. } => 0x6D,
            Instruction::InvokeVirtual { .. } => 0x6E,
            Instruction::InvokeSuper { .. } => 0x6F,
            Instruction::InvokeDirect { .. } => 0x70,
            Instruction::InvokeStatic { .. } => 0x71,
            Instruction::InvokeInterface { .. } => 0x72,
            Instruction::InvokeVirtualRange { .. } => 0x74,
            Instruction::InvokeSuperRange { .. } => 0x75,
            Instruction::InvokeDirectRange { .. } => 0x76,
            Instruction::InvokeStaticRange { .. } => 0x77,
            Instruction::InvokeInterfaceRange { .. } => 0x78,
            Instruction::NegInt { .. } => 0x7B,
            Instruction::NotInt { .. } => 0x7C,
            Instruction::NegLong { .. } => 0x7D,
            Instruction::NotLong { .. } => 0x7E,
            Instruction::NegFloat { .. } => 0x7F,
            Instruction::NegDouble { .. } => 0x80,
            Instruction::IntToLong { .. } => 0x81,
            Instruction::IntToFloat { .. } => 0x82,
            Instruction::IntToDouble { .. } => 0x83,
            Instruction::LongToInt { .. } => 0x84,
            Instruction::LongToFloat { .. } => 0x85,
            Instruction::LongToDouble { .. } => 0x86,
            Instruction::FloatToInt { .. } => 0x87,
            Instruction::FloatToLong { .. } => 0x88,
            Instruction::FloatToDouble { .. } => 0x89,
            Instruction::DoubleToInt { .. } => 0x8A,
            Instruction::DoubleToLong { .. } => 0x8B,
            Instruction::DoubleToFloat { .. } => 0x8C,
            Instruction::IntToByte { .. } => 0x8D,
            Instruction::IntToChar { .. } => 0x8E,
            Instruction::IntToShort { .. } => 0x8F,
            Instruction::AddInt { .. } => 0x90,
            Instruction::SubInt { .. } => 0x91,
            Instruction::MulInt { .. } => 0x92,
            Instruction::DivInt { .. } => 0x93,
            Instruction::RemInt { .. } => 0x94,
            Instruction::AndInt { .. } => 0x95,
            Instruction::OrInt { .. } => 0x96,
            Instruction::XorInt { .. } => 0x97,
            Instruction::ShlInt { .. } => 0x98,
            Instruction::ShrInt { .. } => 0x99,
            Instruction::UShrInt { .. } => 0x9A,
            Instruction::AddLong { .. } => 0x9B,
            Instruction::SubLong { .. } => 0x9C,
            Instruction::MulLong { .. } => 0x9D,
            Instruction::DivLong { .. } => 0x9E,
            Instruction::RemLong { .. } => 0x9F,
            Instruction::AndLong { .. } => 0xA0,
            Instruction::OrLong { .. } => 0xA1,
            Instruction::XorLong { .. } => 0xA2,
            Instruction::ShlLong { .. } => 0xA3,
            Instruction::ShrLong { .. } => 0xA4,
            Instruction::UShrLong { .. } => 0xA5,
            Instruction::AddFloat { .. } => 0xA6,
            Instruction::SubFloat { .. } => 0xA7,
            Instruction::MulFloat { .. } => 0xA8,
            Instruction::DivFloat { .. } => 0xA9,
            Instruction::RemFloat { .. } => 0xAA,
            Instruction::AddDouble { .. } => 0xAB,
            Instruction::SubDouble { .. } => 0xAC,
            Instruction::MulDouble { .. } => 0xAD,
            Instruction::DivDouble { .. } => 0xAE,
            Instruction::RemDouble { .. } => 0xAF,
            Instruction::AddInt2Addr { .. } => 0xB0,
            Instruction::SubInt2Addr { .. } => 0xB1,
            Instruction::MulInt2Addr { .. } => 0xB2,
            Instruction::DivInt2Addr { .. } => 0xB3,
            Instruction::RemInt2Addr { .. } => 0xB4,
            Instruction::AndInt2Addr { .. } => 0xB5,
            Instruction::OrInt2Addr { .. } => 0xB6,
            Instruction::XorInt2Addr { .. } => 0xB7,
            Instruction::ShlInt2Addr { .. } => 0xB8,
            Instruction::ShrInt2Addr { .. } => 0xB9,
            Instruction::UShrInt2Addr { .. } => 0xBA,
            Instruction::AddLong2Addr { .. } => 0xBB,
            Instruction::SubLong2Addr { .. } => 0xBC,
            Instruction::MulLong2Addr { .. } => 0xBD,
            Instruction::DivLong2Addr { .. } => 0xBE,
            Instruction::RemLong2Addr { .. } => 0xBF,
            Instruction::AndLong2Addr { .. } => 0xC0,
            Instruction::OrLong2Addr { .. } => 0xC1,
            Instruction::XorLong2Addr { .. } => 0xC2,
            Instruction::ShlLong2Addr { .. } => 0xC3,
            Instruction::ShrLong2Addr { .. } => 0xC4,
            Instruction::UShrLong2Addr { .. } => 0xC5,
            Instruction::AddFloat2Addr { .. } => 0xC6,
            Instruction::SubFloat2Addr { .. } => 0xC7,
            Instruction::MulFloat2Addr { .. } => 0xC8,
            Instruction::DivFloat2Addr { .. } => 0xC9,
            Instruction::RemFloat2Addr { .. } => 0xCA,
            Instruction::AddDouble2Addr { .. } => 0xCB,
            Instruction::SubDouble2Addr { .. } => 0xCC,
            Instruction::MulDouble2Addr { .. } => 0xCD,
            Instruction::DivDouble2Addr { .. } => 0xCE,
            Instruction::RemDouble2Addr { .. } => 0xCF,
            Instruction::AddIntLit16 { .. } => 0xD0,
            Instruction::RsubInt { .. } => 0xD1,
            Instruction::MulIntLit16 { .. } => 0xD2,
            Instruction::DivIntLit16 { .. } => 0xD3,
            Instruction::RemIntLit16 { .. } => 0xD4,
            Instruction::AndIntLit16 { .. } => 0xD5,
            Instruction::OrIntLit16 { .. } => 0xD6,
            Instruction::XorIntLit16 { .. } => 0xD7,
            Instruction::AddIntLit8 { .. } => 0xD8,
            Instruction::RsubIntLit8 { .. } => 0xD9,
            Instruction::MulIntLit8 { .. } => 0xDA,
            Instruction::DivIntLit8 { .. } => 0xDB,
            Instruction::RemIntLit8 { .. } => 0xDC,
            Instruction::AndIntLit8 { .. } => 0xDD,
            Instruction::OrIntLit8 { .. } => 0xDE,
            Instruction::XorIntLit8 { .. } => 0xDF,
            Instruction::ShlIntLit8 { .. } => 0xE0,
            Instruction::ShrIntLit8 { .. } => 0xE1,
            Instruction::UShrIntLit8 { .. } => 0xE2,
            Instruction::InvokePolymorphic { .. } => 0xFA,
            Instruction::InvokePolymorphicRange { .. } => 0xFB,
            Instruction::InvokeCustom { .. } => 0xFC,
            Instruction::InvokeCustomRange { .. } => 0xFD,
            Instruction::ConstMethodHandle { .. } => 0xFE,
            Instruction::ConstMethodType { .. } => 0xFF,
        }
    }

    /// The mnemonic of this instruction.
    pub open spec fn mnemonic(self) -> Seq<char> {
        match self {
            Instruction::Nop => "nop"@,
            Instruction::Move { .. } => "move"@,
            Instruction::MoveFrom16 { .. } => "move/from16"@,
            Instruction::Move16 { .. } => "move/16"@,
            Instruction::MoveWide { .. } => "move-wide"@,
            Instruction::MoveWideFrom16 { .. } => "move-wide/from16"@,
            Instruction::MoveWide16 { .. } => "move-wide/16"@,
            Instruction::MoveObject { .. } => "move-object"@,
            Instruction::MoveObjectFrom16 { .. } => "move-object/from16"@,
            Instruction::MoveObject16 { .. } => "move-object/16"@,
            Instruction::MoveResult { .. } => "move-result"@,
            Instruction::MoveResultWide { .. } => "move-result-wide"@,
            Instruction::MoveResultObject { .. } => "move-result-object"@,
            Instruction::MoveException { .. } => "move-exception"@,
            Instruction::ReturnVoid => "return-void"@,
            Instruction::Return { .. } => "return"@,
            Instruction::ReturnWide { .. } => "return-wide"@,
            Instruction::ReturnObject { .. } => "return-object"@,
            Instruction::Const4 { .. } => "const/4"@,
            Instruction::Const16 { .. } => "const/16"@,
            Instruction::Const { .. } => "const"@,
            Instruction::ConstHigh16 { .. } => "const/high16"@,
            Instruction::ConstWide16 { .. } => "const-wide/16"@,
            Instruction::ConstWide32 { .. } => "const-wide/32"@,
            Instruction::ConstWide { .. } => "const-wide"@,
            Instruction::ConstWideHigh16 { .. } => "const-wide/high16"@,
            Instruction::ConstString { .. } => "const-string"@,
            Instruction::ConstStringJumbo { .. } => "const-string/jumbo"@,
            Instruction::ConstClass { .. } => "const-class"@,
            Instruction::MonitorEnter { .. } => "monitor-enter"@,
            Instruction::MonitorExit { .. } => "monitor-exit"@,
            Instruction::CheckCast { .. } => "check-cast"@,
            Instruction::InstanceOf { .. } => "instance-of"@,
            Instruction::ArrayLength { .. } => "array-length"@,
            Instruction::NewInstance { .. } => "new-instance"@,
            Instruction::NewArray { .. } => "new-array"@,
            Instruction::FilledNewArray { .. } => "filled-new-array"@,
            Instruction::FilledNewArrayRange { .. } => "filled-new-array/range"@,
            Instruction::FillArrayData { .. } => "fill-array-data"@,
            Instruction::Throw { .. } => "throw"@,
            Instruction::Goto { .. } => "goto"@,
            Instruction::Goto16 { .. } => "goto/16"@,
            Instruction::Goto32 { .. } => "goto/32"@,
            Instruction::PackedSwitch { .. } => "packed-switch"@,
            Instruction::SparseSwitch { .. } => "sparse-switch"@,
            Instruction::CmplFloat { .. } => "cmpl-float"@,
            Instruction::CmpgFloat { .. } => "cmpg-float"@,
            Instruction::CmplDouble { .. } => "cmpl-double"@,
            Instruction::CmpgDouble { .. } => "cmpg-double"@,
            Instruction::CmpLong { .. } => "cmp-long"@,
            Instruction::IfEq { .. } => "if-eq"@,
            Instruction::IfNe { .. } => "if-ne"@,
            Instruction::IfLt { .. } => "if-lt"@,
            Instruction::IfGe { .. } => "if-ge"@,
            Instruction::IfGt { .. } => "if-gt"@,
            Instruction::IfLe { .. } => "if-le"@,
            Instruction::IfEqz { .. } => "if-eqz"@,
            Instruction::IfNez { .. } => "if-nez"@,
            Instruction::IfLtz { .. } => "if-ltz"@,
            Instruction::IfGez { .. } => "if-gez"@,
            Instruction::IfGtz { .. } => "if-gtz"@,
            Instruction::IfLez { .. } => "if-lez"@,
            Instruction::Aget { .. } => "aget"@,
            Instruction::AgetWide { .. } => "aget-wide"@,
            Instruction::AgetObject { .. } => "aget-object"@,
            Instruction::AgetBoolean { .. } => "aget-boolean"@,
            Instruction::AgetByte { .. } => "aget-byte"@,
            Instruction::AgetChar { .. } => "aget-char"@,
            Instruction::AgetShort { .. } => "aget-short"@,
            Instruction::Aput { .. } => "aput"@,
            Instruction::AputWide { .. } => "aput-wide"@,
            Instruction::AputObject { .. } => "aput-object"@,
            Instruction::AputBoolean { .. } => "aput-boolean"@,
            Instruction::AputByte { .. } => "aput-byte"@,
            Instruction::AputChar { .. } => "aput-char"@,
            Instruction::AputShort { .. } => "aput-short"@,
            Instruction::Iget { .. } => "iget"@,
            Instruction::IgetWide { .. } => "iget-wide"@,
            Instruction::IgetObject { .. } => "iget-object"@,
            Instruction::IgetBoolean { .. } => "iget-boolean"@,
            Instruction::IgetByte { .. } => "iget-byte"@,
            Instruction::IgetChar { .. } => "iget-char"@,
            Instruction::IgetShort { .. } => "iget-short"@,
            Instruction::Iput { .. } => "iput"@,
            Instruction::IputWide { .. } => "iput-wide"@,
            Instruction::IputObject { .. } => "iput-object"@,
            Instruction::IputBoolean { .. } => "iput-boolean"@,
            Instruction::IputByte { .. } => "iput-byte"@,
            Instruction::IputChar { .. } => "iput-char"@,
            Instruction::IputShort { .. } => "iput-short"@,
            Instruction::Sget { .. } => "sget"@,
            Instruction::SgetWide { .. } => "sget-wide"@,
            Instruction::SgetObject { .. } => "sget-object"@,
            Instruction::SgetBoolean { .. } => "sget-boolean"@,
            Instruction::SgetByte { .. } => "sget-byte"@,
            Instruction::SgetChar { .. } => "sget-char"@,
            Instruction::SgetShort { .. } => "sget-short"@,
            Instruction::Sput { .. } => "sput"@,
            Instruction::SputWide { .. } => "sput-wide"@,
            Instruction::SputObject { .. } => "sput-object"@,
            Instruction::SputBoolean { .. } => "sput-boolean"@,
            Instruction::SputByte { .. } => "sput-byte"@,
            Instruction::SputChar { .. } => "sput-char"@,
            Instruction::SputShort { .. } => "sput-short"@,
            Instruction::InvokeVirtual { .. } => "invoke-virtual"@,
            Instruction::InvokeSuper { .. } => "invoke-super"@,
            Instruction::InvokeDirect { .. } => "invoke-direct"@,
            Instruction::InvokeStatic { .. } => "invoke-static"@,
            Instruction::InvokeInterface { .. } => "invoke-interface"@,
            Instruction::InvokeVirtualRange { .. } => "invoke-virtual/range"@,
            Instruction::InvokeSuperRange { .. } => "invoke-super/range"@,
            Instruction::InvokeDirectRange { .. } => "invoke-direct/range"@,
            Instruction::InvokeStaticRange { .. } => "invoke-static/range"@,
            Instruction::InvokeInterfaceRange { .. } => "invoke-interface/range"@,
            Instruction::NegInt { .. } => "neg-int"@,
            Instruction::NotInt { .. } => "not-int"@,
            Instruction::NegLong { .. } => "neg-long"@,
            Instruction::NotLong { .. } => "not-long"@,
            Instruction::NegFloat { .. } => "neg-float"@,
            Instruction::NegDouble { .. } => "neg-double"@,
            Instruction::IntToLong { .. } => "int-to-long"@,
            Instruction::IntToFloat { .. } => "int-to-float"@,
            Instruction::IntToDouble { .. } => "int-to-double"@,
            Instruction::LongToInt { .. } => "long-to-int"@,
            Instruction::LongToFloat { .. } => "long-to-float"@,
            Instruction::LongToDouble { .. } => "long-to-double"@,
            Instruction::FloatToInt { .. } => "float-to-int"@,
            Instruction::FloatToLong { .. } => "float-to-long"@,
            Instruction::FloatToDouble { .. } => "float-to-double"@,
            Instruction::DoubleToInt { .. } => "double-to-int"@,
            Instruction::DoubleToLong { .. } => "double-to-long"@,
            Instruction::DoubleToFloat { .. } => "double-to-float"@,
            Instruction::IntToByte { .. } => "int-to-byte"@,
            Instruction::IntToChar { .. } => "int-to-char"@,
            Instruction::IntToShort { .. } => "int-to-short"@,
            Instruction::AddInt { .. } => "add-int"@,
            Instruction::SubInt { .. } => "sub-int"@,
            Instruction::MulInt { .. } => "mul-int"@,
            Instruction::DivInt { .. } => "div-int"@,
            Instruction::RemInt { .. } => "rem-int"@,
            Instruction::AndInt { .. } => "and-int"@,
            Instruction::OrInt { .. } => "or-int"@,
            Instruction::XorInt { .. } => "xor-int"@,
            Instruction::ShlInt { .. } => "shl-int"@,
            Instruction::ShrInt { .. } => "shr-int"@,
            Instruction::UShrInt { .. } => "ushr-int"@,
            Instruction::AddLong { .. } => "add-long"@,
            Instruction::SubLong { .. } => "sub-long"@,
            Instruction::MulLong { .. } => "mul-long"@,
            Instruction::DivLong { .. } => "div-long"@,
            Instruction::RemLong { .. } => "rem-long"@,
            Instruction::AndLong { .. } => "and-long"@,
            Instruction::OrLong { .. } => "or-long"@,
            Instruction::XorLong { .. } => "xor-long"@,
            Instruction::ShlLong { .. } => "shl-long"@,
            Instruction::ShrLong { .. } => "shr-long"@,
            Instruction::UShrLong { .. } => "ushr-long"@,
            Instruction::AddFloat { .. } => "add-float"@,
            Instruction::SubFloat { .. } => "sub-float"@,
            Instruction::MulFloat { .. } => "mul-float"@,
            Instruction::DivFloat { .. } => "div-float"@,
            Instruction::RemFloat { .. } => "rem-float"@,
            Instruction::AddDouble { .. } => "add-double"@,
            Instruction::SubDouble { .. } => "sub-double"@,
            Instruction::MulDouble { .. } => "mul-double"@,
            Instruction::DivDouble { .. } => "div-double"@,
            Instruction::RemDouble { .. } => "rem-double"@,
            Instruction::AddInt2Addr { .. } => "add-int/2addr"@,
            Instruction::SubInt2Addr { .. } => "sub-int/2addr"@,
            Instruction::MulInt2Addr { .. } => "mul-int/2addr"@,
            Instruction::DivInt2Addr { .. } => "div-int/2addr"@,
            Instruction::RemInt2Addr { .. } => "rem-int/2addr"@,
            Instruction::AndInt2Addr { .. } => "and-int/2addr"@,
            Instruction::OrInt2Addr { .. } => "or-int/2addr"@,
            Instruction::XorInt2Addr { .. } => "xor-int/2addr"@,
            Instruction::ShlInt2Addr { .. } => "shl-int/2addr"@,
            Instruction::ShrInt2Addr { .. } => "shr-int/2addr"@,
            Instruction::UShrInt2Addr { .. } => "ushr-int/2addr"@,
            Instruction::AddLong2Addr { .. } => "add-long/2addr"@,
            Instruction::SubLong2Addr { .. } => "sub-long/2addr"@,
            Instruction::MulLong2Addr { .. } => "mul-long/2addr"@,
            Instruction::DivLong2Addr { .. } => "div-long/2addr"@,
            Instruction::RemLong2Addr { .. } => "rem-long/2addr"@,
            Instruction::AndLong2Addr { .. } => "and-long/2addr"@,
            Instruction::OrLong2Addr { .. } => "or-long/2addr"@,
            Instruction::XorLong2Addr { .. } => "xor-long/2addr"@,
            Instruction::ShlLong2Addr { .. } => "shl-long/2addr"@,
            Instruction::ShrLong2Addr { .. } => "shr-long/2addr"@,
            Instruction::UShrLong2Addr { .. } => "ushr-long/2addr"@,
            Instruction::AddFloat2Addr { .. } => "add-float/2addr"@,
            Instruction::SubFloat2Addr { .. } => "sub-float/2addr"@,
            Instruction::MulFloat2Addr { .. } => "mul-float/2addr"@,
            Instruction::DivFloat2Addr { .. } => "div-float/2addr"@,
            Instruction::RemFloat2Addr { .. } => "rem-float/2addr"@,
            Instruction::AddDouble2Addr { .. } => "add-double/2addr"@,
            Instruction::SubDouble2Addr { .. } => "sub-double/2addr"@,
            Instruction::MulDouble2Addr { .. } => "mul-double/2addr"@,
            Instruction::DivDouble2Addr { .. } => "div-double/2addr"@,
            Instruction::RemDouble2Addr { .. } => "rem-double/2addr"@,
            Instruction::AddIntLit16 { .. } => "add-int/lit16"@,
            Instruction::RsubInt { .. } => "rsub-int"@,
            Instruction::MulIntLit16 { .. } => "mul-int/lit16"@,
            Instruction::DivIntLit16 { .. } => "div-int/lit16"@,
            Instruction::RemIntLit16 { .. } => "rem-int/lit16"@,
            Instruction::AndIntLit16 { .. } => "and-int/lit16"@,
            Instruction::OrIntLit16 { .. } => "or-int/lit16"@,
            Instruction::XorIntLit16 { .. } => "xor-int/lit16"@,
            Instruction::AddIntLit8 { .. } => "add-int/lit8"@,
            Instruction::RsubIntLit8 { .. } => "rsub-int/lit8"@,
            Instruction::MulIntLit8 { .. } => "mul-int/lit8"@,
            Instruction::DivIntLit8 { .. } => "div-int/lit8"@,
            Instruction::RemIntLit8 { .. } => "rem-int/lit8"@,
            Instruction::AndIntLit8 { .. } => "and-int/lit8"@,
            Instruction::OrIntLit8 { .. } => "or-int/lit8"@,
            Instruction::XorIntLit8 { .. } => "xor-int/lit8"@,
            Instruction::ShlIntLit8 { .. } => "shl-int/lit8"@,
            Instruction::ShrIntLit8 { .. } => "shr-int/lit8"@,
            Instruction::UShrIntLit8 { .. } => "ushr-int/lit8"@,
            Instruction::InvokePolymorphic { .. } => "invoke-polymorphic"@,
            Instruction::InvokePolymorphicRange { .. } => "invoke-polymorphic/range"@,
            Instruction::InvokeCustom { .. } => "invoke-custom"@,
            Instruction::InvokeCustomRange { .. } => "invoke-custom/range"@,
            Instruction::ConstMethodHandle { .. } => "const-method-handle"@,
            Instruction::ConstMethodType { .. } => "const-method-type"@,
        }
    }

    /// The mnemonic of this instruction, as it opens its line of text.
    pub fn opcode(&self) -> (r: &'static str)
        ensures
            r@ == self.mnemonic(),
    {
        match self {
            Instruction::Nop => "nop",
            Instruction::Move { .. } => "move",
            Instruction::MoveFrom16 { .. } => "move/from16",
            Instruction::Move16 { .. } => "move/16",
            Instruction::MoveWide { .. } => "move-wide",
            Instruction::MoveWideFrom16 { .. } => "move-wide/from16",
            Instruction::MoveWide16 { .. } => "move-wide/16",
            Instruction::MoveObject { .. } => "move-object",
            Instruction::MoveObjectFrom16 { .. } => "move-object/from16",
            Instruction::MoveObject16 { .. } => "move-object/16",
            Instruction::MoveResult { .. } => "move-result",
            Instruction::MoveResultWide { .. } => "move-result-wide",
            Instruction::MoveResultObject { .. } => "move-result-object",
            Instruction::MoveException { .. } => "move-exception",
            Instruction::ReturnVoid => "return-void",
            Instruction::Return { .. } => "return",
            Instruction::ReturnWide { .. } => "return-wide",
            Instruction::ReturnObject { .. } => "return-object",
            Instruction::Const4 { .. } => "const/4",
            Instruction::Const16 { .. } => "const/16",
            Instruction::Const { .. } => "const",
            Instruction::ConstHigh16 { .. } => "const/high16",
            Instruction::ConstWide16 { .. } => "const-wide/16",
            Instruction::ConstWide32 { .. } => "const-wide/32",
            Instruction::ConstWide { .. } => "const-wide",
            Instruction::ConstWideHigh16 { .. } => "const-wide/high16",
            Instruction::ConstString { .. } => "const-string",
            Instruction::ConstStringJumbo { .. } => "const-string/jumbo",
            Instruction::ConstClass { .. } => "const-class",
            Instruction::MonitorEnter { .. } => "monitor-enter",
            Instruction::MonitorExit { .. } => "monitor-exit",
            Instruction::CheckCast { .. } => "check-cast",
            Instruction::InstanceOf { .. } => "instance-of",
            Instruction::ArrayLength { .. } => "array-length",
            Instruction::NewInstance { .. } => "new-instance",
            Instruction::NewArray { .. } => "new-array",
            Instruction::FilledNewArray { .. } => "filled-new-array",
            Instruction::FilledNewArrayRange { .. } => "filled-new-array/range",
            Instruction::FillArrayData { .. } => "fill-array-data",
            Instruction::Throw { .. } => "throw",
            Instruction::Goto { .. } => "goto",
            Instruction::Goto16 { .. } => "goto/16",
            Instruction::Goto32 { .. } => "goto/32",
            Instruction::PackedSwitch { .. } => "packed-switch",
            Instruction::SparseSwitch { .. } => "sparse-switch",
            Instruction::CmplFloat { .. } => "cmpl-float",
            Instruction::CmpgFloat { .. } => "cmpg-float",
            Instruction::CmplDouble { .. } => "cmpl-double",
            Instruction::CmpgDouble { .. } => "cmpg-double",
            Instruction::CmpLong { .. } => "cmp-long",
            Instruction::IfEq { .. } => "if-eq",
            Instruction::IfNe { .. } => "if-ne",
            Instruction::IfLt { .. } => "if-lt",
            Instruction::IfGe { .. } => "if-ge",
            Instruction::IfGt { .. } => "if-gt",
            Instruction::IfLe { .. } => "if-le",
            Instruction::IfEqz { .. } => "if-eqz",
            Instruction::IfNez { .. } => "if-nez",
            Instruction::IfLtz { .. } => "if-ltz",
            Instruction::IfGez { .. } => "if-gez",
            Instruction::IfGtz { .. } => "if-gtz",
            Instruction::IfLez { .. } => "if-lez",
            Instruction::Aget { .. } => "aget",
            Instruction::AgetWide { .. } => "aget-wide",
            Instruction::AgetObject { .. } => "aget-object",
            Instruction::AgetBoolean { .. } => "aget-boolean",
            Instruction::AgetByte { .. } => "aget-byte",
            Instruction::AgetChar { .. } => "aget-char",
            Instruction::AgetShort { .. } => "aget-short",
            Instruction::Aput { .. } => "aput",
            Instruction::AputWide { .. } => "aput-wide",
            Instruction::AputObject { .. } => "aput-object",
            Instruction::AputBoolean { .. } => "aput-boolean",
            Instruction::AputByte { .. } => "aput-byte",
            Instruction::AputChar { .. } => "aput-char",
            Instruction::AputShort { .. } => "aput-short",
            Instruction::Iget { .. } => "iget",
            Instruction::IgetWide { .. } => "iget-wide",
            Instruction::IgetObject { .. } => "iget-object",
            Instruction::IgetBoolean { .. } => "iget-boolean",
            Instruction::IgetByte { .. } => "iget-byte",
            Instruction::IgetChar { .. } => "iget-char",
            Instruction::IgetShort { .. } => "iget-short",
            Instruction::Iput { .. } => "iput",
            Instruction::IputWide { .. } => "iput-wide",
            Instruction::IputObject { .. } => "iput-object",
            Instruction::IputBoolean { .. } => "iput-boolean",
            Instruction::IputByte { .. } => "iput-byte",
            Instruction::IputChar { .. } => "iput-char",
            Instruction::IputShort { .. } => "iput-short",
            Instruction::Sget { .. } => "sget",
            Instruction::SgetWide { .. } => "sget-wide",
            Instruction::SgetObject { .. } => "sget-object",
            Instruction::SgetBoolean { .. } => "sget-boolean",
            Instruction::SgetByte { .. } => "sget-byte",
            Instruction::SgetChar { .. } => "sget-char",
            Instruction::SgetShort { .. } => "sget-short",
            Instruction::Sput { .. } => "sput",
            Instruction::SputWide { .. } => "sput-wide",
            Instruction::SputObject { .. } => "sput-object",
            Instruction::SputBoolean { .. } => "sput-boolean",
            Instruction::SputByte { .. } => "sput-byte",
            Instruction::SputChar { .. } => "sput-char",
            Instruction::SputShort { .. } => "sput-short",
            Instruction::InvokeVirtual { .. } => "invoke-virtual",
            Instruction::InvokeSuper { .. } => "invoke-super",
            Instruction::InvokeDirect { .. } => "invoke-direct",
            Instruction::InvokeStatic { .. } => "invoke-static",
            Instruction::InvokeInterface { .. } => "invoke-interface",
            Instruction::InvokeVirtualRange { .. } => "invoke-virtual/range",
            Instruction::InvokeSuperRange { .. } => "invoke-super/range",
            Instruction::InvokeDirectRange { .. } => "invoke-direct/range",
            Instruction::InvokeStaticRange { .. } => "invoke-static/range",
            Instruction::InvokeInterfaceRange { .. } => "invoke-interface/range",
            Instruction::NegInt { .. } => "neg-int",
            Instruction::NotInt { .. } => "not-int",
            Instruction::NegLong { .. } => "neg-long",
            Instruction::NotLong { .. } => "not-long",
            Instruction::NegFloat { .. } => "neg-float",
            Instruction::NegDouble { .. } => "neg-double",
            Instruction::IntToLong { .. } => "int-to-long",
            Instruction::IntToFloat { .. } => "int-to-float",
            Instruction::IntToDouble { .. } => "int-to-double",
            Instruction::LongToInt { .. } => "long-to-int",
            Instruction::LongToFloat { .. } => "long-to-float",
            Instruction::LongToDouble { .. } => "long-to-double",
            Instruction::FloatToInt { .. } => "float-to-int",
            Instruction::FloatToLong { .. } => "float-to-long",
            Instruction::FloatToDouble { .. } => "float-to-double",
            Instruction::DoubleToInt { .. } => "double-to-int",
            Instruction::DoubleToLong { .. } => "double-to-long",
            Instruction::DoubleToFloat { .. } => "double-to-float",
            Instruction::IntToByte { .. } => "int-to-byte",
            Instruction::IntToChar { .. } => "int-to-char",
            Instruction::IntToShort { .. } => "int-to-short",
            Instruction::AddInt { .. } => "add-int",
            Instruction::SubInt { .. } => "sub-int",
            Instruction::MulInt { .. } => "mul-int",
            Instruction::DivInt { .. } => "div-int",
            Instruction::RemInt { .. } => "rem-int",
            Instruction::AndInt { .. } => "and-int",
            Instruction::OrInt { .. } => "or-int",
            Instruction::XorInt { .. } => "xor-int",
            Instruction::ShlInt { .. } => "shl-int",
            Instruction::ShrInt { .. } => "shr-int",
            Instruction::UShrInt { .. } => "ushr-int",
            Instruction::AddLong { .. } => "add-long",
            Instruction::SubLong { .. } => "sub-long",
            Instruction::MulLong { .. } => "mul-long",
            Instruction::DivLong { .. } => "div-long",
            Instruction::RemLong { .. } => "rem-long",
            Instruction::AndLong { .. } => "and-long",
            Instruction::OrLong { .. } => "or-long",
            Instruction::XorLong { .. } => "xor-long",
            Instruction::ShlLong { .. } => "shl-long",
            Instruction::ShrLong { .. } => "shr-long",
            Instruction::UShrLong { .. } => "ushr-long",
            Instruction::AddFloat { .. } => "add-float",
            Instruction::SubFloat { .. } => "sub-float",
            Instruction::MulFloat { .. } => "mul-float",
            Instruction::DivFloat { .. } => "div-float",
            Instruction::RemFloat { .. } => "rem-float",
            Instruction::AddDouble { .. } => "add-double",
            Instruction::SubDouble { .. } => "sub-double",
            Instruction::MulDouble { .. } => "mul-double",
            Instruction::DivDouble { .. } => "div-double",
            Instruction::RemDouble { .. } => "rem-double",
            Instruction::AddInt2Addr { .. } => "add-int/2addr",
            Instruction::SubInt2Addr { .. } => "sub-int/2addr",
            Instruction::MulInt2Addr { .. } => "mul-int/2addr",
            Instruction::DivInt2Addr { .. } => "div-int/2addr",
            Instruction::RemInt2Addr { .. } => "rem-int/2addr",
            Instruction::AndInt2Addr { .. } => "and-int/2addr",
            Instruction::OrInt2Addr { .. } => "or-int/2addr",
            Instruction::XorInt2Addr { .. } => "xor-int/2addr",
            Instruction::ShlInt2Addr { .. } => "shl-int/2addr",
            Instruction::ShrInt2Addr { .. } => "shr-int/2addr",
            Instruction::UShrInt2Addr { .. } => "ushr-int/2addr",
            Instruction::AddLong2Addr { .. } => "add-long/2addr",
            Instruction::SubLong2Addr { .. } => "sub-long/2addr",
            Instruction::MulLong2Addr { .. } => "mul-long/2addr",
            Instruction::DivLong2Addr { .. } => "div-long/2addr",
            Instruction::RemLong2Addr { .. } => "rem-long/2addr",
            Instruction::AndLong2Addr { .. } => "and-long/2addr",
            Instruction::OrLong2Addr { .. } => "or-long/2addr",
            Instruction::XorLong2Addr { .. } => "xor-long/2addr",
            Instruction::ShlLong2Addr { .. } => "shl-long/2addr",
            Instruction::ShrLong2Addr { .. } => "shr-long/2addr",
            Instruction::UShrLong2Addr { .. } => "ushr-long/2addr",
            Instruction::AddFloat2Addr { .. } => "add-float/2addr",
            Instruction::SubFloat2Addr { .. } => "sub-float/2addr",
            Instruction::MulFloat2Addr { .. } => "mul-float/2addr",
            Instruction::DivFloat2Addr { .. } => "div-float/2addr",
            Instruction::RemFloat2Addr { .. } => "rem-float/2addr",
            Instruction::AddDouble2Addr { .. } => "add-double/2addr",
            Instruction::SubDouble2Addr { .. } => "sub-double/2addr",
            Instruction::MulDouble2Addr { .. } => "mul-double/2addr",
            Instruction::DivDouble2Addr { .. } => "div-double/2addr",
            Instruction::RemDouble2Addr { .. } => "rem-double/2addr",
            Instruction::AddIntLit16 { .. } => "add-int/lit16",
            Instruction::RsubInt { .. } => "rsub-int",
            Instruction::MulIntLit16 { .. } => "mul-int/lit16",
            Instruction::DivIntLit16 { .. } => "div-int/lit16",
            Instruction::RemIntLit16 { .. } => "rem-int/lit16",
            Instruction::AndIntLit16 { .. } => "and-int/lit16",
            Instruction::OrIntLit16 { .. } => "or-int/lit16",
            Instruction::XorIntLit16 { .. } => "xor-int/lit16",
            Instruction::AddIntLit8 { .. } => "add-int/lit8",
            Instruction::RsubIntLit8 { .. } => "rsub-int/lit8",
            Instruction::MulIntLit8 { .. } => "mul-int/lit8",
            Instruction::DivIntLit8 { .. } => "div-int/lit8",
            Instruction::RemIntLit8 { .. } => "rem-int/lit8",
            Instruction::AndIntLit8 { .. } => "and-int/lit8",
            Instruction::OrIntLit8 { .. } => "or-int/lit8",
            Instruction::XorIntLit8 { .. } => "xor-int/lit8",
            Instruction::ShlIntLit8 { .. } => "shl-int/lit8",
            Instruction::ShrIntLit8 { .. } => "shr-int/lit8",
            Instruction::UShrIntLit8 { .. } => "ushr-int/lit8",
            Instruction::InvokePolymorphic { .. } => "invoke-polymorphic",
            Instruction::InvokePolymorphicRange { .. } => "invoke-polymorphic/range",
            Instruction::InvokeCustom { .. } => "invoke-custom",
            Instruction::InvokeCustomRange { .. } => "invoke-custom/range",
            Instruction::ConstMethodHandle { .. } => "const-method-handle",
            Instruction::ConstMethodType { .. } => "const-method-type",
        }
    }
}

} // verus!
