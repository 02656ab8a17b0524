use vstd::prelude::*;

use crate::dex::instruction::Instruction;
use crate::dex::labels::{id_in, Labels};
use crate::dex::Dex;
use crate::errors::{ConversionError, TableIdxError};
use crate::text::{
    decimal, decimal_digits, push_char, push_register, push_signed, push_text, push_unsigned,
    register, registers,
};

verus! {

/// The registers that an instruction names one by one: the first `count` of
/// its five register fields, and all five where `count` is more.
pub open spec fn listed_registers(args: Seq<u8>, count: nat) -> Seq<nat> {
    Seq::new(if count < 5 { count } else { 5 }, |i: int| args[i] as nat)
}

/// The registers of a run of `count` consecutive registers from `first` on.
pub open spec fn ranged_registers(first: nat, count: nat) -> Seq<nat> {
    Seq::new(count, |i: int| (first + i) as nat)
}

/// The reference to the label at the target of a branch: `:L` and the label
/// number of the byte offset `pc + 2 * offset`. Where that offset has no
/// label, the branch instruction at `pc` is reported.
pub open spec fn label_text(labels: Seq<usize>, pc: int, offset: int) -> Result<
    Seq<char>,
    ConversionError,
> {
    match id_in(labels, pc + 2 * offset) {
        Some(id) => Ok(seq![':', 'L'] + decimal_digits(id as nat)),
        None => Err(ConversionError::MissingLabel(pc as usize)),
    }
}

/// `front`, a space, and the label at the target of a branch.
pub open spec fn then_label(front: Seq<char>, labels: Seq<usize>, pc: int, offset: int) -> Result<
    Seq<char>,
    ConversionError,
> {
    match label_text(labels, pc, offset) {
        Ok(label) => Ok(front + seq![' '] + label),
        Err(e) => Err(e),
    }
}

/// `front`, a space, and the text of a pool reference; or the index error of
/// that reference.
pub open spec fn then_reference(
    front: Seq<char>,
    reference: Result<Seq<char>, TableIdxError>,
) -> Result<Seq<char>, ConversionError> {
    match reference {
        Ok(text) => Ok(front + seq![' '] + text),
        Err(e) => Err(ConversionError::TableIdxError(e)),
    }
}

/// The string at `idx` of the string pool as a string literal.
pub open spec fn quoted_string_at(dex: Dex, idx: int) -> Result<Seq<char>, TableIdxError> {
    match dex.string_at(idx) {
        Ok(text) => Ok(crate::text::quoted(text)),
        Err(e) => Err(e),
    }
}

/// `front`, a space, a method, a space, and a prototype. Both indices are
/// checked against their pools before either is rendered: the method's index
/// first, then the prototype's, then the indices inside the method, then
/// those inside the prototype.
pub open spec fn then_method_and_proto(
    front: Seq<char>,
    dex: Dex,
    method_idx: int,
    proto_idx: int,
) -> Result<Seq<char>, ConversionError> {
    if !(0 <= method_idx < dex.method_ids@.len()) {
        Err(ConversionError::TableIdxError(TableIdxError::MethodId(method_idx as usize)))
    } else if !(0 <= proto_idx < dex.proto_ids@.len()) {
        Err(ConversionError::TableIdxError(TableIdxError::ProtoId(proto_idx as usize)))
    } else {
        match dex.method_ids@[method_idx].spec_text(dex) {
            Err(e) => Err(ConversionError::TableIdxError(e)),
            Ok(method) => match dex.proto_ids@[proto_idx].spec_text(dex) {
                Err(e) => Err(ConversionError::TableIdxError(e)),
                Ok(proto) => Ok(front + seq![' '] + method + seq![' '] + proto),
            },
        }
    }
}

fn one_register(a: u32) -> (r: String)
    ensures
        r@ == register(a as nat),
{
    let mut out: String = String::new();
    push_register(&mut out, a);
    assert(out@ =~= register(a as nat));
    out
}

fn two_registers(a: u32, b: u32) -> (r: String)
    ensures
        r@ == register(a as nat) + seq![' '] + register(b as nat),
{
    let mut out: String = one_register(a);
    push_char(&mut out, ' ');
    push_register(&mut out, b);
    assert(out@ =~= register(a as nat) + seq![' '] + register(b as nat));
    out
}

fn three_registers(a: u32, b: u32, c: u32) -> (r: String)
    ensures
        r@ == register(a as nat) + seq![' '] + register(b as nat) + seq![' '] + register(c as nat),
{
    let mut out: String = two_registers(a, b);
    push_char(&mut out, ' ');
    push_register(&mut out, c);
    assert(out@ =~= register(a as nat) + seq![' '] + register(b as nat) + seq![' '] + register(
        c as nat,
    ));
    out
}

fn with_value(front: String, value: i64) -> (r: String)
    ensures
        r@ == front@ + seq![' '] + decimal(value as int),
{
    let mut out: String = front;
    push_char(&mut out, ' ');
    push_signed(&mut out, value);
    assert(out@ =~= front@ + seq![' '] + decimal(value as int));
    out
}

fn listed(args: &[u8; 5], count: u8) -> (r: String)
    ensures
        r@ == registers(listed_registers(args@, count as nat)),
{
    let n: usize = if count < 5 {
        count as usize
    } else {
        5
    };
    let ghost regs = listed_registers(args@, count as nat);
    let mut out: String = String::new();
    let mut i: usize = 0;
    while i < n
        invariant
            i <= n <= 5,
            n == regs.len(),
            regs == listed_registers(args@, count as nat),
            out@ == registers(regs.take(i as int)),
        decreases n - i,
    {
        proof {
            assert(regs.take(i as int + 1).drop_last() =~= regs.take(i as int));
            assert(regs.take(i as int + 1).last() == args@[i as int] as nat);
            assert(regs.take(i as int + 1).len() == i + 1);
            if i == 0 {
                assert(regs.take(1)[0] == args@[0] as nat);
            }
        }
        if i > 0 {
            push_char(&mut out, ' ');
        }
        push_register(&mut out, args[i] as u32);
        assert(out@ =~= registers(regs.take(i as int + 1)));
        i += 1;
    }
    assert(regs.take(n as int) =~= regs);
    out
}

fn ranged(first: u16, count: u8) -> (r: String)
    ensures
        r@ == registers(ranged_registers(first as nat, count as nat)),
{
    let n: u32 = count as u32;
    let ghost regs = ranged_registers(first as nat, count as nat);
    let mut out: String = String::new();
    let mut i: u32 = 0;
    while i < n
        invariant
            i <= n <= 255,
            n == regs.len(),
            regs == ranged_registers(first as nat, count as nat),
            out@ == registers(regs.take(i as int)),
        decreases n - i,
    {
        proof {
            assert(regs.take(i as int + 1).drop_last() =~= regs.take(i as int));
            assert(regs.take(i as int + 1).last() == (first + i) as nat);
            assert(regs.take(i as int + 1).len() == i + 1);
            if i == 0 {
                assert(regs.take(1)[0] == first as nat);
            }
        }
        if i > 0 {
            push_char(&mut out, ' ');
        }
        push_register(&mut out, first as u32 + i);
        assert(out@ =~= registers(regs.take(i as int + 1)));
        i += 1;
    }
    assert(regs.take(n as int) =~= regs);
    out
}

fn label_reference(labels: &Labels, pc_bytes: usize, offset: i32) -> (r: Result<
    String,
    ConversionError,
>)
    requires
        labels.wf(),
    ensures
        match label_text(labels@, pc_bytes as int, offset as int) {
            Ok(text) => r matches Ok(s) && s@ == text,
            Err(e) => r == Err::<String, ConversionError>(e),
        },
{
    let target: i128 = pc_bytes as i128 + 2 * (offset as i128);
    if target < 0 || target > usize::MAX as i128 {
        assert(!labels.contains(target as int));
        return Err(ConversionError::MissingLabel(pc_bytes));
    }
    match labels.get(target as usize) {
        Some(id) => {
            let mut out: String = String::from_str(":L");
            push_unsigned(&mut out, id as u64);
            proof {
                reveal_strlit(":L");
                assert(":L"@ =~= seq![':', 'L']);
            }
            Ok(out)
        },
        None => Err(ConversionError::MissingLabel(pc_bytes)),
    }
}

fn with_label(front: String, labels: &Labels, pc_bytes: usize, offset: i32) -> (r: Result<
    String,
    ConversionError,
>)
    requires
        labels.wf(),
    ensures
        match then_label(front@, labels@, pc_bytes as int, offset as int) {
            Ok(text) => r matches Ok(s) && s@ == text,
            Err(e) => r == Err::<String, ConversionError>(e),
        },
{
    let label: String = match label_reference(labels, pc_bytes, offset) {
        Ok(s) => s,
        Err(e) => {
            return Err(e);
        },
    };
    let mut out: String = front;
    push_char(&mut out, ' ');
    push_text(&mut out, label.as_str());
    assert(out@ =~= front@ + seq![' '] + label@);
    Ok(out)
}

fn with_reference(front: String, reference: Result<String, TableIdxError>) -> (r: Result<
    String,
    ConversionError,
>)
    ensures
        match reference {
            Ok(text) => r matches Ok(s) && s@ == front@ + seq![' '] + text@,
            Err(e) => r == Err::<String, ConversionError>(ConversionError::TableIdxError(e)),
        },
{
    match reference {
        Ok(text) => {
            let mut out: String = front;
            push_char(&mut out, ' ');
            push_text(&mut out, text.as_str());
            assert(out@ =~= front@ + seq![' '] + text@);
            Ok(out)
        },
        Err(e) => Err(ConversionError::TableIdxError(e)),
    }
}

fn with_method_and_proto(front: String, dex: &Dex, method_idx: usize, proto_idx: usize) -> (r:
    Result<String, ConversionError>)
    ensures
        match then_method_and_proto(front@, *dex, method_idx as int, proto_idx as int) {
            Ok(text) => r matches Ok(s) && s@ == text,
            Err(e) => r == Err::<String, ConversionError>(e),
        },
{
    if method_idx >= dex.method_ids.len() {
        return Err(ConversionError::TableIdxError(TableIdxError::MethodId(method_idx)));
    }
    if proto_idx >= dex.proto_ids.len() {
        return Err(ConversionError::TableIdxError(TableIdxError::ProtoId(proto_idx)));
    }
    let method: String = match dex.method_ids[method_idx].to_human_readable(dex) {
        Ok(s) => s,
        Err(e) => {
            return Err(ConversionError::TableIdxError(e));
        },
    };
    let proto: String = match dex.proto_ids[proto_idx].to_human_readable(dex) {
        Ok(s) => s,
        Err(e) => {
            return Err(ConversionError::TableIdxError(e));
        },
    };
    let mut out: String = front;
    push_char(&mut out, ' ');
    push_text(&mut out, method.as_str());
    push_char(&mut out, ' ');
    push_text(&mut out, proto.as_str());
    assert(out@ =~= front@ + seq![' '] + method@ + seq![' '] + proto@);
    Ok(out)
}

impl Instruction {
    /// The operands of this instruction as text, for an instruction that
    /// starts at byte `pc` of a method with the labelled targets `labels`:
    /// registers as `v` and a number, literals in decimal, pool references
    /// resolved through `dex`, branch targets as `:L` and the number of
    /// their label. Operands are separated
    /// by single spaces. Fails on the first pool index that lies outside its
    /// pool, and on a branch target without a label.
    pub open spec fn spec_operands(self, dex: Dex, pc: int, labels: Seq<usize>) -> Result<
        Seq<char>,
        ConversionError,
    > {
        match self {
            Instruction::Nop
            | Instruction::ReturnVoid => Ok(Seq::empty()),
            Instruction::Move { dst, src }
            | Instruction::MoveWide { dst, src }
            | Instruction::MoveObject { dst, src }
            | Instruction::ArrayLength { dst, array: src }
            | Instruction::NegInt { dst, src }
            | Instruction::NotInt { dst, src }
            | Instruction::NegLong { dst, src }
            | Instruction::NotLong { dst, src }
            | Instruction::NegFloat { dst, src }
            | Instruction::NegDouble { dst, src }
            | Instruction::IntToLong { dst, src }
            | Instruction::IntToFloat { dst, src }
            | Instruction::IntToDouble { dst, src }
            | Instruction::LongToInt { dst, src }
            | Instruction::LongToFloat { dst, src }
            | Instruction::LongToDouble { dst, src }
            | Instruction::FloatToInt { dst, src }
            | Instruction::FloatToLong { dst, src }
            | Instruction::FloatToDouble { dst, src }
            | Instruction::DoubleToInt { dst, src }
            | Instruction::DoubleToLong { dst, src }
            | Instruction::DoubleToFloat { dst, src }
            | Instruction::IntToByte { dst, src }
            | Instruction::IntToChar { dst, src }
            | Instruction::IntToShort { dst, src }
            | Instruction::AddInt2Addr { dst, src }
            | Instruction::SubInt2Addr { dst, src }
            | Instruction::MulInt2Addr { dst, src }
            | Instruction::DivInt2Addr { dst, src }
            | Instruction::RemInt2Addr { dst, src }
            | Instruction::AndInt2Addr { dst, src }
            | Instruction::OrInt2Addr { dst, src }
            | Instruction::XorInt2Addr { dst, src }
            | Instruction::ShlInt2Addr { dst, src }
            | Instruction::ShrInt2Addr { dst, src }
            | Instruction::UShrInt2Addr { dst, src }
            | Instruction::AddLong2Addr { dst, src }
            | Instruction::SubLong2Addr { dst, src }
            | Instruction::MulLong2Addr { dst, src }
            | Instruction::DivLong2Addr { dst, src }
            | Instruction::RemLong2Addr { dst, src }
            | Instruction::AndLong2Addr { dst, src }
            | Instruction::OrLong2Addr { dst, src }
            | Instruction::XorLong2Addr { dst, src }
            | Instruction::ShlLong2Addr { dst, src }
            | Instruction::ShrLong2Addr { dst, src }
            | Instruction::UShrLong2Addr { dst, src }
            | Instruction::AddFloat2Addr { dst, src }
            | Instruction::SubFloat2Addr { dst, src }
            | Instruction::MulFloat2Addr { dst, src }
            | Instruction::DivFloat2Addr { dst, src }
            | Instruction::RemFloat2Addr { dst, src }
            | Instruction::AddDouble2Addr { dst, src }
            | Instruction::SubDouble2Addr { dst, src }
            | Instruction::MulDouble2Addr { dst, src }
            | Instruction::DivDouble2Addr { dst, src }
            | Instruction::RemDouble2Addr { dst, src } => {
                Ok(register(dst as nat) + seq![' '] + register(src as nat))
            },
            Instruction::MoveFrom16 { dst, src }
            | Instruction::MoveWideFrom16 { dst, src }
            | Instruction::MoveObjectFrom16 { dst, src } => {
                Ok(register(dst as nat) + seq![' '] + register(src as nat))
            },
            Instruction::Move16 { dst, src }
            | Instruction::MoveWide16 { dst, src }
            | Instruction::MoveObject16 { dst, src } => {
                Ok(register(dst as nat) + seq![' '] + register(src as nat))
            },
            Instruction::MoveResult { dst: reg }
            | Instruction::MoveResultWide { dst: reg }
            | Instruction::MoveResultObject { dst: reg }
            | Instruction::MoveException { dst: reg }
            | Instruction::Return { value: reg }
            | Instruction::ReturnWide { value: reg }
            | Instruction::ReturnObject { value: reg }
            | Instruction::MonitorEnter { reference: reg }
            | Instruction::MonitorExit { reference: reg }
            | Instruction::Throw { exception: reg } => Ok(register(reg as nat)),
            Instruction::Const4 { dst, value } => {
                Ok(register(dst as nat) + seq![' '] + decimal(value as int))
            },
            Instruction::Const16 { dst, value }
            | Instruction::ConstHigh16 { dst, value }
            | Instruction::ConstWide16 { dst, value }
            | Instruction::ConstWideHigh16 { dst, value } => {
                Ok(register(dst as nat) + seq![' '] + decimal(value as int))
            },
            Instruction::Const { dst, value }
            | Instruction::ConstWide32 { dst, value } => {
                Ok(register(dst as nat) + seq![' '] + decimal(value as int))
            },
            Instruction::ConstWide { dst, value } => {
                Ok(register(dst as nat) + seq![' '] + decimal(value as int))
            },
            Instruction::ConstString { dst: reg, string_idx: index } => {
                then_reference(register(reg as nat), quoted_string_at(dex, index as int))
            },
            Instruction::ConstStringJumbo { dst: reg, string_idx: index } => {
                then_reference(register(reg as nat), quoted_string_at(dex, index as int))
            },
            Instruction::ConstClass { dst: reg, type_idx: index }
            | Instruction::CheckCast { reference: reg, type_idx: index }
            | Instruction::NewInstance { dst: reg, type_idx: index } => {
                then_reference(register(reg as nat), dex.type_at(index as int))
            },
            Instruction::InstanceOf { dst: a, reference: b, type_idx: index }
            | Instruction::NewArray { dst: a, size: b, type_idx: index } => {
                then_reference(
                    register(a as nat) + seq![' '] + register(b as nat),
                    dex.type_at(index as int),
                )
            },
            Instruction::FilledNewArray { type_idx: index, args, arg_cnt } => {
                then_reference(
                    registers(listed_registers(args@, arg_cnt as nat)),
                    dex.type_at(index as int),
                )
            },
            Instruction::FilledNewArrayRange { type_idx: index, first_arg, arg_cnt } => {
                then_reference(
                    registers(ranged_registers(first_arg as nat, arg_cnt as nat)),
                    dex.type_at(index as int),
                )
            },
            Instruction::FillArrayData { array: a, offset }
            | Instruction::PackedSwitch { value: a, offset }
            | Instruction::SparseSwitch { value: a, offset } => {
                then_label(register(a as nat), labels, pc, offset as int)
            },
            Instruction::Goto { offset } => label_text(labels, pc, offset as int),
            Instruction::Goto16 { offset } => label_text(labels, pc, offset as int),
            Instruction::Goto32 { offset } => label_text(labels, pc, offset as int),
            Instruction::CmplFloat { dst: a, src_a: b, src_b: c }
            | Instruction::CmpgFloat { dst: a, src_a: b, src_b: c }
            | Instruction::CmplDouble { dst: a, src_a: b, src_b: c }
            | Instruction::CmpgDouble { dst: a, src_a: b, src_b: c }
            | Instruction::CmpLong { dst: a, src_a: b, src_b: c }
            | Instruction::Aget { src: a, array: b, index: c }
            | Instruction::AgetWide { src: a, array: b, index: c }
            | Instruction::AgetObject { src: a, array: b, index: c }
            | Instruction::AgetBoolean { src: a, array: b, index: c }
            | Instruction::AgetByte { src: a, array: b, index: c }
            | Instruction::AgetChar { src: a, array: b, index: c }
            | Instruction::AgetShort { src: a, array: b, index: c }
            | Instruction::Aput { dst: a, array: b, index: c }
            | Instruction::AputWide { dst: a, array: b, index: c }
            | Instruction::AputObject { dst: a, array: b, index: c }
            | Instruction::AputBoolean { dst: a, array: b, index: c }
            | Instruction::AputByte { dst: a, array: b, index: c }
            | Instruction::AputChar { dst: a, array: b, index: c }
            | Instruction::AputShort { dst: a, array: b, index: c }
            | Instruction::AddInt { dst: a, src_a: b, src_b: c }
            | Instruction::SubInt { dst: a, src_a: b, src_b: c }
            | Instruction::MulInt { dst: a, src_a: b, src_b: c }
            | Instruction::DivInt { dst: a, src_a: b, src_b: c }
            | Instruction::RemInt { dst: a, src_a: b, src_b: c }
            | Instruction::AndInt { dst: a, src_a: b, src_b: c }
            | Instruction::OrInt { dst: a, src_a: b, src_b: c }
            | Instruction::XorInt { dst: a, src_a: b, src_b: c }
            | Instruction::ShlInt { dst: a, src_a: b, src_b: c }
            | Instruction::ShrInt { dst: a, src_a: b, src_b: c }
            | Instruction::UShrInt { dst: a, src_a: b, src_b: c }
            | Instruction::AddLong { dst: a, src_a: b, src_b: c }
            | Instruction::SubLong { dst: a, src_a: b, src_b: c }
            | Instruction::MulLong { dst: a, src_a: b, src_b: c }
            | Instruction::DivLong { dst: a, src_a: b, src_b: c }
            | Instruction::RemLong { dst: a, src_a: b, src_b: c }
            | Instruction::AndLong { dst: a, src_a: b, src_b: c }
            | Instruction::OrLong { dst: a, src_a: b, src_b: c }
            | Instruction::XorLong { dst: a, src_a: b, src_b: c }
            | Instruction::ShlLong { dst: a, src_a: b, src_b: c }
            | Instruction::ShrLong { dst: a, src_a: b, src_b: c }
            | Instruction::UShrLong { dst: a, src_a: b, src_b: c }
            | Instruction::AddFloat { dst: a, src_a: b, src_b: c }
            | Instruction::SubFloat { dst: a, src_a: b, src_b: c }
            | Instruction::MulFloat { dst: a, src_a: b, src_b: c }
            | Instruction::DivFloat { dst: a, src_a: b, src_b: c }
            | Instruction::RemFloat { dst: a, src_a: b, src_b: c }
            | Instruction::AddDouble { dst: a, src_a: b, src_b: c }
            | Instruction::SubDouble { dst: a, src_a: b, src_b: c }
            | Instruction::MulDouble { dst: a, src_a: b, src_b: c }
            | Instruction::DivDouble { dst: a, src_a: b, src_b: c }
            | Instruction::RemDouble { dst: a, src_a: b, src_b: c } => {
                Ok(
                    register(a as nat) + seq![' '] + register(b as nat) + seq![' ']
                        + register(c as nat),
                )
            },
            Instruction::IfEq { a, b, offset }
            | Instruction::IfNe { a, b, offset }
            | Instruction::IfLt { a, b, offset }
            | Instruction::IfGe { a, b, offset }
            | Instruction::IfGt { a, b, offset }
            | Instruction::IfLe { a, b, offset } => {
                then_label(
                    register(a as nat) + seq![' '] + register(b as nat),
                    labels,
                    pc,
                    offset as int,
                )
            },
            Instruction::IfEqz { a, offset }
            | Instruction::IfNez { a, offset }
            | Instruction::IfLtz { a, offset }
            | Instruction::IfGez { a, offset }
            | Instruction::IfGtz { a, offset }
            | Instruction::IfLez { a, offset } => {
                then_label(register(a as nat), labels, pc, offset as int)
            },
            Instruction::Iget { src: a, object: b, field_idx: index }
            | Instruction::IgetWide { src: a, object: b, field_idx: index }
            | Instruction::IgetObject { src: a, object: b, field_idx: index }
            | Instruction::IgetBoolean { src: a, object: b, field_idx: index }
            | Instruction::IgetByte { src: a, object: b, field_idx: index }
            | Instruction::IgetChar { src: a, object: b, field_idx: index }
            | Instruction::IgetShort { src: a, object: b, field_idx: index }
            | Instruction::Iput { dst: a, object: b, field_idx: index }
            | Instruction::IputWide { dst: a, object: b, field_idx: index }
            | Instruction::IputObject { dst: a, object: b, field_idx: index }
            | Instruction::IputBoolean { dst: a, object: b, field_idx: index }
            | Instruction::IputByte { dst: a, object: b, field_idx: index }
            | Instruction::IputChar { dst: a, object: b, field_idx: index }
            | Instruction::IputShort { dst: a, object: b, field_idx: index } => {
                then_reference(
                    register(a as nat) + seq![' '] + register(b as nat),
                    dex.field_text(index as int),
                )
            },
            Instruction::Sget { src: reg, field_idx: index }
            | Instruction::SgetWide { src: reg, field_idx: index }
            | Instruction::SgetObject { src: reg, field_idx: index }
            | Instruction::SgetBoolean { src: reg, field_idx: index }
            | Instruction::SgetByte { src: reg, field_idx: index }
            | Instruction::SgetChar { src: reg, field_idx: index }
            | Instruction::SgetShort { src: reg, field_idx: index }
            | Instruction::Sput { dst: reg, field_idx: index }
            | Instruction::SputWide { dst: reg, field_idx: index }
            | Instruction::SputObject { dst: reg, field_idx: index }
            | Instruction::SputBoolean { dst: reg, field_idx: index }
            | Instruction::SputByte { dst: reg, field_idx: index }
            | Instruction::SputChar { dst: reg, field_idx: index }
            | Instruction::SputShort { dst: reg, field_idx: index } => {
                then_reference(register(reg as nat), dex.field_text(index as int))
            },
            Instruction::InvokeVirtual { method_idx: index, args, arg_cnt }
            | Instruction::InvokeSuper { method_idx: index, args, arg_cnt }
            | Instruction::InvokeDirect { method_idx: index, args, arg_cnt }
            | Instruction::InvokeStatic { method_idx: index, args, arg_cnt }
            | Instruction::InvokeInterface { method_idx: index, args, arg_cnt } => {
                then_reference(
                    registers(listed_registers(args@, arg_cnt as nat)),
                    dex.method_text(index as int),
                )
            },
            Instruction::InvokeVirtualRange { method_idx: index, first_arg, arg_cnt }
            | Instruction::InvokeSuperRange { method_idx: index, first_arg, arg_cnt }
            | Instruction::InvokeDirectRange { method_idx: index, first_arg, arg_cnt }
            | Instruction::InvokeStaticRange { method_idx: index, first_arg, arg_cnt }
            | Instruction::InvokeInterfaceRange { method_idx: index, first_arg, arg_cnt } => {
                then_reference(
                    registers(ranged_registers(first_arg as nat, arg_cnt as nat)),
                    dex.method_text(index as int),
                )
            },
            Instruction::AddIntLit16 { dst, src, value }
            | Instruction::RsubInt { dst, src, value }
            | Instruction::MulIntLit16 { dst, src, value }
            | Instruction::DivIntLit16 { dst, src, value }
            | Instruction::RemIntLit16 { dst, src, value }
            | Instruction::AndIntLit16 { dst, src, value }
            | Instruction::OrIntLit16 { dst, src, value }
            | Instruction::XorIntLit16 { dst, src, value } => {
                Ok(
                    register(dst as nat) + seq![' '] + register(src as nat) + seq![' ']
                        + decimal(value as int),
                )
            },
            Instruction::AddIntLit8 { dst, src, value }
            | Instruction::RsubIntLit8 { dst, src, value }
            | Instruction::MulIntLit8 { dst, src, value }
            | Instruction::DivIntLit8 { dst, src, value }
            | Instruction::RemIntLit8 { dst, src, value }
            | Instruction::AndIntLit8 { dst, src, value }
            | Instruction::OrIntLit8 { dst, src, value }
            | Instruction::XorIntLit8 { dst, src, value }
            | Instruction::ShlIntLit8 { dst, src, value }
            | Instruction::ShrIntLit8 { dst, src, value }
            | Instruction::UShrIntLit8 { dst, src, value } => {
                Ok(
                    register(dst as nat) + seq![' '] + register(src as nat) + seq![' ']
                        + decimal(value as int),
                )
            },
            Instruction::InvokePolymorphic { method_idx, proto_idx, args, arg_cnt } => {
                then_method_and_proto(
                    registers(listed_registers(args@, arg_cnt as nat)),
                    dex,
                    method_idx as int,
                    proto_idx as int,
                )
            },
            Instruction::InvokePolymorphicRange { method_idx, proto_idx, first_arg, arg_cnt } => {
                then_method_and_proto(
                    registers(ranged_registers(first_arg as nat, arg_cnt as nat)),
                    dex,
                    method_idx as int,
                    proto_idx as int,
                )
            },
            Instruction::InvokeCustom { call_site_idx: index, args, arg_cnt } => {
                then_reference(
                    registers(listed_registers(args@, arg_cnt as nat)),
                    dex.call_site_text(index as int),
                )
            },
            Instruction::InvokeCustomRange { call_site_idx: index, first_arg, arg_cnt } => {
                then_reference(
                    registers(ranged_registers(first_arg as nat, arg_cnt as nat)),
                    dex.call_site_text(index as int),
                )
            },
            Instruction::ConstMethodHandle { dst: reg, method_handle_idx: index } => {
                then_reference(register(reg as nat), dex.method_handle_text(index as int))
            },
            Instruction::ConstMethodType { dst: reg, proto_idx: index } => {
                then_reference(register(reg as nat), dex.proto_text(index as int))
            },
        }
    }

    /// This instruction as a line of text: its mnemonic, a space, and its
    /// operands.
    pub open spec fn spec_text(self, dex: Dex, pc: int, labels: Seq<usize>) -> Result<
        Seq<char>,
        ConversionError,
    > {
        match self.spec_operands(dex, pc, labels) {
            Ok(operands) => Ok(self.mnemonic() + seq![' '] + operands),
            Err(e) => Err(e),
        }
    }

    /// The operands of this instruction as text.
    fn operands_to_human_readable(&self, dex: &Dex, pc_bytes: usize, labels: &Labels) -> (r: Result<
        String,
        ConversionError,
    >)
        requires
            labels.wf(),
        ensures
            match self.spec_operands(*dex, pc_bytes as int, labels@) {
                Ok(text) => r matches Ok(s) && s@ == text,
                Err(e) => r == Err::<String, ConversionError>(e),
            },
    {
        let operands: String = match self {
            Instruction::Nop
            | Instruction::ReturnVoid => String::new(),
            Instruction::Move { dst, src }
            | Instruction::MoveWide { dst, src }
            | Instruction::MoveObject { dst, src }
            | Instruction::ArrayLength { dst, array: src }
            | Instruction::NegInt { dst, src }
            | Instruction::NotInt { dst, src }
            | Instruction::NegLong { dst, src }
            | Instruction::NotLong { dst, src }
            | Instruction::NegFloat { dst, src }
            | Instruction::NegDouble { dst, src }
            | Instruction::IntToLong { dst, src }
            | Instruction::IntToFloat { dst, src }
            | Instruction::IntToDouble { dst, src }
            | Instruction::LongToInt { dst, src }
            | Instruction::LongToFloat { dst, src }
            | Instruction::LongToDouble { dst, src }
            | Instruction::FloatToInt { dst, src }
            | Instruction::FloatToLong { dst, src }
            | Instruction::FloatToDouble { dst, src }
            | Instruction::DoubleToInt { dst, src }
            | Instruction::DoubleToLong { dst, src }
            | Instruction::DoubleToFloat { dst, src }
            | Instruction::IntToByte { dst, src }
            | Instruction::IntToChar { dst, src }
            | Instruction::IntToShort { dst, src }
            | Instruction::AddInt2Addr { dst, src }
            | Instruction::SubInt2Addr { dst, src }
            | Instruction::MulInt2Addr { dst, src }
            | Instruction::DivInt2Addr { dst, src }
            | Instruction::RemInt2Addr { dst, src }
            | Instruction::AndInt2Addr { dst, src }
            | Instruction::OrInt2Addr { dst, src }
            | Instruction::XorInt2Addr { dst, src }
            | Instruction::ShlInt2Addr { dst, src }
            | Instruction::ShrInt2Addr { dst, src }
            | Instruction::UShrInt2Addr { dst, src }
            | Instruction::AddLong2Addr { dst, src }
            | Instruction::SubLong2Addr { dst, src }
            | Instruction::MulLong2Addr { dst, src }
            | Instruction::DivLong2Addr { dst, src }
            | Instruction::RemLong2Addr { dst, src }
            | Instruction::AndLong2Addr { dst, src }
            | Instruction::OrLong2Addr { dst, src }
            | Instruction::XorLong2Addr { dst, src }
            | Instruction::ShlLong2Addr { dst, src }
            | Instruction::ShrLong2Addr { dst, src }
            | Instruction::UShrLong2Addr { dst, src }
            | Instruction::AddFloat2Addr { dst, src }
            | Instruction::SubFloat2Addr { dst, src }
            | Instruction::MulFloat2Addr { dst, src }
            | Instruction::DivFloat2Addr { dst, src }
            | Instruction::RemFloat2Addr { dst, src }
            | Instruction::AddDouble2Addr { dst, src }
            | Instruction::SubDouble2Addr { dst, src }
            | Instruction::MulDouble2Addr { dst, src }
            | Instruction::DivDouble2Addr { dst, src }
            | Instruction::RemDouble2Addr { dst, src } => {
                two_registers(*dst as u32, *src as u32)
            },
            Instruction::MoveFrom16 { dst, src }
            | Instruction::MoveWideFrom16 { dst, src }
            | Instruction::MoveObjectFrom16 { dst, src } => {
                two_registers(*dst as u32, *src as u32)
            },
            Instruction::Move16 { dst, src }
            | Instruction::MoveWide16 { dst, src }
            | Instruction::MoveObject16 { dst, src } => {
                two_registers(*dst as u32, *src as u32)
            },
            Instruction::MoveResult { dst: reg }
            | Instruction::MoveResultWide { dst: reg }
            | Instruction::MoveResultObject { dst: reg }
            | Instruction::MoveException { dst: reg }
            | Instruction::Return { value: reg }
            | Instruction::ReturnWide { value: reg }
            | Instruction::ReturnObject { value: reg }
            | Instruction::MonitorEnter { reference: reg }
            | Instruction::MonitorExit { reference: reg }
            | Instruction::Throw { exception: reg } => one_register(*reg as u32),
            Instruction::Const4 { dst, value } => {
                with_value(one_register(*dst as u32), *value as i64)
            },
            Instruction::Const16 { dst, value }
            | Instruction::ConstHigh16 { dst, value }
            | Instruction::ConstWide16 { dst, value }
            | Instruction::ConstWideHigh16 { dst, value } => {
                with_value(one_register(*dst as u32), *value as i64)
            },
            Instruction::Const { dst, value }
            | Instruction::ConstWide32 { dst, value } => {
                with_value(one_register(*dst as u32), *value as i64)
            },
            Instruction::ConstWide { dst, value } => {
                with_value(one_register(*dst as u32), *value as i64)
            },
            Instruction::ConstString { dst: reg, string_idx: index } => {
                with_reference(one_register(*reg as u32), dex.quoted_string(*index as usize))?
            },
            Instruction::ConstStringJumbo { dst: reg, string_idx: index } => {
                with_reference(one_register(*reg as u32), dex.quoted_string(*index as usize))?
            },
            Instruction::ConstClass { dst: reg, type_idx: index }
            | Instruction::CheckCast { reference: reg, type_idx: index }
            | Instruction::NewInstance { dst: reg, type_idx: index } => {
                with_reference(one_register(*reg as u32), dex.type_to_string(*index as usize))?
            },
            Instruction::InstanceOf { dst: a, reference: b, type_idx: index }
            | Instruction::NewArray { dst: a, size: b, type_idx: index } => {
                with_reference(
                    two_registers(*a as u32, *b as u32),
                    dex.type_to_string(*index as usize),
                )?
            },
            Instruction::FilledNewArray { type_idx: index, args, arg_cnt } => {
                with_reference(listed(args, *arg_cnt), dex.type_to_string(*index as usize))?
            },
            Instruction::FilledNewArrayRange { type_idx: index, first_arg, arg_cnt } => {
                with_reference(ranged(*first_arg, *arg_cnt), dex.type_to_string(*index as usize))?
            },
            Instruction::FillArrayData { array: a, offset }
            | Instruction::PackedSwitch { value: a, offset }
            | Instruction::SparseSwitch { value: a, offset } => {
                with_label(one_register(*a as u32), labels, pc_bytes, *offset as i32)?
            },
            Instruction::Goto { offset } => label_reference(labels, pc_bytes, *offset as i32)?,
            Instruction::Goto16 { offset } => label_reference(labels, pc_bytes, *offset as i32)?,
            Instruction::Goto32 { offset } => label_reference(labels, pc_bytes, *offset as i32)?,
            Instruction::CmplFloat { dst: a, src_a: b, src_b: c }
            | Instruction::CmpgFloat { dst: a, src_a: b, src_b: c }
            | Instruction::CmplDouble { dst: a, src_a: b, src_b: c }
            | Instruction::CmpgDouble { dst: a, src_a: b, src_b: c }
            | Instruction::CmpLong { dst: a, src_a: b, src_b: c }
            | Instruction::Aget { src: a, array: b, index: c }
            | Instruction::AgetWide { src: a, array: b, index: c }
            | Instruction::AgetObject { src: a, array: b, index: c }
            | Instruction::AgetBoolean { src: a, array: b, index: c }
            | Instruction::AgetByte { src: a, array: b, index: c }
            | Instruction::AgetChar { src: a, array: b, index: c }
            | Instruction::AgetShort { src: a, array: b, index: c }
            | Instruction::Aput { dst: a, array: b, index: c }
            | Instruction::AputWide { dst: a, array: b, index: c }
            | Instruction::AputObject { dst: a, array: b, index: c }
            | Instruction::AputBoolean { dst: a, array: b, index: c }
            | Instruction::AputByte { dst: a, array: b, index: c }
            | Instruction::AputChar { dst: a, array: b, index: c }
            | Instruction::AputShort { dst: a, array: b, index: c }
            | Instruction::AddInt { dst: a, src_a: b, src_b: c }
            | Instruction::SubInt { dst: a, src_a: b, src_b: c }
            | Instruction::MulInt { dst: a, src_a: b, src_b: c }
            | Instruction::DivInt { dst: a, src_a: b, src_b: c }
            | Instruction::RemInt { dst: a, src_a: b, src_b: c }
            | Instruction::AndInt { dst: a, src_a: b, src_b: c }
            | Instruction::OrInt { dst: a, src_a: b, src_b: c }
            | Instruction::XorInt { dst: a, src_a: b, src_b: c }
            | Instruction::ShlInt { dst: a, src_a: b, src_b: c }
            | Instruction::ShrInt { dst: a, src_a: b, src_b: c }
            | Instruction::UShrInt { dst: a, src_a: b, src_b: c }
            | Instruction::AddLong { dst: a, src_a: b, src_b: c }
            | Instruction::SubLong { dst: a, src_a: b, src_b: c }
            | Instruction::MulLong { dst: a, src_a: b, src_b: c }
            | Instruction::DivLong { dst: a, src_a: b, src_b: c }
            | Instruction::RemLong { dst: a, src_a: b, src_b: c }
            | Instruction::AndLong { dst: a, src_a: b, src_b: c }
            | Instruction::OrLong { dst: a, src_a: b, src_b: c }
            | Instruction::XorLong { dst: a, src_a: b, src_b: c }
            | Instruction::ShlLong { dst: a, src_a: b, src_b: c }
            | Instruction::ShrLong { dst: a, src_a: b, src_b: c }
            | Instruction::UShrLong { dst: a, src_a: b, src_b: c }
            | Instruction::AddFloat { dst: a, src_a: b, src_b: c }
            | Instruction::SubFloat { dst: a, src_a: b, src_b: c }
            | Instruction::MulFloat { dst: a, src_a: b, src_b: c }
            | Instruction::DivFloat { dst: a, src_a: b, src_b: c }
            | Instruction::RemFloat { dst: a, src_a: b, src_b: c }
            | Instruction::AddDouble { dst: a, src_a: b, src_b: c }
            | Instruction::SubDouble { dst: a, src_a: b, src_b: c }
            | Instruction::MulDouble { dst: a, src_a: b, src_b: c }
            | Instruction::DivDouble { dst: a, src_a: b, src_b: c }
            | Instruction::RemDouble { dst: a, src_a: b, src_b: c } => {
                three_registers(*a as u32, *b as u32, *c as u32)
            },
            Instruction::IfEq { a, b, offset }
            | Instruction::IfNe { a, b, offset }
            | Instruction::IfLt { a, b, offset }
            | Instruction::IfGe { a, b, offset }
            | Instruction::IfGt { a, b, offset }
            | Instruction::IfLe { a, b, offset } => {
                with_label(two_registers(*a as u32, *b as u32), labels, pc_bytes, *offset as i32)?
            },
            Instruction::IfEqz { a, offset }
            | Instruction::IfNez { a, offset }
            | Instruction::IfLtz { a, offset }
            | Instruction::IfGez { a, offset }
            | Instruction::IfGtz { a, offset }
            | Instruction::IfLez { a, offset } => {
                with_label(one_register(*a as u32), labels, pc_bytes, *offset as i32)?
            },
            Instruction::Iget { src: a, object: b, field_idx: index }
            | Instruction::IgetWide { src: a, object: b, field_idx: index }
            | Instruction::IgetObject { src: a, object: b, field_idx: index }
            | Instruction::IgetBoolean { src: a, object: b, field_idx: index }
            | Instruction::IgetByte { src: a, object: b, field_idx: index }
            | Instruction::IgetChar { src: a, object: b, field_idx: index }
            | Instruction::IgetShort { src: a, object: b, field_idx: index }
            | Instruction::Iput { dst: a, object: b, field_idx: index }
            | Instruction::IputWide { dst: a, object: b, field_idx: index }
            | Instruction::IputObject { dst: a, object: b, field_idx: index }
            | Instruction::IputBoolean { dst: a, object: b, field_idx: index }
            | Instruction::IputByte { dst: a, object: b, field_idx: index }
            | Instruction::IputChar { dst: a, object: b, field_idx: index }
            | Instruction::IputShort { dst: a, object: b, field_idx: index } => {
                with_reference(
                    two_registers(*a as u32, *b as u32),
                    dex.field_to_human_readable(*index as usize),
                )?
            },
            Instruction::Sget { src: reg, field_idx: index }
            | Instruction::SgetWide { src: reg, field_idx: index }
            | Instruction::SgetObject { src: reg, field_idx: index }
            | Instruction::SgetBoolean { src: reg, field_idx: index }
            | Instruction::SgetByte { src: reg, field_idx: index }
            | Instruction::SgetChar { src: reg, field_idx: index }
            | Instruction::SgetShort { src: reg, field_idx: index }
            | Instruction::Sput { dst: reg, field_idx: index }
            | Instruction::SputWide { dst: reg, field_idx: index }
            | Instruction::SputObject { dst: reg, field_idx: index }
            | Instruction::SputBoolean { dst: reg, field_idx: index }
            | Instruction::SputByte { dst: reg, field_idx: index }
            | Instruction::SputChar { dst: reg, field_idx: index }
            | Instruction::SputShort { dst: reg, field_idx: index } => {
                with_reference(
                    one_register(*reg as u32),
                    dex.field_to_human_readable(*index as usize),
                )?
            },
            Instruction::InvokeVirtual { method_idx: index, args, arg_cnt }
            | Instruction::InvokeSuper { method_idx: index, args, arg_cnt }
            | Instruction::InvokeDirect { method_idx: index, args, arg_cnt }
            | Instruction::InvokeStatic { method_idx: index, args, arg_cnt }
            | Instruction::InvokeInterface { method_idx: index, args, arg_cnt } => {
                with_reference(
                    listed(args, *arg_cnt),
                    dex.method_to_human_readable(*index as usize),
                )?
            },
            Instruction::InvokeVirtualRange { method_idx: index, first_arg, arg_cnt }
            | Instruction::InvokeSuperRange { method_idx: index, first_arg, arg_cnt }
            | Instruction::InvokeDirectRange { method_idx: index, first_arg, arg_cnt }
            | Instruction::InvokeStaticRange { method_idx: index, first_arg, arg_cnt }
            | Instruction::InvokeInterfaceRange { method_idx: index, first_arg, arg_cnt } => {
                with_reference(
                    ranged(*first_arg, *arg_cnt),
                    dex.method_to_human_readable(*index as usize),
                )?
            },
            Instruction::AddIntLit16 { dst, src, value }
            | Instruction::RsubInt { dst, src, value }
            | Instruction::MulIntLit16 { dst, src, value }
            | Instruction::DivIntLit16 { dst, src, value }
            | Instruction::RemIntLit16 { dst, src, value }
            | Instruction::AndIntLit16 { dst, src, value }
            | Instruction::OrIntLit16 { dst, src, value }
            | Instruction::XorIntLit16 { dst, src, value } => {
                with_value(two_registers(*dst as u32, *src as u32), *value as i64)
            },
            Instruction::AddIntLit8 { dst, src, value }
            | Instruction::RsubIntLit8 { dst, src, value }
            | Instruction::MulIntLit8 { dst, src, value }
            | Instruction::DivIntLit8 { dst, src, value }
            | Instruction::RemIntLit8 { dst, src, value }
            | Instruction::AndIntLit8 { dst, src, value }
            | Instruction::OrIntLit8 { dst, src, value }
            | Instruction::XorIntLit8 { dst, src, value }
            | Instruction::ShlIntLit8 { dst, src, value }
            | Instruction::ShrIntLit8 { dst, src, value }
            | Instruction::UShrIntLit8 { dst, src, value } => {
                with_value(two_registers(*dst as u32, *src as u32), *value as i64)
            },
            Instruction::InvokePolymorphic { method_idx, proto_idx, args, arg_cnt } => {
                with_method_and_proto(
                    listed(args, *arg_cnt),
                    dex,
                    *method_idx as usize,
                    *proto_idx as usize,
                )?
            },
            Instruction::InvokePolymorphicRange { method_idx, proto_idx, first_arg, arg_cnt } => {
                with_method_and_proto(
                    ranged(*first_arg, *arg_cnt),
                    dex,
                    *method_idx as usize,
                    *proto_idx as usize,
                )?
            },
            Instruction::InvokeCustom { call_site_idx: index, args, arg_cnt } => {
                with_reference(
                    listed(args, *arg_cnt),
                    dex.call_site_to_human_readable(*index as usize),
                )?
            },
            Instruction::InvokeCustomRange { call_site_idx: index, first_arg, arg_cnt } => {
                with_reference(
                    ranged(*first_arg, *arg_cnt),
                    dex.call_site_to_human_readable(*index as usize),
                )?
            },
            Instruction::ConstMethodHandle { dst: reg, method_handle_idx: index } => {
                with_reference(
                    one_register(*reg as u32),
                    dex.method_handle_to_human_readable(*index as usize),
                )?
            },
            Instruction::ConstMethodType { dst: reg, proto_idx: index } => {
                with_reference(
                    one_register(*reg as u32),
                    dex.proto_to_human_readable(*index as usize),
                )?
            },
        };
        Ok(operands)
    }

    /// Renders this instruction, which starts at byte `pc_bytes` of its
    /// method, as a line of text: the mnemonic, a space, and the operands.
    pub fn to_human_readable(&self, dex: &Dex, pc_bytes: usize, labels: &Labels) -> (r: Result<
        String,
        ConversionError,
    >)
        requires
            labels.wf(),
        ensures
            match self.spec_text(*dex, pc_bytes as int, labels@) {
                Ok(text) => r matches Ok(s) && s@ == text,
                Err(e) => r == Err::<String, ConversionError>(e),
            },
    {
        let operands: String = match self.operands_to_human_readable(dex, pc_bytes, labels) {
            Ok(s) => s,
            Err(e) => {
                return Err(e);
            },
        };
        let mut out: String = String::from_str(self.opcode());
        push_char(&mut out, ' ');
        push_text(&mut out, operands.as_str());
        Ok(out)
    }
}

} // verus!
