use vstd::prelude::*;

use crate::text::{decimal_digits, push_text, push_unsigned};

verus! {

/// Why a single instruction could not be decoded.
#[derive(Debug, PartialEq, Eq, Clone, Copy)]
pub enum InstructionError {
    /// The first byte starts no instruction.
    UnknownOpcode(u8),
    /// There were no bytes to decode.
    EmptyBuffer,
    /// The opcode is known, but fewer bytes remain than its instruction has.
    Size { opcode: u8, expected: usize, actual: usize },
}

/// Why a structure of the container could not be read.
#[derive(Debug, PartialEq, Eq, Clone, Copy)]
pub enum DexParseError {
    /// The bytes end before the element does.
    InvalidElementSize { field: &'static str, expected: usize, actual: usize },
    /// No complete ULEB128 value of at most five bytes stands where `field`
    /// was expected.
    MalformedLeb128 { field: &'static str },
    /// Adding an index difference to the previous index left the 64-bit range.
    IndexOverflow { field: &'static str },
    /// No zero byte ends the text of `field`.
    MissingTerminator { field: &'static str },
}

/// A pool index that lies outside its pool.
#[derive(Debug, PartialEq, Eq, Clone, Copy)]
pub enum TableIdxError {
    String(usize),
    Type(usize),
    FieldId(usize),
    MethodId(usize),
    ProtoId(usize),
    CallSite(usize),
    MethodHandle(usize),
}

impl TableIdxError {
    /// The index that lies outside its pool.
    pub open spec fn index(self) -> usize {
        match self {
            TableIdxError::String(i)
            | TableIdxError::Type(i)
            | TableIdxError::FieldId(i)
            | TableIdxError::MethodId(i)
            | TableIdxError::ProtoId(i)
            | TableIdxError::CallSite(i)
            | TableIdxError::MethodHandle(i) => i,
        }
    }

    /// The name of the pool, as the variant is written.
    pub open spec fn pool_name(self) -> Seq<char> {
        match self {
            TableIdxError::String(_) => "String"@,
            TableIdxError::Type(_) => "Type"@,
            TableIdxError::FieldId(_) => "FieldId"@,
            TableIdxError::MethodId(_) => "MethodId"@,
            TableIdxError::ProtoId(_) => "ProtoId"@,
            TableIdxError::CallSite(_) => "CallSite"@,
            TableIdxError::MethodHandle(_) => "MethodHandle"@,
        }
    }

    /// The error as it is written in source text: the variant's name and the
    /// index in round brackets.
    pub open spec fn spec_debug_text(self) -> Seq<char> {
        self.pool_name() + "("@ + decimal_digits(self.index() as nat) + ")"@
    }

    /// Renders the error as it is written in source text.
    pub fn debug_text(&self) -> (r: String)
        ensures
            r@ == self.spec_debug_text(),
    {
        let (name, index): (&'static str, usize) = match self {
            TableIdxError::String(i) => ("String", *i),
            TableIdxError::Type(i) => ("Type", *i),
            TableIdxError::FieldId(i) => ("FieldId", *i),
            TableIdxError::MethodId(i) => ("MethodId", *i),
            TableIdxError::ProtoId(i) => ("ProtoId", *i),
            TableIdxError::CallSite(i) => ("CallSite", *i),
            TableIdxError::MethodHandle(i) => ("MethodHandle", *i),
        };
        let mut out: String = String::from_str(name);
        push_text(&mut out, "(");
        push_unsigned(&mut out, index as u64);
        push_text(&mut out, ")");
        out
    }
}

/// Why a class could not be rendered as text.
#[derive(Debug, PartialEq, Eq, Clone, Copy)]
pub enum ClassWriteError {
    /// The access flags of the class have a bit that is no flag.
    InvalidAccessFlags(u32),
    /// An index of a field or a method lies outside its pool.
    TableIdx(TableIdxError),
    /// The class data of the class could not be read.
    ClassData(DexParseError),
}

/// Why an instruction could not be rendered as text.
#[derive(Debug, PartialEq, Eq, Clone, Copy)]
pub enum ConversionError {
    /// A pool index of the instruction lies outside its pool.
    TableIdxError(TableIdxError),
    /// The branch instruction at this byte offset jumps to a place that has
    /// no label.
    MissingLabel(usize),
}

impl From<TableIdxError> for ConversionError {
    fn from(e: TableIdxError) -> (r: ConversionError) {
        ConversionError::TableIdxError(e)
    }
}

impl vstd::std_specs::convert::FromSpecImpl<TableIdxError> for ConversionError {
    open spec fn obeys_from_spec() -> bool {
        true
    }

    open spec fn from_spec(e: TableIdxError) -> ConversionError {
        ConversionError::TableIdxError(e)
    }
}

} // verus!
