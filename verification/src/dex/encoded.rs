use vstd::prelude::*;

use crate::errors::DexParseError;
use crate::utils::{decode_uleb128_at, uleb128_at};

verus! {

/// One field of a class: its index in the field pool and its access flags.
#[derive(Debug, PartialEq, Eq, Clone, Copy)]
pub struct EncodedField {
    /// index into the field pool; stored as the difference to the index of
    /// the previous field of the list
    pub field_idx: u64,
    /// access flags of the field
    pub access_flags: u64,
}

/// One method of a class: its index in the method pool, its access flags and
/// the place of its code.
#[derive(Debug, PartialEq, Eq, Clone, Copy)]
pub struct EncodedMethod {
    /// index into the method pool; stored as the difference to the index of
    /// the previous method of the list
    pub method_idx: u64,
    /// access flags of the method
    pub access_flags: u64,
    /// offset from the start of the file to the code of the method, or 0 if
    /// the method is abstract or native
    pub code_off: u64,
}

/// The field entry that stands at `pos` in `s`, after a field with index
/// `prev`, and the position behind it: two ULEB128 values, the difference of
/// the index to `prev` and the access flags.
pub open spec fn encoded_field_at(s: Seq<u8>, pos: int, prev: u64) -> Result<
    (EncodedField, int),
    DexParseError,
> {
    match uleb128_at(s, pos, 5) {
        None => Err(DexParseError::MalformedLeb128 { field: "field_idx_diff" }),
        Some((diff, n1)) => match uleb128_at(s, pos + n1, 5) {
            None => Err(DexParseError::MalformedLeb128 { field: "access_flags" }),
            Some((flags, n2)) => if prev + diff > u64::MAX {
                Err(DexParseError::IndexOverflow { field: "field_idx" })
            } else {
                Ok(
                    (
                        EncodedField {
                            field_idx: (prev + diff) as u64,
                            access_flags: flags as u64,
                        },
                        pos + n1 + n2,
                    ),
                )
            },
        },
    }
}

/// The method entry that stands at `pos` in `s`, after a method with index
/// `prev`, and the position behind it: three ULEB128 values, the difference
/// of the index to `prev`, the access flags and the offset of the code.
pub open spec fn encoded_method_at(s: Seq<u8>, pos: int, prev: u64) -> Result<
    (EncodedMethod, int),
    DexParseError,
> {
    match uleb128_at(s, pos, 5) {
        None => Err(DexParseError::MalformedLeb128 { field: "method_idx_diff" }),
        Some((diff, n1)) => match uleb128_at(s, pos + n1, 5) {
            None => Err(DexParseError::MalformedLeb128 { field: "access_flags" }),
            Some((flags, n2)) => match uleb128_at(s, pos + n1 + n2, 5) {
                None => Err(DexParseError::MalformedLeb128 { field: "code_off" }),
                Some((code_off, n3)) => if prev + diff > u64::MAX {
                    Err(DexParseError::IndexOverflow { field: "method_idx" })
                } else {
                    Ok(
                        (
                            EncodedMethod {
                                method_idx: (prev + diff) as u64,
                                access_flags: flags as u64,
                                code_off: code_off as u64,
                            },
                            pos + n1 + n2 + n3,
                        ),
                    )
                },
            },
        },
    }
}

impl EncodedField {
    /// Reads the field entry at `*offset` and moves `*offset` behind it.
    /// `prev` is the index of the field before it in its list, or 0 for the
    /// first. On failure `*offset` stays where it was.
    pub fn parse_from_bytes_with_offset(buffer: &[u8], prev: u64, offset: &mut usize) -> (r: Result<
        EncodedField,
        DexParseError,
    >)
        ensures
            match encoded_field_at(buffer@, *old(offset) as int, prev) {
                Ok((field, end)) => r == Ok::<EncodedField, DexParseError>(field) && *final(offset)
                    == end,
                Err(e) => r == Err::<EncodedField, DexParseError>(e) && *final(offset) == *old(
                    offset
                ),
            },
    {
        let start: usize = *offset;
        let (field_idx_diff, n1) = match decode_uleb128_at(buffer, start) {
            Some(pair) => pair,
            None => {
                return Err(DexParseError::MalformedLeb128 { field: "field_idx_diff" });
            },
        };
        let (access_flags, n2) = match decode_uleb128_at(buffer, start + n1) {
            Some(pair) => pair,
            None => {
                return Err(DexParseError::MalformedLeb128 { field: "access_flags" });
            },
        };
        if field_idx_diff > u64::MAX - prev {
            return Err(DexParseError::IndexOverflow { field: "field_idx" });
        }
        *offset = start + n1 + n2;
        Ok(EncodedField { field_idx: prev + field_idx_diff, access_flags })
    }
}

impl EncodedMethod {
    /// Reads the method entry at `*offset` and moves `*offset` behind it.
    /// `prev` is the index of the method before it in its list, or 0 for the
    /// first. On failure `*offset` stays where it was.
    pub fn parse_from_bytes_with_offset(buffer: &[u8], prev: u64, offset: &mut usize) -> (r: Result<
        EncodedMethod,
        DexParseError,
    >)
        ensures
            match encoded_method_at(buffer@, *old(offset) as int, prev) {
                Ok((method, end)) => r == Ok::<EncodedMethod, DexParseError>(method) && *final(
                    offset
                ) == end,
                Err(e) => r == Err::<EncodedMethod, DexParseError>(e) && *final(offset) == *old(
                    offset
                ),
            },
    {
        let start: usize = *offset;
        let (method_idx_diff, n1) = match decode_uleb128_at(buffer, start) {
            Some(pair) => pair,
            None => {
                return Err(DexParseError::MalformedLeb128 { field: "method_idx_diff" });
            },
        };
        let (access_flags, n2) = match decode_uleb128_at(buffer, start + n1) {
            Some(pair) => pair,
            None => {
                return Err(DexParseError::MalformedLeb128 { field: "access_flags" });
            },
        };
        let (code_off, n3) = match decode_uleb128_at(buffer, start + n1 + n2) {
            Some(pair) => pair,
            None => {
                return Err(DexParseError::MalformedLeb128 { field: "code_off" });
            },
        };
        if method_idx_diff > u64::MAX - prev {
            return Err(DexParseError::IndexOverflow { field: "method_idx" });
        }
        *offset = start + n1 + n2 + n3;
        Ok(EncodedMethod { method_idx: prev + method_idx_diff, access_flags, code_off })
    }
}

} // verus!
