use vstd::prelude::*;

use crate::errors::DexParseError;

verus! {

/// A record of fixed size that is read from the front of a byte buffer.
pub trait TryParseFromBytes: Sized {
    /// The record's name in error reports.
    const NAME: &'static str;

    /// The number of bytes that the record occupies.
    const SIZE: usize;

    /// The number of bytes that the record occupies: the value of `SIZE`.
    spec fn spec_size() -> nat;

    /// The record's name in error reports: the text of `NAME`.
    spec fn spec_name() -> Seq<char>;

    /// The record that the first `SIZE` bytes of `bytes` hold.
    spec fn spec_parse(bytes: Seq<u8>) -> Self;

    /// `SIZE` and `NAME` have the values that the contracts speak of.
    proof fn lemma_constants()
        ensures
            Self::SIZE == Self::spec_size(),
            Self::NAME@ == Self::spec_name(),
    ;

    /// Reads the record at the front of `buffer`, or reports how many bytes
    /// are missing.
    fn try_parse_from_bytes(buffer: &[u8]) -> (r: Result<Self, DexParseError>)
        ensures
            buffer@.len() >= Self::spec_size() ==> r == Ok::<Self, DexParseError>(
                Self::spec_parse(buffer@),
            ),
            buffer@.len() < Self::spec_size() ==> (r matches Err(
                DexParseError::InvalidElementSize { field, expected, actual },
            ) && field@ == Self::spec_name() && expected == Self::spec_size() && actual
                == buffer@.len()),
    {
        proof {
            Self::lemma_constants();
        }
        if buffer.len() < Self::SIZE {
            return Err(
                DexParseError::InvalidElementSize {
                    field: Self::NAME,
                    expected: Self::SIZE,
                    actual: buffer.len(),
                },
            );
        }
        Ok(Self::parse_from_bytes(buffer))
    }

    /// Reads the record at the front of a buffer that is long enough.
    fn parse_from_bytes(buffer: &[u8]) -> (r: Self)
        requires
            buffer@.len() >= Self::spec_size(),
        ensures
            r == Self::spec_parse(buffer@),
    ;
}

} // verus!
