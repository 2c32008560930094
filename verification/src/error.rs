use vstd::prelude::*;

verus! {

/// Why a decode was abandoned. Any of these invalidates the whole document.
#[derive(Debug, Clone, Copy, PartialEq, Eq, Structural)]
pub enum DecodeError {
    /// A read ran past the end of the available bytes.
    TruncatedInput,
    /// A four byte chunk tag is not valid UTF-8.
    InvalidUtf8Tag,
    /// The accumulated length prefix does not fit in 64 bits.
    VarintOverflow,
    /// The header's format field names no known format.
    UnrecognizedFormatCode,
}

impl DecodeError {
    /// A short human readable description of the error.
    pub fn message(&self) -> (r: &'static str)
        ensures
            r@ == (match *self {
                DecodeError::TruncatedInput => "truncated input"@,
                DecodeError::InvalidUtf8Tag => "chunk tag is not valid UTF-8"@,
                DecodeError::VarintOverflow => "length prefix overflows 64 bits"@,
                DecodeError::UnrecognizedFormatCode => "unrecognized format code"@,
            }),
    {
        match self {
            DecodeError::TruncatedInput => "truncated input",
            DecodeError::InvalidUtf8Tag => "chunk tag is not valid UTF-8",
            DecodeError::VarintOverflow => "length prefix overflows 64 bits",
            DecodeError::UnrecognizedFormatCode => "unrecognized format code",
        }
    }
}

} // verus!
