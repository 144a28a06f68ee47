//! Reading keys out of bytes, and what can go wrong there.
use vstd::prelude::*;

use crate::bytes::array_at;

verus! {

/// Why a key could not be read.
#[derive(Copy, Clone, Debug, PartialEq, Eq)]
pub enum SerializationError {
    /// The input ended too early.
    UnexpectedEof,
    /// The input is not what it should be, for the given reason.
    Parse(&'static str),
}

/// Reads the thirty-two bytes of `input` that start at `position`.
pub fn read_32_bytes(input: &[u8], position: usize) -> (read: Result<[u8; 32], SerializationError>)
    ensures
        match read {
            Ok(bytes) => {
                &&& position + 32 <= input@.len()
                &&& bytes@ == input@.subrange(position as int, position + 32)
            },
            Err(e) => {
                &&& position + 32 > input@.len()
                &&& e == SerializationError::UnexpectedEof
            },
        },
{
    if input.len() < 32 || position > input.len() - 32 {
        Err(SerializationError::UnexpectedEof)
    } else {
        Ok(array_at(input, position))
    }
}

} // verus!
