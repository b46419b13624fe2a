use vstd::prelude::*;

use crate::error::FeeError;

verus! {

/// The decoded instruction payload. It carries no parameters: its only
/// valid encoding is the empty byte string.
#[derive(Debug, Clone, Copy, PartialEq, Eq, Structural)]
pub struct TokenCreationInstruction {}

/// Relies on borsh::from_slice for the unit type: the unit type reads no
/// bytes, and from_slice fails exactly when bytes are left over.
#[verifier::external_body]
fn borsh_decodes_unit(data: &[u8]) -> (r: bool)
    ensures
        r == (data@.len() == 0),
{
    borsh::from_slice::<()>(data).is_ok()
}

impl TokenCreationInstruction {
    /// Decodes the payload from its binary encoding, rejecting trailing bytes.
    pub fn try_from_slice(data: &[u8]) -> (r: Result<TokenCreationInstruction, FeeError>)
        ensures
            data@.len() == 0 <==> r is Ok,
            data@.len() != 0 <==> r == Err::<TokenCreationInstruction, FeeError>(
                FeeError::DeserializationError,
            ),
    {
        if borsh_decodes_unit(data) {
            Ok(TokenCreationInstruction {})
        } else {
            Err(FeeError::DeserializationError)
        }
    }
}

} // verus!
