//! Validation of token launch metadata.
//!
//! The engine never stores or renders metadata — that is the host's concern —
//! but a launch is rejected up front when its name, symbol or URI is empty
//! or too long. Fields arrive as the raw bytes the host would store and are
//! charged by byte length.

use vstd::prelude::*;

use crate::errors::CurveError;

verus! {

/// Longest accepted token name, in bytes.
pub const MAX_NAME_LENGTH: usize = 32;

/// Longest accepted token symbol, in bytes.
pub const MAX_SYMBOL_LENGTH: usize = 10;

/// Longest accepted metadata URI, in bytes.
pub const MAX_URI_LENGTH: usize = 200;

/// Whether a name, symbol or URI of `len` bytes is acceptable against a
/// maximum: it must be present and fit.
pub open spec fn valid_len(len: nat, max: nat) -> bool {
    1 <= len <= max
}

/// Checks a launch's metadata: the name, symbol and URI must each be
/// non-empty and within their maximum byte lengths. Reports the first field
/// that fails, in that order.
pub fn validate_token_metadata(name: &[u8], symbol: &[u8], uri: &[u8]) -> (r: Result<
    (),
    CurveError,
>)
    ensures
        !valid_len(name@.len(), MAX_NAME_LENGTH as nat) ==> r == Err::<(), CurveError>(
            CurveError::InvalidTokenName,
        ),
        valid_len(name@.len(), MAX_NAME_LENGTH as nat) && !valid_len(
            symbol@.len(),
            MAX_SYMBOL_LENGTH as nat,
        ) ==> r == Err::<(), CurveError>(CurveError::InvalidTokenSymbol),
        valid_len(name@.len(), MAX_NAME_LENGTH as nat) && valid_len(
            symbol@.len(),
            MAX_SYMBOL_LENGTH as nat,
        ) && !valid_len(uri@.len(), MAX_URI_LENGTH as nat) ==> r == Err::<(), CurveError>(
            CurveError::InvalidTokenUri,
        ),
        valid_len(name@.len(), MAX_NAME_LENGTH as nat) && valid_len(
            symbol@.len(),
            MAX_SYMBOL_LENGTH as nat,
        ) && valid_len(uri@.len(), MAX_URI_LENGTH as nat) ==> r == Ok::<(), CurveError>(()),
{
    let name_len = name.len();
    if name_len == 0 || name_len > MAX_NAME_LENGTH {
        return Err(CurveError::InvalidTokenName);
    }
    let symbol_len = symbol.len();
    if symbol_len == 0 || symbol_len > MAX_SYMBOL_LENGTH {
        return Err(CurveError::InvalidTokenSymbol);
    }
    let uri_len = uri.len();
    if uri_len == 0 || uri_len > MAX_URI_LENGTH {
        return Err(CurveError::InvalidTokenUri);
    }
    Ok(())
}

} // verus!
