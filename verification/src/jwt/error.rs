//! Errors of token handling.

use vstd::prelude::*;

verus! {

/// Errors of token handling.
#[derive(PartialEq, Eq, Structural, Clone, Copy, Debug)]
pub enum TokenError {
    BadInitialize,
    InvalidToken,
}

impl From<jsonwebtoken::errors::Error> for TokenError {
    /// Every failure of the token library means the token is not valid.
    fn from(err: jsonwebtoken::errors::Error) -> (e: TokenError) {
        TokenError::InvalidToken
    }
}

impl vstd::std_specs::convert::FromSpecImpl<jsonwebtoken::errors::Error> for TokenError {
    open spec fn obeys_from_spec() -> bool {
        true
    }

    open spec fn from_spec(err: jsonwebtoken::errors::Error) -> TokenError {
        TokenError::InvalidToken
    }
}

impl From<rsa::pkcs1::Error> for TokenError {
    /// Every failure of the key codec means the token is not valid.
    fn from(err: rsa::pkcs1::Error) -> (e: TokenError) {
        TokenError::InvalidToken
    }
}

impl vstd::std_specs::convert::FromSpecImpl<rsa::pkcs1::Error> for TokenError {
    open spec fn obeys_from_spec() -> bool {
        true
    }

    open spec fn from_spec(err: rsa::pkcs1::Error) -> TokenError {
        TokenError::InvalidToken
    }
}

} // verus!
