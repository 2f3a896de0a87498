//! Outside types that values of this library carry through unread.

use vstd::prelude::*;

verus! {

/// A failure reported by the jsonwebtoken crate, carried through unread.
#[verifier::external_type_specification]
#[verifier::external_body]
pub struct ExJwtError(jsonwebtoken::errors::Error);

/// A failure reported by the PKCS#1 key codec, carried through unread.
#[verifier::external_type_specification]
#[verifier::external_body]
pub struct ExPkcs1Error(rsa::pkcs1::Error);

/// A failure of the r2d2 connection pool, carried through unread.
#[verifier::external_type_specification]
#[verifier::external_body]
pub struct ExPoolError(r2d2::Error);

/// A blocking task that actix-web could not run to completion, carried
/// through unread.
#[verifier::external_type_specification]
#[verifier::external_body]
pub struct ExBlockingError(actix_web::error::BlockingError);

/// A key that checks token signatures, carried through unread.
#[verifier::external_type_specification]
#[verifier::external_body]
pub struct ExDecodingKey(jsonwebtoken::DecodingKey);

/// A key that signs tokens, carried through unread.
#[verifier::external_type_specification]
#[verifier::external_body]
pub struct ExEncodingKey(jsonwebtoken::EncodingKey);

} // verus!
