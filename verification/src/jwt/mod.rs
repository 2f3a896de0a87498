//! Session claims carried in the service's JSON Web Tokens, and the errors of
//! token handling.

use vstd::prelude::*;
use crate::models::User;
use crate::text::{hyphenated, uuid_text};

pub mod error;
pub use error::TokenError;

verus! {

/// What a token asserts about its holder.
pub struct Claims {
    /// Issuer
    pub iss: String,
    /// Expiration time
    pub exp: u64,
    /// Subject, also user ID
    pub sub: String,
    /// Audience
    pub aud: String,
    /// Issued at
    pub iat: u64,
    /// JWT ID
    pub jti: String,
    /// Login
    pub login: String,
    /// User name
    pub name: String,
    /// Permissions
    pub admin: bool,
}

/// The claims as plain values.
pub struct ClaimsView {
    pub iss: Seq<char>,
    pub exp: u64,
    pub sub: Seq<char>,
    pub aud: Seq<char>,
    pub iat: u64,
    pub jti: Seq<char>,
    pub login: Seq<char>,
    pub name: Seq<char>,
    pub admin: bool,
}

impl View for Claims {
    type V = ClaimsView;

    open spec fn view(&self) -> ClaimsView {
        ClaimsView {
            iss: self.iss@,
            exp: self.exp,
            sub: self.sub@,
            aud: self.aud@,
            iat: self.iat,
            jti: self.jti@,
            login: self.login@,
            name: self.name@,
            admin: self.admin,
        }
    }
}

/// How long a freshly issued token stays valid, in seconds.
pub const TOKEN_LIFETIME: u64 = 3600;

/// The issuer and audience named in every token.
pub open spec fn service_name() -> Seq<char> {
    seq!['l', 'i', 'b', 'r', 'e']
}

/// `iat + TOKEN_LIFETIME`, held at `u64::MAX` where the sum does not fit.
pub open spec fn expiry_after(iat: u64) -> u64 {
    if iat <= u64::MAX - TOKEN_LIFETIME {
        (iat + TOKEN_LIFETIME) as u64
    } else {
        u64::MAX
    }
}

/// The claims issued to `user` at time `iat` (seconds since the Unix epoch).
pub open spec fn issued_claims(user: User, iat: u64) -> ClaimsView {
    ClaimsView {
        iss: service_name(),
        exp: expiry_after(iat),
        sub: hyphenated(user.uid),
        aud: service_name(),
        iat: iat,
        jti: hyphenated(user.uid),
        login: user.login@,
        name: user.username@,
        admin: user.admin,
    }
}

/// `c` with an expiry `secs` seconds after its issue time, the seconds taken
/// as a `u64` the way `as` converts them.
pub open spec fn expiring_after(c: ClaimsView, secs: i64) -> ClaimsView {
    ClaimsView { exp: (c.iat + (secs as u64)) as u64, ..c }
}

/// `c` pointed at `user`: subject, token ID, name and admin flag from the user.
pub open spec fn repointed(c: ClaimsView, user: User) -> ClaimsView {
    ClaimsView {
        sub: hyphenated(user.uid),
        jti: hyphenated(user.uid),
        name: user.username@,
        admin: user.admin,
        ..c
    }
}

/// A span of time, counted in whole seconds.
pub struct TimeDelta {
    secs: i64,
}

impl TimeDelta {
    pub closed spec fn spec_num_seconds(&self) -> i64 {
        self.secs
    }

    /// A span of `secs` seconds.
    pub fn seconds(secs: i64) -> (d: TimeDelta)
        ensures
            d.spec_num_seconds() == secs,
    {
        TimeDelta { secs }
    }

    /// The number of whole seconds in the span.
    pub fn num_seconds(&self) -> (s: i64)
        ensures
            s == self.spec_num_seconds(),
    {
        self.secs
    }
}

fn service_text() -> (s: String)
    ensures
        s@ == service_name(),
{
    proof {
        reveal_strlit("libre");
    }
    "libre".to_owned()
}

impl Claims {
    /// The claims issued to `user` at `iat` (seconds since the Unix epoch, as
    /// read from the clock by the caller): issuer and audience `"libre"`,
    /// subject and token ID the user's UUID, and an expiry one hour later.
    pub fn issued_at(user: &User, iat: u64) -> (claims: Claims)
        ensures
            claims@ == issued_claims(*user, iat),
    {
        let exp = if iat <= u64::MAX - TOKEN_LIFETIME {
            iat + TOKEN_LIFETIME
        } else {
            u64::MAX
        };
        Claims {
            iss: service_text(),
            exp,
            sub: uuid_text(user.uid),
            aud: service_text(),
            iat,
            jti: uuid_text(user.uid),
            login: user.login.clone(),
            name: user.username.clone(),
            admin: user.admin,
        }
    }

    /// Sets the expiry to `duration` after the issue time. The duration's
    /// seconds are taken as a `u64` the way `as` converts them, so a negative
    /// span counts from the top of the range.
    pub fn expiration(self, duration: TimeDelta) -> (claims: Self)
        requires
            self.iat + (duration.spec_num_seconds() as u64) <= u64::MAX,
        ensures
            claims@ == expiring_after(self@, duration.spec_num_seconds()),
    {
        let mut claims = self;
        claims.exp = claims.iat + duration.num_seconds() as u64;
        claims
    }

    /// Points the claims at `user`: subject, token ID, name and admin flag
    /// are taken from the user; issuer, audience, times and login are kept.
    pub fn user(self, user: &User) -> (claims: Self)
        ensures
            claims@ == repointed(self@, *user),
    {
        let mut claims = self;
        claims.sub = uuid_text(user.uid);
        claims.jti = uuid_text(user.uid);
        claims.name = user.username.clone();
        claims.admin = user.admin;
        claims
    }
}

/// The signing algorithms that the token library knows, by its names.
#[derive(PartialEq, Eq, Structural, Clone, Copy, Debug)]
pub enum JwtAlgorithm {
    HS256,
    HS384,
    HS512,
    ES256,
    ES384,
    RS256,
    RS384,
    RS512,
    PS256,
    PS384,
    PS512,
    EdDSA,
}

/// The algorithm that the token library reads from `name`, if any: the
/// variant whose name is exactly `name`.
pub open spec fn algorithm_named(name: Seq<char>) -> Option<JwtAlgorithm> {
    if name == "HS256"@ {
        Some(JwtAlgorithm::HS256)
    } else if name == "HS384"@ {
        Some(JwtAlgorithm::HS384)
    } else if name == "HS512"@ {
        Some(JwtAlgorithm::HS512)
    } else if name == "ES256"@ {
        Some(JwtAlgorithm::ES256)
    } else if name == "ES384"@ {
        Some(JwtAlgorithm::ES384)
    } else if name == "RS256"@ {
        Some(JwtAlgorithm::RS256)
    } else if name == "RS384"@ {
        Some(JwtAlgorithm::RS384)
    } else if name == "PS256"@ {
        Some(JwtAlgorithm::PS256)
    } else if name == "PS384"@ {
        Some(JwtAlgorithm::PS384)
    } else if name == "PS512"@ {
        Some(JwtAlgorithm::PS512)
    } else if name == "RS512"@ {
        Some(JwtAlgorithm::RS512)
    } else if name == "EdDSA"@ {
        Some(JwtAlgorithm::EdDSA)
    } else {
        None
    }
}

/// Calls `name.parse::<jsonwebtoken::Algorithm>()`. The crate's `FromStr`
/// accepts exactly the twelve algorithm names and fails on anything else; the
/// variant found is handed back as the library's own.
#[verifier::external_body]
fn parse_algorithm(name: &str) -> (res: Result<JwtAlgorithm, jsonwebtoken::errors::Error>)
    ensures
        match res {
            Ok(alg) => algorithm_named(name@) == Some(alg),
            Err(_) => algorithm_named(name@) is None,
        },
{
    Ok(match name.parse::<jsonwebtoken::Algorithm>()? {
        jsonwebtoken::Algorithm::HS256 => JwtAlgorithm::HS256,
        jsonwebtoken::Algorithm::HS384 => JwtAlgorithm::HS384,
        jsonwebtoken::Algorithm::HS512 => JwtAlgorithm::HS512,
        jsonwebtoken::Algorithm::ES256 => JwtAlgorithm::ES256,
        jsonwebtoken::Algorithm::ES384 => JwtAlgorithm::ES384,
        jsonwebtoken::Algorithm::RS256 => JwtAlgorithm::RS256,
        jsonwebtoken::Algorithm::RS384 => JwtAlgorithm::RS384,
        jsonwebtoken::Algorithm::RS512 => JwtAlgorithm::RS512,
        jsonwebtoken::Algorithm::PS256 => JwtAlgorithm::PS256,
        jsonwebtoken::Algorithm::PS384 => JwtAlgorithm::PS384,
        jsonwebtoken::Algorithm::PS512 => JwtAlgorithm::PS512,
        jsonwebtoken::Algorithm::EdDSA => JwtAlgorithm::EdDSA,
    })
}

/// Why a configured signing algorithm is refused.
#[derive(PartialEq, Eq, Structural, Clone, Copy, Debug)]
pub enum AlgorithmError {
    /// The name is not one the token library knows.
    Unparsable,
    /// The algorithm is not RSASSA-PKCS1-v1_5 (RS256, RS384 or RS512).
    NotRsa,
}

/// Whether `alg` signs with RSASSA-PKCS1-v1_5.
pub open spec fn is_rsa(alg: JwtAlgorithm) -> bool {
    alg == JwtAlgorithm::RS256 || alg == JwtAlgorithm::RS384 || alg == JwtAlgorithm::RS512
}

/// The name read when no algorithm is configured.
pub open spec fn default_algorithm_name() -> Seq<char> {
    "RS256"@
}

/// The outcome of choosing the signing algorithm from its configured name.
pub open spec fn algorithm_choice(configured: Option<Seq<char>>) -> Result<JwtAlgorithm, AlgorithmError> {
    let name = match configured {
        Some(n) => n,
        None => default_algorithm_name(),
    };
    match algorithm_named(name) {
        None => Err(AlgorithmError::Unparsable),
        Some(alg) => if is_rsa(alg) {
            Ok(alg)
        } else {
            Err(AlgorithmError::NotRsa)
        },
    }
}

/// Chooses the token signing algorithm from its configured name, `RS256` when
/// none is configured. Only the RSA algorithms RS256, RS384 and RS512 are
/// accepted.
pub fn select_jwt_algorithm(configured: Option<&str>) -> (res: Result<JwtAlgorithm, AlgorithmError>)
    ensures
        res == algorithm_choice(
            match configured {
                Some(n) => Some(n@),
                None => None,
            },
        ),
{
    let name = match configured {
        Some(n) => n,
        None => "RS256",
    };
    match parse_algorithm(name) {
        Err(e) => Err(AlgorithmError::Unparsable),
        Ok(alg) => match alg {
            JwtAlgorithm::RS256 | JwtAlgorithm::RS384 | JwtAlgorithm::RS512 => Ok(alg),
            _ => Err(AlgorithmError::NotRsa),
        },
    }
}

/// Claims issued to one user and then pointed at another are the claims
/// issued to the other at the same time, but for the login, which stays the
/// first user's.
pub proof fn repointed_claims_keep_login(first: User, second: User, iat: u64)
    ensures
        repointed(issued_claims(first, iat), second) == (ClaimsView {
            login: first.login@,
            ..issued_claims(second, iat)
        }),
{
}

/// A non-negative lifetime sets the expiry that many seconds after issue;
/// setting the same lifetime again changes nothing; and a lifetime of one hour
/// gives back freshly issued claims.
pub proof fn expiration_counts_from_issue(c: ClaimsView, secs: i64, user: User, iat: u64)
    requires
        secs >= 0,
        c.iat + secs <= u64::MAX,
    ensures
        expiring_after(c, secs).exp == c.iat + secs,
        expiring_after(expiring_after(c, secs), secs) == expiring_after(c, secs),
        iat <= u64::MAX - TOKEN_LIFETIME ==> expiring_after(issued_claims(user, iat), 3600)
            == issued_claims(user, iat),
{
}

/// Claims issued to a user at any time name the service `"libre"` as issuer
/// and audience, carry the user's UUID as subject and token ID, its login,
/// name and admin flag, the issue time itself, and expire one hour later
/// (at the top of the range where an hour does not fit).
pub proof fn issued_claims_describe_the_user(user: User, iat: u64)
    ensures
        issued_claims(user, iat).iss == seq!['l', 'i', 'b', 'r', 'e'],
        issued_claims(user, iat).aud == seq!['l', 'i', 'b', 'r', 'e'],
        issued_claims(user, iat).sub == hyphenated(user.uid),
        issued_claims(user, iat).jti == hyphenated(user.uid),
        issued_claims(user, iat).login == user.login@,
        issued_claims(user, iat).name == user.username@,
        issued_claims(user, iat).admin == user.admin,
        issued_claims(user, iat).iat == iat,
        iat + 3600 <= u64::MAX ==> issued_claims(user, iat).exp == iat + 3600,
        iat + 3600 > u64::MAX ==> issued_claims(user, iat).exp == u64::MAX,
{
}

/// Setting the expiry changes nothing but the expiry, whatever the claims and
/// the span; a non-negative span that fits sets it that many seconds after
/// the issue time.
pub proof fn expiration_changes_only_the_expiry(c: ClaimsView, secs: i64)
    ensures
        expiring_after(c, secs).iss == c.iss,
        expiring_after(c, secs).sub == c.sub,
        expiring_after(c, secs).aud == c.aud,
        expiring_after(c, secs).iat == c.iat,
        expiring_after(c, secs).jti == c.jti,
        expiring_after(c, secs).login == c.login,
        expiring_after(c, secs).name == c.name,
        expiring_after(c, secs).admin == c.admin,
        secs >= 0 && c.iat + secs <= u64::MAX ==> expiring_after(c, secs).exp == c.iat + secs,
{
}

/// Pointing any claims at a user takes subject and token ID (the user's UUID),
/// name and admin flag from that user, and keeps issuer, audience, times and
/// login.
pub proof fn repointing_takes_the_user(c: ClaimsView, user: User)
    ensures
        repointed(c, user).sub == hyphenated(user.uid),
        repointed(c, user).jti == hyphenated(user.uid),
        repointed(c, user).name == user.username@,
        repointed(c, user).admin == user.admin,
        repointed(c, user).iss == c.iss,
        repointed(c, user).aud == c.aud,
        repointed(c, user).exp == c.exp,
        repointed(c, user).iat == c.iat,
        repointed(c, user).login == c.login,
{
}

/// Without a configured name the service signs with RS256.
pub proof fn default_algorithm_is_rs256()
    ensures
        algorithm_choice(None) == Ok::<JwtAlgorithm, AlgorithmError>(JwtAlgorithm::RS256),
{
    reveal_strlit("HS256");
    reveal_strlit("HS384");
    reveal_strlit("HS512");
    reveal_strlit("ES256");
    reveal_strlit("ES384");
    reveal_strlit("RS256");
    assert("RS256"@[0] != "HS256"@[0]);
    assert("RS256"@[0] != "HS384"@[0]);
    assert("RS256"@[0] != "HS512"@[0]);
    assert("RS256"@[0] != "ES256"@[0]);
    assert("RS256"@[0] != "ES384"@[0]);
}

/// Whatever name is configured, an accepted algorithm is one of RS256, RS384
/// and RS512, and an RSA algorithm named is accepted.
pub proof fn accepted_algorithm_is_rsa(configured: Option<Seq<char>>)
    ensures
        algorithm_choice(configured) matches Ok(alg) ==> is_rsa(alg),
        forall|name: Seq<char>, alg: JwtAlgorithm|
            configured == Some(name) && algorithm_named(name) == Some(alg) && is_rsa(alg)
                ==> algorithm_choice(configured) == Ok::<JwtAlgorithm, AlgorithmError>(alg),
{
}

/// The service's signing keys and algorithm.
pub struct JwtUtil {
    pub public_key: jsonwebtoken::DecodingKey,
    pub private_key: jsonwebtoken::EncodingKey,
    pub algorithm: JwtAlgorithm,
}

/// Whether `jsonwebtoken::DecodingKey::from_rsa_pem` accepts `pem`.
pub uninterp spec fn rsa_public_pem_ok(pem: Seq<u8>) -> bool;

/// Whether `jsonwebtoken::EncodingKey::from_rsa_pem` accepts `pem`.
pub uninterp spec fn rsa_private_pem_ok(pem: Seq<u8>) -> bool;

/// The key that `jsonwebtoken::DecodingKey::from_rsa_pem` reads from `pem`.
pub uninterp spec fn rsa_public_key_of(pem: Seq<u8>) -> jsonwebtoken::DecodingKey;

/// The key that `jsonwebtoken::EncodingKey::from_rsa_pem` reads from `pem`.
pub uninterp spec fn rsa_private_key_of(pem: Seq<u8>) -> jsonwebtoken::EncodingKey;

/// Calls `jsonwebtoken::DecodingKey::from_rsa_pem(pem)`. The crate parses the
/// PEM text and keeps the RSA key material; whether it succeeds, and the key
/// it gives, depend on the bytes alone, and the contract names both.
#[verifier::external_body]
fn decoding_key_from_rsa_pem(pem: &[u8]) -> (r: Result<jsonwebtoken::DecodingKey, jsonwebtoken::errors::Error>)
    ensures
        r is Ok <==> rsa_public_pem_ok(pem@),
        r matches Ok(k) ==> k == rsa_public_key_of(pem@),
{
    jsonwebtoken::DecodingKey::from_rsa_pem(pem)
}

/// Calls `jsonwebtoken::EncodingKey::from_rsa_pem(pem)`. The crate parses the
/// PEM text and keeps the RSA key material; whether it succeeds, and the key
/// it gives, depend on the bytes alone, and the contract names both.
#[verifier::external_body]
fn encoding_key_from_rsa_pem(pem: &[u8]) -> (r: Result<jsonwebtoken::EncodingKey, jsonwebtoken::errors::Error>)
    ensures
        r is Ok <==> rsa_private_pem_ok(pem@),
        r matches Ok(k) ==> k == rsa_private_key_of(pem@),
{
    jsonwebtoken::EncodingKey::from_rsa_pem(pem)
}

/// The key that checks tokens, read from the PEM text of an RSA public key; a
/// key the token library cannot read leaves the service badly initialised.
pub fn public_key_from_pem(pem: &[u8]) -> (r: Result<jsonwebtoken::DecodingKey, TokenError>)
    ensures
        r is Ok <==> rsa_public_pem_ok(pem@),
        r matches Ok(k) ==> k == rsa_public_key_of(pem@),
        r matches Err(e) ==> e == TokenError::BadInitialize,
{
    match decoding_key_from_rsa_pem(pem) {
        Ok(key) => Ok(key),
        Err(_) => Err(TokenError::BadInitialize),
    }
}

/// The key that signs tokens, read from the PEM text of an RSA private key; a
/// key the token library cannot read leaves the service badly initialised.
pub fn private_key_from_pem(pem: &[u8]) -> (r: Result<jsonwebtoken::EncodingKey, TokenError>)
    ensures
        r is Ok <==> rsa_private_pem_ok(pem@),
        r matches Ok(k) ==> k == rsa_private_key_of(pem@),
        r matches Err(e) ==> e == TokenError::BadInitialize,
{
    match encoding_key_from_rsa_pem(pem) {
        Ok(key) => Ok(key),
        Err(_) => Err(TokenError::BadInitialize),
    }
}

impl JwtUtil {
    /// The keys that the token library reads from the PEM texts of the public
    /// and the private key, with `algorithm`. It fails, as badly initialised, exactly when either
    /// text is not an RSA key that the token library reads.
    pub fn from_rsa_pem(algorithm: JwtAlgorithm, public_pem: &[u8], private_pem: &[u8]) -> (r: Result<JwtUtil, TokenError>)
        ensures
            r is Ok <==> (rsa_public_pem_ok(public_pem@) && rsa_private_pem_ok(private_pem@)),
            r matches Ok(util) ==> util.public_key == rsa_public_key_of(public_pem@)
                && util.private_key == rsa_private_key_of(private_pem@) && util.algorithm == algorithm,
            r matches Err(e) ==> e == TokenError::BadInitialize,
    {
        let public_key = public_key_from_pem(public_pem)?;
        let private_key = private_key_from_pem(private_pem)?;
        Ok(JwtUtil { public_key, private_key, algorithm })
    }
}

} // verus!
