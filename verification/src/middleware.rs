//! The identity verifier: from the `Authorization` header of a request to the
//! user id that a valid bearer credential carries.

use vstd::prelude::*;
use vstd::string::{StrSliceExecFns, StringSliceAdditionalSpecFns};
use vstd::utf8::{decode_utf8, valid_utf8};
use crate::errors::ApiError;

verus! {

/// `core::str::Utf8Error`, carried through unread.
#[verifier::external_type_specification]
#[verifier::external_body]
pub struct ExUtf8Error(core::str::Utf8Error);

/// `jsonwebtoken::DecodingKey`, carried through unread.
#[verifier::external_type_specification]
#[verifier::external_body]
pub struct ExDecodingKey(jsonwebtoken::DecodingKey);

/// `jsonwebtoken::Validation`, carried through unread.
#[verifier::external_type_specification]
#[verifier::external_body]
pub struct ExValidation(jsonwebtoken::Validation);

/// `jsonwebtoken::Algorithm`, the signing algorithms by name.
#[verifier::external_type_specification]
pub struct ExAlgorithm(jsonwebtoken::Algorithm);

/// `jsonwebtoken::errors::Error`, carried through unread.
#[verifier::external_type_specification]
#[verifier::external_body]
pub struct ExTokenError(jsonwebtoken::errors::Error);

/// `serde_json::Value`, carried through unread.
#[verifier::external_type_specification]
#[verifier::external_body]
pub struct ExValue(serde_json::Value);

/// `core::str::from_utf8` succeeds exactly on the byte slices that are valid
/// UTF-8, and the string slice it then returns is made of the same bytes.
pub assume_specification[ core::str::from_utf8 ](bytes: &[u8]) -> (text: Result<
    &str,
    core::str::Utf8Error,
>)
    ensures
        text is Ok <==> valid_utf8(bytes@),
        text matches Ok(slice) ==> slice.spec_bytes() == bytes@,
;

/// `jsonwebtoken::DecodingKey::from_secret` makes an HMAC key of the secret.
/// Nothing is claimed of the key.
pub assume_specification[ jsonwebtoken::DecodingKey::from_secret ](
    secret: &[u8],
) -> (key: jsonwebtoken::DecodingKey)
;

/// `jsonwebtoken::Validation::new` makes the default validation for one
/// algorithm. Nothing is claimed of it.
pub assume_specification[ jsonwebtoken::Validation::new ](
    alg: jsonwebtoken::Algorithm,
) -> (validation: jsonwebtoken::Validation)
;

/// What a JSON value holds as an integer: the number it is, where it is an
/// integer that an `i64` can hold. It stands for what
/// `serde_json::Value::as_i64` returns.
pub uninterp spec fn integer_of(value: serde_json::Value) -> Option<i64>;

/// What a JSON value holds as integer members: for a JSON object, each
/// member that is an integer, by its name; nothing for any other value.
pub uninterp spec fn integer_members(value: serde_json::Value) -> Map<Seq<char>, i64>;

/// The integer member `name` of a JSON value, where it has one.
pub open spec fn integer_member(value: serde_json::Value, name: Seq<char>) -> Option<i64> {
    if integer_members(value).contains_key(name) {
        Some(integer_members(value)[name])
    } else {
        None
    }
}

/// The number of `.` in a token. A signed token has three parts with a `.`
/// between them, so two at least.
pub open spec fn separators(token: Seq<char>) -> nat {
    token.filter(|c: char| c == '.').len()
}

/// `serde_json::Value::as_i64` returns the integer that the value holds,
/// `None` where it holds none.
pub assume_specification[ serde_json::Value::as_i64 ](value: &serde_json::Value) -> (integer: Option<
    i64,
>)
    ensures
        integer == integer_of(*value),
;

/// `jsonwebtoken::decode` with any JSON value accepted as the claim set.
///
/// The result depends on the clock, which the expiry is held against, so
/// only what holds at every time is claimed: the call splits the token at
/// its last two `.` before anything else is read, and fails on a token that
/// has fewer. The call panics where the clock reads a time before 1970.
#[verifier::external_body]
fn decode_claims(
    token: &str,
    key: &jsonwebtoken::DecodingKey,
    validation: &jsonwebtoken::Validation,
) -> (decoded: Result<serde_json::Value, jsonwebtoken::errors::Error>)
    ensures
        separators(token@) < 2 ==> decoded is Err,
{
    match jsonwebtoken::decode::<serde_json::Value>(token, key, validation) {
        Ok(data) => Ok(data.claims),
        Err(error) => Err(error),
    }
}

/// `serde_json::Value::get` with a string index: the member of that name,
/// `None` where the value is no object or has no such member. The member is
/// an integer exactly where the value has an integer member of that name, and
/// that integer is what the member holds.
#[verifier::external_body]
fn member<'a>(claims: &'a serde_json::Value, name: &str) -> (value: Option<
    &'a serde_json::Value,
>)
    ensures
        match value {
            Some(member) => integer_of(*member) == integer_member(*claims, name@),
            None => !integer_members(*claims).contains_key(name@),
        },
{
    claims.get(name)
}

/// The user that a verified credential names.
#[derive(Debug, Clone, Copy, PartialEq, Eq, Structural)]
pub struct AuthenticatedUser {
    pub user_id: i32,
}

/// The scheme that a credential is presented under, with the space that
/// parts it from the token.
pub open spec fn bearer_scheme() -> Seq<char> {
    "Bearer "@
}

/// The token in the value of an `Authorization` header: what follows the
/// scheme, where the value is valid UTF-8 and begins with the scheme.
pub open spec fn bearer_token_of(header: Seq<u8>) -> Option<Seq<char>> {
    if valid_utf8(header) && bearer_scheme().is_prefix_of(decode_utf8(header)) {
        Some(decode_utf8(header).skip(bearer_scheme().len() as int))
    } else {
        None
    }
}

/// The token that a request presents: that of its `Authorization` header,
/// where it has one.
pub open spec fn presented_token(header: Option<&[u8]>) -> Option<Seq<char>> {
    match header {
        Some(value) => bearer_token_of(value@),
        None => None,
    }
}

/// The user that the claim `user_id` of a verified token names: the claim
/// has to be an integer within the range of a user id.
pub open spec fn user_of_claim(claim: Option<i64>) -> Option<AuthenticatedUser> {
    match claim {
        Some(user_id) => if i32::MIN <= user_id <= i32::MAX {
            Some(AuthenticatedUser { user_id: user_id as i32 })
        } else {
            None
        },
        None => None,
    }
}

/// `text` without `prefix` in front, or `None` where `text` does not begin
/// with `prefix`.
pub fn strip_prefix<'a>(text: &'a str, prefix: &str) -> (rest: Option<&'a str>)
    ensures
        match rest {
            Some(rest) => prefix@.is_prefix_of(text@) && rest@ == text@.skip(prefix@.len() as int),
            None => !prefix@.is_prefix_of(text@),
        },
{
    let text_len = text.unicode_len();
    let prefix_len = prefix.unicode_len();
    if prefix_len > text_len {
        return None;
    }
    let mut i: usize = 0;
    while i < prefix_len
        invariant
            i <= prefix_len <= text_len,
            text_len == text@.len(),
            prefix_len == prefix@.len(),
            forall|j: int| 0 <= j < i ==> text@[j] == prefix@[j],
        decreases prefix_len - i,
    {
        if text.get_char(i) != prefix.get_char(i) {
            assert(text@.subrange(0, prefix@.len() as int)[i as int] != prefix@[i as int]);
            return None;
        }
        i += 1;
    }
    assert(prefix@ =~= text@.subrange(0, prefix@.len() as int));
    Some(text.substring_char(prefix_len, text_len))
}

/// The token in the value of an `Authorization` header.
///
/// `None` where the value is not valid UTF-8 or does not begin with
/// `Bearer` and a space; else everything behind that space.
pub fn bearer_token(header: &[u8]) -> (token: Option<&str>)
    ensures
        match token {
            Some(token) => bearer_token_of(header@) == Some(token@),
            None => bearer_token_of(header@) is None,
        },
{
    match core::str::from_utf8(header) {
        Ok(text) => {
            proof {
                vstd::utf8::encode_utf8_decode_utf8(text@);
            }
            strip_prefix(text, "Bearer ")
        },
        Err(_) => None,
    }
}

/// Verifies `token` against `secret`: an HMAC-SHA-256 signature, and the
/// registered claims as the default validation asks for them. Returns the
/// claim set of a token that passed. A token of fewer than three parts
/// never passes; of any other the verification decides.
fn decode_token(token: &str, secret: &[u8]) -> (decoded: Result<
    serde_json::Value,
    jsonwebtoken::errors::Error,
>)
    ensures
        separators(token@) < 2 ==> decoded is Err,
{
    let decoding_key = jsonwebtoken::DecodingKey::from_secret(secret);
    let validation = jsonwebtoken::Validation::new(jsonwebtoken::Algorithm::HS256);
    decode_claims(token, &decoding_key, &validation)
}

/// The claim `user_id` of a claim set, where it is an integer.
fn user_id_claim(claims: &serde_json::Value) -> (claim: Option<i64>)
    ensures
        claim == integer_member(*claims, "user_id"@),
{
    match member(claims, "user_id") {
        Some(value) => value.as_i64(),
        None => None,
    }
}

impl AuthenticatedUser {
    /// The user that the claim `user_id` of a verified token names, or
    /// `Unauthorized` where the claim is missing, is no integer or is out of
    /// the range of a user id.
    pub fn from_claim(claim: Option<i64>) -> (admitted: Result<AuthenticatedUser, ApiError>)
        ensures
            admitted == match user_of_claim(claim) {
                Some(user) => Ok::<AuthenticatedUser, ApiError>(user),
                None => Err(ApiError::Unauthorized),
            },
    {
        match claim {
            Some(user_id) => {
                if -2147483648 <= user_id && user_id <= 2147483647 {
                    Ok(AuthenticatedUser { user_id: user_id as i32 })
                } else {
                    Err(ApiError::Unauthorized)
                }
            },
            None => Err(ApiError::Unauthorized),
        }
    }

    /// Admits a request by the value of its `Authorization` header, `None`
    /// where the request has no such header.
    ///
    /// Every failure is `Unauthorized`, whatever its cause. The request is
    /// refused where the header is missing, is not valid UTF-8 or does not
    /// begin with `Bearer` and a space, and where the token has fewer than
    /// three parts. Else the token is verified against `secret`; whether it
    /// passes is for the verification to say, and a token that passed admits
    /// the user that [`user_of_claim`] reads from its claim `user_id`.
    pub fn from_authorization_header(header: Option<&[u8]>, secret: &[u8]) -> (admitted: Result<
        AuthenticatedUser,
        ApiError,
    >)
        ensures
            admitted matches Err(error) ==> error == ApiError::Unauthorized,
            match presented_token(header) {
                Some(token) => separators(token) < 2 ==> admitted is Err,
                None => admitted is Err,
            },
    {
        let token = match header {
            Some(value) => match bearer_token(value) {
                Some(token) => token,
                None => {
                    return Err(ApiError::Unauthorized);
                },
            },
            None => {
                return Err(ApiError::Unauthorized);
            },
        };
        match decode_token(token, secret) {
            Ok(claims) => AuthenticatedUser::from_claim(user_id_claim(&claims)),
            Err(_) => Err(ApiError::Unauthorized),
        }
    }
}

} // verus!
