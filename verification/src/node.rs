//! How a node finds the secret that authenticates it to its execution
//! engine. Reading and writing files is the caller's part; which text is
//! parsed, and what happens where none is there, is decided here.

use vstd::prelude::*;

verus! {

/// The 32 bytes that a text holds as a secret in hexadecimal, as the engine
/// API crate parses it; `None` where the text holds no secret.
pub uninterp spec fn jwt_secret_of_hex(hex: Seq<char>) -> Option<Seq<u8>>;

/// Calls `alloy_rpc_types_engine::JwtSecret::from_hex` on the text and hands
/// out the bytes of the secret, or `None` where the call fails. The contract
/// claims that the outcome is a function of the text, named
/// `jwt_secret_of_hex`, and that a secret has 32 bytes.
#[verifier::external_body]
pub(crate) fn jwt_secret_from_hex(hex: &str) -> (secret: Option<Vec<u8>>)
    ensures
        secret.deep_view() == jwt_secret_of_hex(hex@),
        secret matches Some(bytes) ==> bytes@.len() == 32,
{
    match alloy_rpc_types_engine::JwtSecret::from_hex(hex) {
        Ok(secret) => Some(secret.as_bytes().to_vec()),
        Err(_) => None,
    }
}

/// What the look at the configured file leads to.
#[derive(Debug, PartialEq, Eq)]
pub enum JwtSecretChoice {
    /// The search has ended: with the bytes of the secret, or without a
    /// secret.
    Resolved(Option<Vec<u8>>),
    /// The default location is to be tried.
    UseDefault,
}

/// What the look at the default location leads to.
#[derive(Debug, PartialEq, Eq)]
pub enum DefaultJwtSecretChoice {
    /// The search has ended: with the bytes of the secret, or without a
    /// secret.
    Resolved(Option<Vec<u8>>),
    /// No secret is stored: a random one is to be made, stored and used.
    Generate,
}

impl View for JwtSecretChoice {
    type V = Option<Option<Seq<u8>>>;

    /// `None` for the fallback to the default location.
    open spec fn view(&self) -> Option<Option<Seq<u8>>> {
        match self {
            JwtSecretChoice::Resolved(secret) => Some(secret.deep_view()),
            JwtSecretChoice::UseDefault => None,
        }
    }
}

impl View for DefaultJwtSecretChoice {
    type V = Option<Option<Seq<u8>>>;

    /// `None` for the order to make a new secret.
    open spec fn view(&self) -> Option<Option<Seq<u8>>> {
        match self {
            DefaultJwtSecretChoice::Resolved(secret) => Some(secret.deep_view()),
            DefaultJwtSecretChoice::Generate => None,
        }
    }
}

/// The choice after the configured file: where its text could be read, the
/// text decides, also where it holds no secret; otherwise the default
/// location is tried.
pub open spec fn spec_jwt_secret(configured: Option<Seq<char>>) -> Option<Option<Seq<u8>>> {
    match configured {
        Some(text) => Some(jwt_secret_of_hex(text)),
        None => None,
    }
}

/// The choice at the default location: without a current directory there is
/// no secret; a stored text decides, also where it holds no secret; where
/// nothing is stored a new secret is made.
pub open spec fn spec_default_jwt_secret(current_dir_known: bool, stored: Option<Seq<char>>) -> Option<
    Option<Seq<u8>>,
> {
    if !current_dir_known {
        Some(None)
    } else {
        match stored {
            Some(text) => Some(jwt_secret_of_hex(text)),
            None => None,
        }
    }
}

/// The view of a text that may be absent.
pub open spec fn text_view(text: Option<String>) -> Option<Seq<char>> {
    match text {
        Some(t) => Some(t@),
        None => None,
    }
}

/// Decides on the secret from the text of the configured file: `configured`
/// is `None` where no file is configured or the file could not be read.
pub fn jwt_secret(configured: Option<String>) -> (choice: JwtSecretChoice)
    ensures
        choice@ == spec_jwt_secret(text_view(configured)),
        choice matches JwtSecretChoice::Resolved(Some(bytes)) ==> bytes@.len() == 32,
{
    match configured {
        Some(text) => JwtSecretChoice::Resolved(jwt_secret_from_hex(text.as_str())),
        None => JwtSecretChoice::UseDefault,
    }
}

/// Decides on the secret at the default location: `stored` is the text of the
/// file there, or `None` where it could not be read.
pub fn default_jwt_secret(current_dir_known: bool, stored: Option<String>) -> (choice:
    DefaultJwtSecretChoice)
    ensures
        choice@ == spec_default_jwt_secret(current_dir_known, text_view(stored)),
        choice matches DefaultJwtSecretChoice::Resolved(Some(bytes)) ==> bytes@.len() == 32,
{
    if !current_dir_known {
        return DefaultJwtSecretChoice::Resolved(None);
    }
    match stored {
        Some(text) => DefaultJwtSecretChoice::Resolved(jwt_secret_from_hex(text.as_str())),
        None => DefaultJwtSecretChoice::Generate,
    }
}

} // verus!
