//! The failures of the service, and how each is shown to a client.
//!
//! Every failure has a stable kind, an HTTP status and a client-facing
//! category. The boundary layer needs nothing but these three.

use vstd::prelude::*;

verus! {

/// Shorthand for results that fail with an [`Error`].
pub type Result<T> = core::result::Result<T, Error>;

/// HTTP status for a request without usable credentials.
pub const STATUS_UNAUTHORIZED: u16 = 401;

/// HTTP status for a request whose credentials or input are not acceptable.
pub const STATUS_BAD_REQUEST: u16 = 400;

/// HTTP status for a failure on the server's side.
pub const STATUS_INTERNAL_SERVER_ERROR: u16 = 500;

/// What can go wrong while a request is served.
#[derive(Clone, Copy, Debug, PartialEq, Eq, Structural)]
pub enum Error {
    /// The session token is genuine but past its expiry.
    AuthExpired,
    /// A handler asked for the caller's identity, but the request was never
    /// put through resolution.
    AuthFailCtxNotInRequestExt,
    /// The `Authorization` header is not of the form `Bearer <token>`.
    InvalidAuthHeader,
    /// Unknown user or wrong password at sign-in.
    InvalidCredentials,
    /// The API key is malformed, or its digest is not on record.
    InvalidToken,
    /// A session token could not be signed.
    JWTTokenCreationError,
    /// The session token is malformed or its signature does not match.
    JWTValidationError,
    /// The request carries neither a session token nor an API key.
    MissingAuth,
    /// The two passwords given at sign-up differ.
    PasswordConfirmMismatch,
    /// The user name asked for at sign-up is taken.
    UsernameExists,
    /// Links could not be cleared.
    ClearLinksFail,
    /// A link could not be stored.
    CreateLinkFail,
    /// An API key could not be deleted.
    DeleteTokenFail,
    /// Links could not be read.
    GetLinksFail,
    /// Users could not be read.
    GetUsersFail,
    /// API keys could not be read.
    GetTokensFail,
    /// The identifier of the API key to delete is not of the form
    /// `table:record`.
    InvalidDeleteToken,
    /// The stored credentials of a user could not be read at sign-in.
    SignInFail,
    /// A new user could not be stored.
    SignUpFail,
    /// The caller's identity could not be built.
    CtxCreationFail,
    /// A required configuration value is missing.
    MissingEnvVar,
    /// A new API key could not be stored.
    GenTokenFail,
    /// The caller's identifier is not of the form `table:record`.
    SplitUserIdFail,
}

/// The category of a failure that a client gets to see.
#[allow(non_camel_case_types)]
#[derive(Clone, Copy, Debug, PartialEq, Eq, Structural)]
pub enum ClientError {
    LOGIN_FAILED,
    NO_AUTH,
    INVALID_AUTH,
    AUTH_EXPIRED,
    SERVICE_ERROR,
    USERNAME_EXISTS,
}

/// The request came without credentials that could be looked at, or with
/// credentials that have run out: the caller has to authenticate again.
pub open spec fn is_unauthorized(error: Error) -> bool {
    error is AuthExpired || error is AuthFailCtxNotInRequestExt || error is MissingAuth
}

/// The request itself is at fault: what it carries is malformed or not valid.
pub open spec fn is_bad_request(error: Error) -> bool {
    ||| error is UsernameExists
    ||| error is JWTValidationError
    ||| error is PasswordConfirmMismatch
    ||| error is InvalidAuthHeader
    ||| error is InvalidToken
    ||| error is InvalidCredentials
    ||| error is InvalidDeleteToken
    ||| error is GenTokenFail
    ||| error is SplitUserIdFail
}

/// The HTTP status that stands for `error`: one of 401, 400 and 500.
pub open spec fn http_status(error: Error) -> u16 {
    if is_unauthorized(error) {
        STATUS_UNAUTHORIZED
    } else if is_bad_request(error) {
        STATUS_BAD_REQUEST
    } else {
        STATUS_INTERNAL_SERVER_ERROR
    }
}

/// A credential was looked at and turned down: the session token has run
/// out or is not genuine, or the API key is not on record.
pub open spec fn is_credential_invalid(error: Error) -> bool {
    error is AuthExpired || error is JWTValidationError || error is InvalidToken
}

/// The category under which a client is told of `error`. A credential that
/// was turned down is shown under one category, whatever it was turned down
/// for.
pub open spec fn client_error(error: Error) -> ClientError {
    if error is AuthFailCtxNotInRequestExt || error is MissingAuth {
        ClientError::NO_AUTH
    } else if error is UsernameExists {
        ClientError::USERNAME_EXISTS
    } else if is_credential_invalid(error) || is_bad_request(error) {
        ClientError::INVALID_AUTH
    } else {
        ClientError::SERVICE_ERROR
    }
}

/// The stable kind tag of `error`: the variant's name.
pub open spec fn error_name(error: Error) -> Seq<char> {
    match error {
        Error::AuthExpired => "AuthExpired"@,
        Error::AuthFailCtxNotInRequestExt => "AuthFailCtxNotInRequestExt"@,
        Error::InvalidAuthHeader => "InvalidAuthHeader"@,
        Error::InvalidCredentials => "InvalidCredentials"@,
        Error::InvalidToken => "InvalidToken"@,
        Error::JWTTokenCreationError => "JWTTokenCreationError"@,
        Error::JWTValidationError => "JWTValidationError"@,
        Error::MissingAuth => "MissingAuth"@,
        Error::PasswordConfirmMismatch => "PasswordConfirmMismatch"@,
        Error::UsernameExists => "UsernameExists"@,
        Error::ClearLinksFail => "ClearLinksFail"@,
        Error::CreateLinkFail => "CreateLinkFail"@,
        Error::DeleteTokenFail => "DeleteTokenFail"@,
        Error::GetLinksFail => "GetLinksFail"@,
        Error::GetUsersFail => "GetUsersFail"@,
        Error::GetTokensFail => "GetTokensFail"@,
        Error::InvalidDeleteToken => "InvalidDeleteToken"@,
        Error::SignInFail => "SignInFail"@,
        Error::SignUpFail => "SignUpFail"@,
        Error::CtxCreationFail => "CtxCreationFail"@,
        Error::MissingEnvVar => "MissingEnvVar"@,
        Error::GenTokenFail => "GenTokenFail"@,
        Error::SplitUserIdFail => "SplitUserIdFail"@,
    }
}

/// The name of a client-facing category, as it is sent in a response body.
pub open spec fn client_error_name(category: ClientError) -> Seq<char> {
    match category {
        ClientError::LOGIN_FAILED => "LOGIN_FAILED"@,
        ClientError::NO_AUTH => "NO_AUTH"@,
        ClientError::INVALID_AUTH => "INVALID_AUTH"@,
        ClientError::AUTH_EXPIRED => "AUTH_EXPIRED"@,
        ClientError::SERVICE_ERROR => "SERVICE_ERROR"@,
        ClientError::USERNAME_EXISTS => "USERNAME_EXISTS"@,
    }
}

impl Error {
    /// The HTTP status and the client-facing category of this failure.
    pub fn client_status_and_error(&self) -> (shown: (u16, ClientError))
        ensures
            shown.0 == http_status(*self),
            shown.1 == client_error(*self),
    {
        match self {
            Self::AuthExpired => (STATUS_UNAUTHORIZED, ClientError::INVALID_AUTH),
            Self::AuthFailCtxNotInRequestExt | Self::MissingAuth => (
                STATUS_UNAUTHORIZED,
                ClientError::NO_AUTH,
            ),
            Self::UsernameExists => (STATUS_BAD_REQUEST, ClientError::USERNAME_EXISTS),
            Self::JWTValidationError
            | Self::PasswordConfirmMismatch
            | Self::InvalidAuthHeader
            | Self::InvalidToken
            | Self::InvalidCredentials
            | Self::InvalidDeleteToken
            | Self::GenTokenFail
            | Self::SplitUserIdFail => (STATUS_BAD_REQUEST, ClientError::INVALID_AUTH),
            Self::ClearLinksFail
            | Self::CreateLinkFail
            | Self::DeleteTokenFail
            | Self::GetLinksFail
            | Self::GetUsersFail
            | Self::GetTokensFail
            | Self::JWTTokenCreationError
            | Self::SignInFail
            | Self::SignUpFail
            | Self::CtxCreationFail
            | Self::MissingEnvVar => (STATUS_INTERNAL_SERVER_ERROR, ClientError::SERVICE_ERROR),
        }
    }

    /// The stable kind tag of this failure, for logs and metrics.
    pub fn as_str(&self) -> (name: &'static str)
        ensures
            name@ == error_name(*self),
    {
        match self {
            Self::AuthExpired => "AuthExpired",
            Self::AuthFailCtxNotInRequestExt => "AuthFailCtxNotInRequestExt",
            Self::InvalidAuthHeader => "InvalidAuthHeader",
            Self::InvalidCredentials => "InvalidCredentials",
            Self::InvalidToken => "InvalidToken",
            Self::JWTTokenCreationError => "JWTTokenCreationError",
            Self::JWTValidationError => "JWTValidationError",
            Self::MissingAuth => "MissingAuth",
            Self::PasswordConfirmMismatch => "PasswordConfirmMismatch",
            Self::UsernameExists => "UsernameExists",
            Self::ClearLinksFail => "ClearLinksFail",
            Self::CreateLinkFail => "CreateLinkFail",
            Self::DeleteTokenFail => "DeleteTokenFail",
            Self::GetLinksFail => "GetLinksFail",
            Self::GetUsersFail => "GetUsersFail",
            Self::GetTokensFail => "GetTokensFail",
            Self::InvalidDeleteToken => "InvalidDeleteToken",
            Self::SignInFail => "SignInFail",
            Self::SignUpFail => "SignUpFail",
            Self::CtxCreationFail => "CtxCreationFail",
            Self::MissingEnvVar => "MissingEnvVar",
            Self::GenTokenFail => "GenTokenFail",
            Self::SplitUserIdFail => "SplitUserIdFail",
        }
    }
}

impl ClientError {
    /// The name of this category, as it is sent in a response body.
    pub fn as_str(&self) -> (name: &'static str)
        ensures
            name@ == client_error_name(*self),
    {
        match self {
            Self::LOGIN_FAILED => "LOGIN_FAILED",
            Self::NO_AUTH => "NO_AUTH",
            Self::INVALID_AUTH => "INVALID_AUTH",
            Self::AUTH_EXPIRED => "AUTH_EXPIRED",
            Self::SERVICE_ERROR => "SERVICE_ERROR",
            Self::USERNAME_EXISTS => "USERNAME_EXISTS",
        }
    }
}

/// A client is not told why a credential was turned down: an expired token,
/// a forged one and an unknown key are shown under the same category.
pub proof fn lemma_credential_failures_look_alike(left: Error, right: Error)
    requires
        is_credential_invalid(left),
        is_credential_invalid(right),
    ensures
        client_error(left) == client_error(right),
        client_error(left) == ClientError::INVALID_AUTH,
{
}

/// The status goes with the category shown to the client: a failure of the
/// service is answered with 500 and no other failure is, a request without
/// credentials with 401, and a failure of the request with 400, but for the
/// expired token, which is answered with 401.
pub proof fn lemma_status_matches_category(error: Error)
    ensures
        http_status(error) == STATUS_INTERNAL_SERVER_ERROR <==> client_error(error)
            is SERVICE_ERROR,
        client_error(error) is NO_AUTH ==> http_status(error) == STATUS_UNAUTHORIZED,
        client_error(error) is USERNAME_EXISTS ==> http_status(error) == STATUS_BAD_REQUEST,
        client_error(error) is INVALID_AUTH ==> (if error is AuthExpired {
            http_status(error) == STATUS_UNAUTHORIZED
        } else {
            http_status(error) == STATUS_BAD_REQUEST
        }),
        !(client_error(error) is AUTH_EXPIRED) && !(client_error(error) is LOGIN_FAILED),
{
}

} // verus!
