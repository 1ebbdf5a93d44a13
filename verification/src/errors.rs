//! The errors of each component, and the uniform envelope into which they are
//! translated where a response leaves the gateway.

use crate::text::joined;
use vstd::prelude::*;

verus! {

/// Why a request that needs a session, or a login, was turned down.
#[derive(Clone, Copy, Debug, PartialEq, Eq, Structural)]
pub enum AuthError {
    /// The credentials or the session were missing or wrong. Which of these
    /// it was is deliberately not told.
    Unauthorized,
    /// The directory could not be reached.
    ServiceUnavailable,
}

/// What went wrong between the proxy and the object store. No variant carries
/// text of the store's own error.
#[derive(Clone, Copy, Debug, PartialEq, Eq, Structural)]
pub enum UpstreamFault {
    /// The listing call failed.
    ListingFailed,
    /// The listing came back without a contents field.
    NoContents,
    /// An entry of the listing came back without a key.
    NoKey,
    /// The fetch call failed.
    FetchFailed,
    /// The object's body could not be read to its end.
    BodyUnreadable,
    /// The store reported no content type for the object.
    NoContentType,
}

/// Why the object proxy did not answer a request.
#[derive(Clone, Copy, Debug, PartialEq, Eq, Structural)]
pub enum ProxyError {
    /// A required parameter was missing; the store was not asked.
    BadRequest,
    /// The store failed, or its answer lacked a field.
    UpstreamFailure(UpstreamFault),
}

/// A token that does not verify under the key.
#[derive(Clone, Copy, Debug, PartialEq, Eq, Structural)]
pub struct InvalidToken;

/// The directory could not be reached, or the connection broke.
#[derive(Clone, Copy, Debug, PartialEq, Eq, Structural)]
pub struct ConnectionError;

/// The object store's call failed. The store's own words are left behind
/// where the call was made.
#[derive(Clone, Copy, Debug, PartialEq, Eq, Structural)]
pub struct StoreError;

impl UpstreamFault {
    /// Whether the fault belongs to listing rather than fetching.
    pub open spec fn of_listing(self) -> bool {
        self == UpstreamFault::ListingFailed || self == UpstreamFault::NoContents || self
            == UpstreamFault::NoKey
    }

    /// The fixed text that names the fault.
    pub open spec fn reason_spec(self) -> Seq<char> {
        match self {
            UpstreamFault::ListingFailed => "Object store request failed"@,
            UpstreamFault::NoContents => "No contents"@,
            UpstreamFault::NoKey => "No key"@,
            UpstreamFault::FetchFailed => "Object store request failed"@,
            UpstreamFault::BodyUnreadable => "Unreadable body"@,
            UpstreamFault::NoContentType => "No content type"@,
        }
    }

    /// The fixed text that names the fault.
    pub fn reason(self) -> (text: String)
        ensures
            text@ == self.reason_spec(),
    {
        match self {
            UpstreamFault::ListingFailed => "Object store request failed".to_owned(),
            UpstreamFault::NoContents => "No contents".to_owned(),
            UpstreamFault::NoKey => "No key".to_owned(),
            UpstreamFault::FetchFailed => "Object store request failed".to_owned(),
            UpstreamFault::BodyUnreadable => "Unreadable body".to_owned(),
            UpstreamFault::NoContentType => "No content type".to_owned(),
        }
    }
}

/// The status of a response to a request that lacks a parameter.
pub const BAD_REQUEST: u16 = 400;

/// The status of a response to a request without a valid session, or to a
/// login with wrong credentials.
pub const UNAUTHORIZED: u16 = 401;

/// The status of a response where the gateway or a service behind it failed.
pub const INTERNAL_SERVER_ERROR: u16 = 500;

/// The envelope in which every error leaves the gateway.
#[derive(Clone, Debug, PartialEq, Eq)]
pub enum ServerError {
    HealthCheckError { errors: Vec<String> },
    ListObjectsError { message: String },
    GetObjectError { message: String },
    LoginError { code: u16, message: String },
    BadRequest { message: String },
}

/// An error as the client sees it: a status and a message.
#[derive(Clone, Debug, PartialEq, Eq)]
pub struct ErrorResponse {
    pub status: u16,
    pub message: String,
}

/// The text that `{:?}` gives for a list of strings.
pub uninterp spec fn debug_text(items: Seq<Seq<char>>) -> Seq<char>;

/// `std::fmt::Debug` for `Vec<String>`, through `format!`.
///
/// Claimed and not proved: the text is a function of the strings alone, named
/// `debug_text`.
#[verifier::external_body]
fn debug_list(items: &Vec<String>) -> (text: String)
    ensures
        text@ == debug_text(items.deep_view()),
{
    format!("{:?}", items)
}

impl AuthError {
    /// The status with which the error leaves the gateway.
    pub open spec fn code_spec(self) -> u16 {
        match self {
            AuthError::Unauthorized => UNAUTHORIZED,
            AuthError::ServiceUnavailable => INTERNAL_SERVER_ERROR,
        }
    }

    /// The fixed text of the error. It tells nothing of the cause beyond the
    /// variant.
    pub open spec fn reason_spec(self) -> Seq<char> {
        match self {
            AuthError::Unauthorized => "Not logged in"@,
            AuthError::ServiceUnavailable => "Failed to connect to LDAP server"@,
        }
    }
}

impl ServerError {
    /// The status of the response for this error.
    pub open spec fn status_spec(&self) -> u16 {
        match self {
            ServerError::HealthCheckError { .. } => INTERNAL_SERVER_ERROR,
            ServerError::ListObjectsError { .. } => INTERNAL_SERVER_ERROR,
            ServerError::GetObjectError { .. } => INTERNAL_SERVER_ERROR,
            ServerError::LoginError { code, .. } => *code,
            ServerError::BadRequest { .. } => BAD_REQUEST,
        }
    }

    /// The message of the response for this error.
    pub open spec fn message_spec(&self) -> Seq<char> {
        match self {
            ServerError::HealthCheckError { errors } => {
                "Failed the health check with the following errors: "@ + debug_text(
                    errors.deep_view(),
                )
            },
            ServerError::ListObjectsError { message } => {
                "Failed to retrieve objects list: "@ + message@
            },
            ServerError::GetObjectError { message } => "Failed to get object: "@ + message@,
            ServerError::LoginError { message, .. } => message@,
            ServerError::BadRequest { message } => "Bad request: "@ + message@,
        }
    }

    /// The envelope for an error of the auth gateway.
    pub fn from_auth(error: AuthError) -> (r: ServerError)
        ensures
            r matches ServerError::LoginError { code, message } && code == error.code_spec()
                && message@ == error.reason_spec(),
    {
        match error {
            AuthError::Unauthorized => ServerError::LoginError {
                code: UNAUTHORIZED,
                message: "Not logged in".to_owned(),
            },
            AuthError::ServiceUnavailable => ServerError::LoginError {
                code: INTERNAL_SERVER_ERROR,
                message: "Failed to connect to LDAP server".to_owned(),
            },
        }
    }

    /// The envelope for an error of the object proxy. The variant tells the
    /// operation; the message is the fault's fixed text.
    pub fn from_proxy(error: ProxyError) -> (r: ServerError)
        ensures
            match error {
                ProxyError::BadRequest => r matches ServerError::BadRequest { message }
                    && message@ == "No file path"@,
                ProxyError::UpstreamFailure(fault) => if fault.of_listing() {
                    r matches ServerError::ListObjectsError { message } && message@
                        == fault.reason_spec()
                } else {
                    r matches ServerError::GetObjectError { message } && message@
                        == fault.reason_spec()
                },
            },
    {
        match error {
            ProxyError::BadRequest => ServerError::BadRequest {
                message: "No file path".to_owned(),
            },
            ProxyError::UpstreamFailure(fault) => {
                let message: String = fault.reason();
                match fault {
                    UpstreamFault::ListingFailed | UpstreamFault::NoContents | UpstreamFault::NoKey => {
                        ServerError::ListObjectsError { message }
                    },
                    _ => ServerError::GetObjectError { message },
                }
            },
        }
    }

    /// The status of the response for this error.
    pub fn status(&self) -> (code: u16)
        ensures
            code == self.status_spec(),
    {
        match self {
            ServerError::HealthCheckError { .. } => INTERNAL_SERVER_ERROR,
            ServerError::ListObjectsError { .. } => INTERNAL_SERVER_ERROR,
            ServerError::GetObjectError { .. } => INTERNAL_SERVER_ERROR,
            ServerError::LoginError { code, .. } => *code,
            ServerError::BadRequest { .. } => BAD_REQUEST,
        }
    }

    /// The message of the response for this error.
    pub fn message(&self) -> (text: String)
        ensures
            text@ == self.message_spec(),
    {
        match self {
            ServerError::HealthCheckError { errors } => {
                let listed: String = debug_list(errors);
                joined("Failed the health check with the following errors: ", listed.as_str())
            },
            ServerError::ListObjectsError { message } => {
                joined("Failed to retrieve objects list: ", message.as_str())
            },
            ServerError::GetObjectError { message } => {
                joined("Failed to get object: ", message.as_str())
            },
            ServerError::LoginError { message, .. } => message.clone(),
            ServerError::BadRequest { message } => joined("Bad request: ", message.as_str()),
        }
    }

    /// The response that carries this error to the client.
    pub fn error_response(&self) -> (response: ErrorResponse)
        ensures
            response.status == self.status_spec(),
            response.message@ == self.message_spec(),
    {
        ErrorResponse { status: self.status(), message: self.message() }
    }
}

} // verus!
