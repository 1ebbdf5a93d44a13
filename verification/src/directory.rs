//! The directory client's two ends: the bind to ask for, and the reading of
//! the directory's answer. The bind itself, one connection per attempt and
//! never repeated, is the caller's to perform.

use crate::errors::ConnectionError;
use crate::text::joined;
use vstd::prelude::*;

verus! {

/// Where the directory is, and under which entry its people are.
#[derive(Clone, Debug, PartialEq, Eq)]
pub struct Directory {
    pub url: String,
    pub base_dn: String,
    /// How long one attempt to connect may take, in seconds.
    pub timeout_secs: u64,
}

/// One bind to attempt: once, and within the timeout. It holds the
/// password, so it cannot be printed.
#[derive(Clone, PartialEq, Eq)]
pub struct BindRequest {
    pub url: String,
    pub dn: String,
    pub password: String,
    pub timeout_secs: u64,
}

/// The directory's answer to a bind: its result code, and the name it
/// matched.
#[derive(Clone, Debug, PartialEq, Eq)]
pub struct BindOutcome {
    pub rc: u32,
    pub matched: String,
}

/// Why a bind did not succeed.
#[derive(Clone, Copy, Debug, PartialEq, Eq, Structural)]
pub enum BindError {
    /// The directory could not be reached.
    ConnectionError,
    /// The directory answered with a result code other than 0.
    BindRejected { rc: u32 },
}

/// The distinguished name under which `username` binds.
pub open spec fn bind_dn(username: Seq<char>, base_dn: Seq<char>) -> Seq<char> {
    "uid="@ + username + ","@ + base_dn
}

/// The address of the directory on this machine.
pub open spec fn local_url() -> Seq<char> {
    "ldap://localhost:3890"@
}

/// The entry under which the people of the local directory are.
pub open spec fn local_base_dn() -> Seq<char> {
    "ou=people,dc=omaralkersh,dc=com"@
}

/// How a bind ended, read from the directory's answer alone.
pub open spec fn bind_result(answer: Result<BindOutcome, ConnectionError>) -> Result<
    BindOutcome,
    BindError,
> {
    match answer {
        Err(_) => Err(BindError::ConnectionError),
        Ok(outcome) => if outcome.rc == 0 {
            Ok(outcome)
        } else {
            Err(BindError::BindRejected { rc: outcome.rc })
        },
    }
}

impl Directory {
    /// Whether `request` is the bind that checks `password` for `username`
    /// at this directory.
    pub open spec fn asks(
        &self,
        request: BindRequest,
        username: Seq<char>,
        password: Seq<char>,
    ) -> bool {
        &&& request.url@ == self.url@
        &&& request.dn@ == bind_dn(username, self.base_dn@)
        &&& request.password@ == password
        &&& request.timeout_secs == self.timeout_secs
    }

    /// The directory on this machine.
    pub fn local() -> (directory: Directory)
        ensures
            directory.url@ == local_url(),
            directory.base_dn@ == local_base_dn(),
            directory.timeout_secs == 5,
    {
        Directory {
            url: "ldap://localhost:3890".to_owned(),
            base_dn: "ou=people,dc=omaralkersh,dc=com".to_owned(),
            timeout_secs: 5,
        }
    }

    /// The bind that checks `password` for `username`. There is none where
    /// either is empty. The username enters the name as it is.
    pub fn bind_request(&self, username: &str, password: &str) -> (r: Option<BindRequest>)
        ensures
            r is Some <==> username@.len() > 0 && password@.len() > 0,
            r matches Some(request) ==> self.asks(request, username@, password@),
    {
        if username.unicode_len() == 0 || password.unicode_len() == 0 {
            return None;
        }
        let named: String = joined("uid=", username);
        let placed: String = joined(named.as_str(), ",");
        let dn: String = joined(placed.as_str(), self.base_dn.as_str());
        Some(
            BindRequest {
                url: self.url.clone(),
                dn,
                password: password.to_owned(),
                timeout_secs: self.timeout_secs,
            },
        )
    }
}

impl BindOutcome {
    /// Whether the directory accepted the bind.
    pub fn accepted(&self) -> (r: bool)
        ensures
            r == (self.rc == 0),
    {
        self.rc == 0
    }
}

/// Reads the directory's answer: a bind succeeded exactly where the
/// directory answered with result code 0.
pub fn bind(answer: Result<BindOutcome, ConnectionError>) -> (r: Result<BindOutcome, BindError>)
    ensures
        r == bind_result(answer),
{
    match answer {
        Err(_) => Err(BindError::ConnectionError),
        Ok(outcome) => {
            if outcome.accepted() {
                Ok(outcome)
            } else {
                Err(BindError::BindRejected { rc: outcome.rc })
            }
        },
    }
}

} // verus!
