//! The health check.

use crate::errors::{ServerError, StoreError};
use vstd::prelude::*;

verus! {

/// What the health check holds against the object store, if anything. The
/// probe is `None` where no client was set up, and otherwise the outcome of
/// one call to the store.
pub open spec fn health_issue(probe: Option<Result<(), StoreError>>) -> Option<Seq<char>> {
    match probe {
        None => Some("S3 client not initialized"@),
        Some(Err(_)) => Some("S3 client is not healthy"@),
        Some(Ok(_)) => None,
    }
}

/// The health check: "OK" where the store answered the probe, and otherwise
/// the one issue found.
pub fn health(probe: Option<Result<(), StoreError>>) -> (r: Result<String, ServerError>)
    ensures
        match health_issue(probe) {
            None => r is Ok && r->Ok_0@ == "OK"@,
            Some(issue) => {
                &&& r matches Err(ServerError::HealthCheckError { errors })
                &&& errors@.len() == 1
                &&& errors@[0]@ == issue
            },
        },
{
    let mut issues: Vec<String> = Vec::new();
    match probe {
        Some(Ok(_)) => {},
        Some(Err(_)) => {
            issues.push("S3 client is not healthy".to_owned());
        },
        None => {
            issues.push("S3 client not initialized".to_owned());
        },
    }
    if issues.len() == 0 {
        Ok("OK".to_owned())
    } else {
        Err(ServerError::HealthCheckError { errors: issues })
    }
}

} // verus!
