//! What the bot answers to a check of its health.

use crate::storage::{StorageBackend, StorageError};
use vstd::prelude::*;
use vstd::string::StringExecFns;

verus! {

/// An answer over HTTP: a status and a body.
#[derive(Debug, PartialEq, Eq)]
pub struct Response {
    pub status: u16,
    pub body: String,
}

/// The status that tells of the store's health: 200 where it is well, 500
/// where it is not.
pub open spec fn health_status(health: Result<(), StorageError>) -> u16 {
    match health {
        Ok(_) => 200,
        Err(_) => 500,
    }
}

/// The body that tells of the store's health.
pub open spec fn health_body(health: Result<(), StorageError>) -> Seq<char> {
    match health {
        Ok(_) => "OK"@,
        Err(e) => "Error: "@ + e.message_spec(),
    }
}

/// The answer that tells of a check of the store.
pub fn health_response(health: &Result<(), StorageError>) -> (response: Response)
    ensures
        response.status == health_status(*health),
        response.body@ == health_body(*health),
{
    match health {
        Ok(_) => Response { status: 200, body: String::from_str("OK") },
        Err(e) => {
            let mut body = String::from_str("Error: ");
            body.append(e.message().as_str());
            Response { status: 500, body }
        },
    }
}

/// Health check endpoint, returns 200 OK if storage is healthy
pub fn health_check<B: StorageBackend>(storage: &B) -> (response: Response)
    ensures
        storage.reliable() ==> response.status == 200 && response.body@ == "OK"@,
        response.status == 200 || response.status == 500,
        response.status == 200 ==> response.body@ == "OK"@,
{
    let health = storage.health_check();
    health_response(&health)
}

} // verus!
