//! Canonical JSON payloads of the web handlers.

use vstd::prelude::*;

verus! {

/// Canonical JSON payload for error responses.
#[derive(Debug, Clone)]
pub struct ApiMessage {
    pub message: String,
}

impl ApiMessage {
    pub fn new(message: String) -> (res: Self)
        ensures
            res.message == message,
    {
        ApiMessage { message }
    }
}

/// Standard job submission response of the asynchronous tools: the job's
/// id in its hyphenated text form and the URL to poll for its status.
#[derive(Debug, Clone)]
pub struct JobSubmission {
    pub job_id: String,
    pub status_url: String,
}

impl JobSubmission {
    pub fn new(job_id: String, status_url: String) -> (res: Self)
        ensures
            res.job_id == job_id,
            res.status_url == status_url,
    {
        JobSubmission { job_id, status_url }
    }
}

/// An error answer: the HTTP status code and its JSON message.
pub fn json_error(status: u16, message: String) -> (res: (u16, ApiMessage))
    ensures
        res.0 == status,
        res.1.message == message,
{
    (status, ApiMessage::new(message))
}

/// A stored path that must be present; a missing one is answered with
/// 404 and the given message.
pub fn require_path(path: Option<String>, message: String) -> (res: Result<String, (u16, ApiMessage)>)
    ensures
        match path {
            Some(p) => res == Ok::<String, (u16, ApiMessage)>(p),
            None => res is Err && res->Err_0.0 == 404 && res->Err_0.1.message == message,
        },
{
    match path {
        Some(p) => Ok(p),
        None => Err(json_error(404, message)),
    }
}

} // verus!
