//! Access to a job's stored files: who may read them, and what is answered
//! when they may not.

use vstd::prelude::*;

verus! {

/// Why a request for a job's files is refused.
#[derive(Debug, Clone, Copy, PartialEq, Eq, Structural)]
pub enum AccessDenial {
    /// No such job.
    NotFound,
    /// The job belongs to another user and the requester is no administrator.
    Forbidden,
    /// The job's files were purged.
    Purged,
}

impl AccessDenial {
    /// The HTTP status answered: 404, 403 or 410.
    pub fn status_code(&self) -> (res: u16)
        ensures
            res == match self {
                AccessDenial::NotFound => 404u16,
                AccessDenial::Forbidden => 403u16,
                AccessDenial::Purged => 410u16,
            },
    {
        match self {
            AccessDenial::NotFound => 404,
            AccessDenial::Forbidden => 403,
            AccessDenial::Purged => 410,
        }
    }
}

/// The messages a tool answers with for each refusal.
pub struct AccessMessages<'a> {
    pub not_found: &'a str,
    pub forbidden: &'a str,
    pub purged: &'a str,
}

impl<'a> AccessMessages<'a> {
    /// The message for a refusal.
    pub fn message_for(&self, denial: AccessDenial) -> (res: &'a str)
        ensures
            res@ == match denial {
                AccessDenial::NotFound => self.not_found@,
                AccessDenial::Forbidden => self.forbidden@,
                AccessDenial::Purged => self.purged@,
            },
    {
        match denial {
            AccessDenial::NotFound => self.not_found,
            AccessDenial::Forbidden => self.forbidden,
            AccessDenial::Purged => self.purged,
        }
    }
}

/// What is known of the job asked for: whether the requester owns it and
/// whether its files were purged.
#[derive(Debug, Clone, Copy, PartialEq, Eq, Structural)]
pub struct JobRecordAccess {
    pub owned_by_requester: bool,
    pub files_purged: bool,
}

/// Decides a request for a job's files: a missing job is not found; a job
/// of another user is forbidden unless the requester is an administrator;
/// a job whose files were purged is gone.
pub fn check_job_access(record: Option<JobRecordAccess>, requester_is_admin: bool) -> (res: Result<
    JobRecordAccess,
    AccessDenial,
>)
    ensures
        match record {
            None => res == Err::<JobRecordAccess, AccessDenial>(AccessDenial::NotFound),
            Some(r) => if !r.owned_by_requester && !requester_is_admin {
                res == Err::<JobRecordAccess, AccessDenial>(AccessDenial::Forbidden)
            } else if r.files_purged {
                res == Err::<JobRecordAccess, AccessDenial>(AccessDenial::Purged)
            } else {
                res == Ok::<JobRecordAccess, AccessDenial>(r)
            },
        },
{
    match record {
        None => Err(AccessDenial::NotFound),
        Some(r) => {
            if !r.owned_by_requester && !requester_is_admin {
                Err(AccessDenial::Forbidden)
            } else if r.files_purged {
                Err(AccessDenial::Purged)
            } else {
                Ok(r)
            }
        },
    }
}

} // verus!
