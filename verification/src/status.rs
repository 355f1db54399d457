//! Shared job status vocabulary used by every asynchronous module.

use vstd::prelude::*;

use crate::text::str_eq;

verus! {

/// Lifecycle state of a background job as stored in the database.
#[derive(Debug, Clone, PartialEq, Eq)]
pub enum JobStatus {
    Pending,
    Processing,
    Completed,
    Failed,
    Queued,
    Other(String),
}

/// Whether `text` is one of the five statuses the modules write themselves.
pub open spec fn is_canonical_status(text: Seq<char>) -> bool {
    ||| text == "pending"@
    ||| text == "processing"@
    ||| text == "completed"@
    ||| text == "failed"@
    ||| text == "queued"@
}

/// `status` is what parsing `text` gives: it prints back as `text`, and it is
/// a named variant exactly when `text` is canonical.
pub open spec fn parses_to(text: Seq<char>, status: JobStatus) -> bool {
    &&& status.spec_str() == text
    &&& (status is Other <==> !is_canonical_status(text))
}

impl JobStatus {
    /// The database spelling of the status.
    pub open spec fn spec_str(&self) -> Seq<char> {
        match self {
            JobStatus::Pending => "pending"@,
            JobStatus::Processing => "processing"@,
            JobStatus::Completed => "completed"@,
            JobStatus::Failed => "failed"@,
            JobStatus::Queued => "queued"@,
            JobStatus::Other(value) => value@,
        }
    }

    /// The Chinese label shown to users; unknown statuses are shown verbatim.
    pub open spec fn spec_label_zh(&self) -> Seq<char> {
        match self {
            JobStatus::Pending => "待处理"@,
            JobStatus::Processing => "处理中"@,
            JobStatus::Completed => "已完成"@,
            JobStatus::Failed => "已失败"@,
            JobStatus::Queued => "排队中"@,
            JobStatus::Other(value) => value@,
        }
    }

    pub fn as_str(&self) -> (res: &str)
        ensures
            res@ == self.spec_str(),
    {
        match self {
            JobStatus::Pending => "pending",
            JobStatus::Processing => "processing",
            JobStatus::Completed => "completed",
            JobStatus::Failed => "failed",
            JobStatus::Queued => "queued",
            JobStatus::Other(value) => value.as_str(),
        }
    }

    pub fn label_zh(&self) -> (res: &str)
        ensures
            res@ == self.spec_label_zh(),
    {
        match self {
            JobStatus::Pending => "待处理",
            JobStatus::Processing => "处理中",
            JobStatus::Completed => "已完成",
            JobStatus::Failed => "已失败",
            JobStatus::Queued => "排队中",
            JobStatus::Other(value) => value.as_str(),
        }
    }

    pub fn from_str(value: &str) -> (res: Self)
        ensures
            parses_to(value@, res),
    {
        proof {
            lemma_status_literals_distinct();
        }
        if str_eq(value, "pending") {
            JobStatus::Pending
        } else if str_eq(value, "processing") {
            JobStatus::Processing
        } else if str_eq(value, "completed") {
            JobStatus::Completed
        } else if str_eq(value, "failed") {
            JobStatus::Failed
        } else if str_eq(value, "queued") {
            JobStatus::Queued
        } else {
            JobStatus::Other(value.to_owned())
        }
    }
}

proof fn lemma_status_literals_distinct()
    ensures
        "pending"@ != "processing"@,
        "pending"@ != "completed"@,
        "pending"@ != "failed"@,
        "pending"@ != "queued"@,
        "processing"@ != "completed"@,
        "processing"@ != "failed"@,
        "processing"@ != "queued"@,
        "completed"@ != "failed"@,
        "completed"@ != "queued"@,
        "failed"@ != "queued"@,
{
    reveal_strlit("pending");
    reveal_strlit("processing");
    reveal_strlit("completed");
    reveal_strlit("failed");
    reveal_strlit("queued");
    assert("pending"@.len() != "processing"@.len());
    assert("pending"@.len() != "completed"@.len());
    assert("pending"@[0] != "failed"@[0]);
    assert("pending"@.len() != "queued"@.len());
    assert("processing"@.len() != "completed"@.len());
    assert("processing"@.len() != "failed"@.len());
    assert("processing"@.len() != "queued"@.len());
    assert("completed"@.len() != "failed"@.len());
    assert("completed"@.len() != "queued"@.len());
    assert("failed"@[0] != "queued"@[0]);
}

/// Parsing the text of a status gives the same status back: a named status
/// parses to itself, and an unknown status parses to an unknown status with
/// the same text.
pub proof fn lemma_status_text_round_trip(status: JobStatus, parsed: JobStatus)
    requires
        status is Other ==> !is_canonical_status(status.spec_str()),
        parses_to(status.spec_str(), parsed),
    ensures
        status is Other ==> parsed is Other && parsed.spec_str() == status.spec_str(),
        !(status is Other) ==> parsed == status,
{
    lemma_status_literals_distinct();
}

/// Printing a parsed status gives the original text back, whatever the text.
pub proof fn lemma_status_parse_print(text: Seq<char>, parsed: JobStatus)
    requires
        parses_to(text, parsed),
    ensures
        parsed.spec_str() == text,
        parsed is Other ==> parsed.spec_label_zh() == text,
{
}

} // verus!
