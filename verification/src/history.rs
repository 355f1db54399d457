//! The job history: which modules keep one, how long entries live, how many
//! are listed, and where each module's job statuses are stored.

use vstd::prelude::*;

use crate::text::str_eq;
use crate::usage::{MODULE_GRADER, MODULE_INFO_EXTRACT, MODULE_REVIEWER, MODULE_SUMMARIZER, MODULE_TRANSLATE_DOCX};

verus! {

/// Hours a history entry is kept.
pub const HISTORY_RETENTION_HOURS: i64 = 24;

/// Most entries listed, and kept per user and module.
pub const HISTORY_LIMIT: i64 = 50;

/// How a module's jobs appear in the history.
#[derive(Debug, Clone, Copy)]
pub struct ModuleMetadata {
    pub key: &'static str,
    pub label: &'static str,
    pub tool_path: &'static str,
    pub status_path_prefix: &'static str,
    pub supports_downloads: bool,
}

/// The metadata of the module with key `key`, from the table of modules.
pub open spec fn metadata_for(key: Seq<char>) -> Option<(Seq<char>, Seq<char>, Seq<char>, bool)> {
    if key == MODULE_SUMMARIZER@ {
        Some(("摘要与翻译"@, "/tools/summarizer"@, "/api/summarizer/jobs/"@, true))
    } else if key == MODULE_INFO_EXTRACT@ {
        Some(("信息提取"@, "/tools/infoextract"@, "/api/infoextract/jobs/"@, true))
    } else if key == MODULE_TRANSLATE_DOCX@ {
        Some(("DOCX 翻译"@, "/tools/translatedocx"@, "/api/translatedocx/jobs/"@, true))
    } else if key == MODULE_GRADER@ {
        Some(("稿件评估"@, "/tools/grader"@, "/api/grader/jobs/"@, false))
    } else if key == MODULE_REVIEWER@ {
        Some(("审稿助手"@, "/tools/referee"@, "/api/referee/jobs/"@, true))
    } else {
        None
    }
}

/// The metadata of the module with key `key`, if it keeps a history.
pub fn module_metadata(key: &str) -> (res: Option<ModuleMetadata>)
    ensures
        match metadata_for(key@) {
            Some((label, tool, status, downloads)) => res matches Some(m) && m.key@ == key@ && m.label@ == label
                && m.tool_path@ == tool && m.status_path_prefix@ == status && m.supports_downloads == downloads,
            None => res is None,
        },
{
    if str_eq(key, MODULE_SUMMARIZER) {
        Some(ModuleMetadata {
            key: MODULE_SUMMARIZER,
            label: "摘要与翻译",
            tool_path: "/tools/summarizer",
            status_path_prefix: "/api/summarizer/jobs/",
            supports_downloads: true,
        })
    } else if str_eq(key, MODULE_INFO_EXTRACT) {
        Some(ModuleMetadata {
            key: MODULE_INFO_EXTRACT,
            label: "信息提取",
            tool_path: "/tools/infoextract",
            status_path_prefix: "/api/infoextract/jobs/",
            supports_downloads: true,
        })
    } else if str_eq(key, MODULE_TRANSLATE_DOCX) {
        Some(ModuleMetadata {
            key: MODULE_TRANSLATE_DOCX,
            label: "DOCX 翻译",
            tool_path: "/tools/translatedocx",
            status_path_prefix: "/api/translatedocx/jobs/",
            supports_downloads: true,
        })
    } else if str_eq(key, MODULE_GRADER) {
        Some(ModuleMetadata {
            key: MODULE_GRADER,
            label: "稿件评估",
            tool_path: "/tools/grader",
            status_path_prefix: "/api/grader/jobs/",
            supports_downloads: false,
        })
    } else if str_eq(key, MODULE_REVIEWER) {
        Some(ModuleMetadata {
            key: MODULE_REVIEWER,
            label: "审稿助手",
            tool_path: "/tools/referee",
            status_path_prefix: "/api/referee/jobs/",
            supports_downloads: true,
        })
    } else {
        None
    }
}

/// The number of entries a listing asks for, brought into `1..=50`.
pub fn history_limit(limit: i64) -> (res: i64)
    ensures
        res == (if limit < 1 {
            1
        } else if limit > HISTORY_LIMIT {
            HISTORY_LIMIT
        } else {
            limit
        }),
{
    if limit < 1 {
        1
    } else if limit > HISTORY_LIMIT {
        HISTORY_LIMIT
    } else {
        limit
    }
}

/// How a module's job keys identify its jobs.
#[derive(Debug, Clone, Copy, PartialEq, Eq, Structural)]
pub enum JobKeyKind {
    /// A UUID.
    Uuid,
    /// A 32-bit integer.
    Integer,
}

/// Where a module's job statuses are stored.
#[derive(Debug, Clone, Copy)]
pub struct StatusSource {
    pub table: &'static str,
    pub id_column: &'static str,
    pub key_kind: JobKeyKind,
}

/// The table, id column and key kind of a module, as pairs of texts.
pub open spec fn status_source_for(module: Seq<char>) -> Option<(Seq<char>, Seq<char>, JobKeyKind)> {
    if module == MODULE_SUMMARIZER@ {
        Some(("summary_jobs"@, "id"@, JobKeyKind::Uuid))
    } else if module == MODULE_TRANSLATE_DOCX@ {
        Some(("docx_jobs"@, "id"@, JobKeyKind::Uuid))
    } else if module == MODULE_GRADER@ {
        Some(("grader_jobs"@, "id"@, JobKeyKind::Uuid))
    } else if module == MODULE_INFO_EXTRACT@ {
        Some(("info_extract_jobs"@, "id"@, JobKeyKind::Uuid))
    } else if module == MODULE_REVIEWER@ {
        Some(("reviewer_jobs"@, "job_id"@, JobKeyKind::Integer))
    } else {
        None
    }
}

/// Where the statuses of `module`'s jobs are read; `None` for a module the
/// history does not know.
pub fn status_source(module: &str) -> (res: Option<StatusSource>)
    ensures
        match status_source_for(module@) {
            Some((table, column, kind)) => res matches Some(s) && s.table@ == table && s.id_column@ == column
                && s.key_kind == kind,
            None => res is None,
        },
{
    if str_eq(module, MODULE_SUMMARIZER) {
        Some(StatusSource { table: "summary_jobs", id_column: "id", key_kind: JobKeyKind::Uuid })
    } else if str_eq(module, MODULE_TRANSLATE_DOCX) {
        Some(StatusSource { table: "docx_jobs", id_column: "id", key_kind: JobKeyKind::Uuid })
    } else if str_eq(module, MODULE_GRADER) {
        Some(StatusSource { table: "grader_jobs", id_column: "id", key_kind: JobKeyKind::Uuid })
    } else if str_eq(module, MODULE_INFO_EXTRACT) {
        Some(StatusSource { table: "info_extract_jobs", id_column: "id", key_kind: JobKeyKind::Uuid })
    } else if str_eq(module, MODULE_REVIEWER) {
        Some(StatusSource { table: "reviewer_jobs", id_column: "job_id", key_kind: JobKeyKind::Integer })
    } else {
        None
    }
}

/// The seconds a history entry is kept.
pub fn retention_seconds() -> (res: u64)
    ensures
        res == HISTORY_RETENTION_HOURS * 3600,
{
    (HISTORY_RETENTION_HOURS * 3600) as u64
}

/// The `Duration` of `secs` whole seconds, as `Duration::from_secs` makes it.
pub uninterp spec fn secs_duration(secs: nat) -> std::time::Duration;

/// Calls `std::time::Duration::from_secs`, which depends on its argument
/// alone; its result is named `secs_duration`.
#[verifier::external_body]
fn duration_from_secs(secs: u64) -> (res: std::time::Duration)
    ensures
        res == secs_duration(secs as nat),
{
    std::time::Duration::from_secs(secs)
}

/// How often stale history is purged: the retention period of 24 hours.
pub fn retention_interval() -> (res: std::time::Duration)
    ensures
        res == secs_duration(86400),
{
    duration_from_secs(retention_seconds())
}

/// The query of the history listing: an optional module and limit.
#[derive(Debug, Clone)]
pub struct HistoryQuery {
    pub module: Option<String>,
    pub limit: Option<i64>,
}

/// A history listing for an unknown module.
#[derive(Debug, Clone, Copy, PartialEq, Eq, Structural)]
pub struct UnknownHistoryModule;

impl UnknownHistoryModule {
    /// The message answered.
    pub fn message(&self) -> (res: &'static str)
        ensures
            res@ == "未知模块标识。"@,
    {
        "未知模块标识。"
    }
}

/// Checks a history query: a named module must keep a history; without a
/// limit, twenty entries are asked for.
pub fn check_history_query(query: &HistoryQuery) -> (res: Result<i64, UnknownHistoryModule>)
    ensures
        match query.module {
            Some(m) => metadata_for(m@) is None <==> res is Err,
            None => res is Ok,
        },
        res is Ok ==> res->Ok_0 == match query.limit {
            Some(l) => l,
            None => 20,
        },
{
    match &query.module {
        Some(m) => {
            if module_metadata(m.as_str()).is_none() {
                return Err(UnknownHistoryModule);
            }
        },
        None => {},
    }
    match query.limit {
        Some(l) => Ok(l),
        None => Ok(20),
    }
}

/// The status address of a history entry: the module's prefix, then the
/// job's key.
pub fn history_status_path(meta: &ModuleMetadata, job_key: &str) -> (res: String)
    ensures
        res@ == meta.status_path_prefix@ + job_key@,
{
    let mut out = crate::text::to_owned_string(meta.status_path_prefix);
    crate::text::push_str(&mut out, job_key);
    out
}

} // verus!
