//! Weekly usage quotas: module keys, limit checks and their messages, and
//! parsing of limits typed by administrators.

use vstd::prelude::*;

use crate::text::{parse_i64, parse_integer, push_signed_decimal, push_str, signed_decimal, to_owned_string, trim, trim_str};

verus! {

pub const MODULE_SUMMARIZER: &'static str = "summarizer";
pub const MODULE_TRANSLATE_DOCX: &'static str = "translatedocx";
pub const MODULE_GRADER: &'static str = "grader";
pub const MODULE_INFO_EXTRACT: &'static str = "infoextract";
pub const MODULE_REVIEWER: &'static str = "referee";

/// Length of the usage window, in days.
pub const WINDOW_DAYS: i64 = 7;

/// Human readable labels for known modules to drive forms and display.
#[derive(Debug, Clone, Copy)]
pub struct ModuleDescriptor {
    pub key: &'static str,
    pub label: &'static str,
    pub unit_label: &'static str,
}

/// The modules whose usage is limited, in display order.
pub fn registered_modules() -> (res: Vec<ModuleDescriptor>)
    ensures
        res@.len() == 3,
        res@[0] == (ModuleDescriptor { key: MODULE_SUMMARIZER, label: "摘要与翻译", unit_label: "文档数量" }),
        res@[1] == (ModuleDescriptor { key: MODULE_TRANSLATE_DOCX, label: "DOCX 翻译", unit_label: "文档数量" }),
        res@[2] == (ModuleDescriptor { key: MODULE_GRADER, label: "稿件评估", unit_label: "任务次数" }),
{
    let mut v = Vec::new();
    v.push(ModuleDescriptor { key: MODULE_SUMMARIZER, label: "摘要与翻译", unit_label: "文档数量" });
    v.push(ModuleDescriptor { key: MODULE_TRANSLATE_DOCX, label: "DOCX 翻译", unit_label: "文档数量" });
    v.push(ModuleDescriptor { key: MODULE_GRADER, label: "稿件评估", unit_label: "任务次数" });
    v
}

/// Usage of one user in one module over the window, with the limits of the
/// user's group (`None`: unlimited).
#[derive(Debug, Clone, Copy, Default)]
pub struct UsageSnapshot {
    pub tokens: i64,
    pub units: i64,
    pub token_limit: Option<i64>,
    pub unit_limit: Option<i64>,
}

/// Why a job was refused.
#[derive(Debug, Clone, Copy, PartialEq, Eq)]
pub enum UsageLimitErrorKind {
    TokensExceeded { limit: i64, used: i64 },
    UnitsExceeded { limit: i64, used: i64, requested: i64 },
    Backend,
}

#[derive(Debug, Clone, Copy, PartialEq, Eq)]
pub struct UsageLimitError {
    pub kind: UsageLimitErrorKind,
}

/// The message shown for a refused job.
pub open spec fn limit_message(kind: UsageLimitErrorKind) -> Seq<char> {
    match kind {
        UsageLimitErrorKind::TokensExceeded { limit, used } => "近 7 日累计令牌数已达上限（"@ + signed_decimal(
            used as int,
        ) + "/"@ + signed_decimal(limit as int) + "）。"@,
        UsageLimitErrorKind::UnitsExceeded { limit, used, requested } => "近 7 日累计任务数将超出上限（当前 "@
            + signed_decimal(used as int) + "，本次 +"@ + signed_decimal(requested as int) + "，上限 "@
            + signed_decimal(limit as int) + "）。"@,
        UsageLimitErrorKind::Backend => "额度校验失败，请稍后再试。"@,
    }
}

impl UsageLimitError {
    pub fn message(&self) -> (res: String)
        ensures
            res@ == limit_message(self.kind),
    {
        let mut out = String::new();
        match self.kind {
            UsageLimitErrorKind::TokensExceeded { limit, used } => {
                push_str(&mut out, "近 7 日累计令牌数已达上限（");
                push_signed_decimal(&mut out, used);
                push_str(&mut out, "/");
                push_signed_decimal(&mut out, limit);
                push_str(&mut out, "）。");
            },
            UsageLimitErrorKind::UnitsExceeded { limit, used, requested } => {
                push_str(&mut out, "近 7 日累计任务数将超出上限（当前 ");
                push_signed_decimal(&mut out, used);
                push_str(&mut out, "，本次 +");
                push_signed_decimal(&mut out, requested);
                push_str(&mut out, "，上限 ");
                push_signed_decimal(&mut out, limit);
                push_str(&mut out, "）。");
            },
            UsageLimitErrorKind::Backend => {
                push_str(&mut out, "额度校验失败，请稍后再试。");
            },
        }
        proof {
            reveal_strlit("");
        }
        assert(out@ =~= limit_message(self.kind));
        out
    }
}

/// The decision on a new job of `units` units given the current usage: the
/// token limit is reached when the tokens used are at least the limit; the
/// unit limit refuses a job that would take the units above it.
pub open spec fn limit_decision(snapshot: UsageSnapshot, units: i64) -> Result<UsageSnapshot, UsageLimitError> {
    if snapshot.token_limit is Some && snapshot.tokens >= snapshot.token_limit->0 {
        Err(UsageLimitError {
            kind: UsageLimitErrorKind::TokensExceeded { limit: snapshot.token_limit->0, used: snapshot.tokens },
        })
    } else if snapshot.unit_limit is Some && snapshot.units + units > snapshot.unit_limit->0 {
        Err(UsageLimitError {
            kind: UsageLimitErrorKind::UnitsExceeded {
                limit: snapshot.unit_limit->0,
                used: snapshot.units,
                requested: units,
            },
        })
    } else {
        Ok(snapshot)
    }
}

/// A job is refused for tokens whenever a token limit is set and the tokens
/// used have reached it, whatever the unit limit and the job's units.
pub proof fn lemma_token_limit_refuses(snapshot: UsageSnapshot, units: i64)
    requires
        snapshot.token_limit is Some,
        snapshot.tokens >= snapshot.token_limit->0,
    ensures
        limit_decision(snapshot, units) == Err::<UsageSnapshot, UsageLimitError>(
            UsageLimitError {
                kind: UsageLimitErrorKind::TokensExceeded { limit: snapshot.token_limit->0, used: snapshot.tokens },
            },
        ),
{
}

/// Below the token limit (or without one), a job is refused for units
/// exactly when a unit limit is set and the job would take the units above
/// it; otherwise it is accepted with the usage unchanged.
pub proof fn lemma_unit_limit_decides(snapshot: UsageSnapshot, units: i64)
    requires
        !(snapshot.token_limit is Some && snapshot.tokens >= snapshot.token_limit->0),
    ensures
        (snapshot.unit_limit is Some && snapshot.units + units > snapshot.unit_limit->0) ==> limit_decision(
            snapshot,
            units,
        ) == Err::<UsageSnapshot, UsageLimitError>(
            UsageLimitError {
                kind: UsageLimitErrorKind::UnitsExceeded {
                    limit: snapshot.unit_limit->0,
                    used: snapshot.units,
                    requested: units,
                },
            },
        ),
        !(snapshot.unit_limit is Some && snapshot.units + units > snapshot.unit_limit->0) ==> limit_decision(
            snapshot,
            units,
        ) == Ok::<UsageSnapshot, UsageLimitError>(snapshot),
{
}

/// Checks a new job of `units_to_add` units against the user's usage.
pub fn check_limits(snapshot: UsageSnapshot, units_to_add: i64) -> (res: Result<UsageSnapshot, UsageLimitError>)
    ensures
        res == limit_decision(snapshot, units_to_add),
{
    if let Some(limit) = snapshot.token_limit {
        if snapshot.tokens >= limit {
            return Err(UsageLimitError { kind: UsageLimitErrorKind::TokensExceeded { limit, used: snapshot.tokens } });
        }
    }
    if let Some(limit) = snapshot.unit_limit {
        if (snapshot.units as i128) + (units_to_add as i128) > (limit as i128) {
            return Err(UsageLimitError {
                kind: UsageLimitErrorKind::UnitsExceeded { limit, used: snapshot.units, requested: units_to_add },
            });
        }
    }
    Ok(snapshot)
}

/// The result of checking a job when the usage could not be loaded.
pub fn backend_failure() -> (res: UsageLimitError)
    ensures
        res.kind == UsageLimitErrorKind::Backend,
{
    UsageLimitError { kind: UsageLimitErrorKind::Backend }
}


/// The amount a usage event records: negative amounts count as zero.
pub open spec fn recorded_amount(amount: i64) -> i64 {
    if amount < 0 {
        0
    } else {
        amount
    }
}

/// The token and unit amounts stored for a finished job.
pub fn usage_event_amounts(tokens: i64, units: i64) -> (res: (i64, i64))
    ensures
        res == (recorded_amount(tokens), recorded_amount(units)),
{
    let t = if tokens < 0 { 0 } else { tokens };
    let u = if units < 0 { 0 } else { units };
    (t, u)
}

/// Why a limit typed by an administrator was refused.
#[derive(Debug, Clone, Copy, PartialEq, Eq)]
pub enum LimitParseError {
    /// Not an integer.
    Invalid,
    /// An integer below zero.
    Negative,
}

impl LimitParseError {
    pub open spec fn spec_message(self) -> Seq<char> {
        match self {
            LimitParseError::Invalid => "invalid limit value"@,
            LimitParseError::Negative => "limit cannot be negative"@,
        }
    }

    /// The message shown for the refusal.
    pub fn message(&self) -> (res: String)
        ensures
            res@ == self.spec_message(),
    {
        match self {
            LimitParseError::Invalid => to_owned_string("invalid limit value"),
            LimitParseError::Negative => to_owned_string("limit cannot be negative"),
        }
    }
}

/// What a limit field means: blank (after trimming) or absent is no limit;
/// otherwise it must be a non-negative integer.
pub open spec fn limit_field(input: Option<Seq<char>>) -> Result<Option<i64>, LimitParseError> {
    match input {
        None => Ok(None),
        Some(raw) => {
            let t = trim(raw);
            if t.len() == 0 {
                Ok(None)
            } else {
                match parse_i64(t) {
                    None => Err(LimitParseError::Invalid),
                    Some(v) => if v < 0 {
                        Err(LimitParseError::Negative)
                    } else {
                        Ok(Some(v as i64))
                    },
                }
            }
        },
    }
}

/// The view of an optional text.
pub open spec fn opt_str_view(input: Option<&str>) -> Option<Seq<char>> {
    match input {
        Some(s) => Some(s@),
        None => None,
    }
}

/// Parses an optional limit field of the usage group form.
pub fn parse_optional_limit(input: Option<&str>) -> (res: Result<Option<i64>, LimitParseError>)
    ensures
        res == limit_field(opt_str_view(input)),
{
    match input {
        None => Ok(None),
        Some(raw) => {
            let t = trim_str(raw);
            if t.as_str().is_empty() {
                return Ok(None);
            }
            match parse_integer(t.as_str()) {
                None => Err(LimitParseError::Invalid),
                Some(v) => if v < 0 {
                    Err(LimitParseError::Negative)
                } else {
                    Ok(Some(v))
                },
            }
        },
    }
}


/// A limit shown in a form field, sent back unchanged, reads as the same
/// limit: what the dashboard renders for a limit, `parse_optional_limit`
/// returns.
pub proof fn lemma_limit_round_trip(limit: i64)
    requires
        limit >= 0,
    ensures
        limit_field(Some(signed_decimal(limit as int))) == Ok::<Option<i64>, LimitParseError>(Some(limit)),
{
    crate::text::lemma_parse_signed_decimal(limit);
    crate::text::lemma_decimal_digits(limit as nat);
    let s = signed_decimal(limit as int);
    assert(crate::text::is_digit(s[0]));
    assert(crate::text::is_digit(s.last()));
    crate::text::lemma_trim_noop(s);
}

} // verus!
