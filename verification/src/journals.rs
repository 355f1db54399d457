//! The forms that maintain journal topics, journal references and usage
//! groups: what each accepts and what it stores.

use vstd::prelude::*;

use crate::ids::{is_uuid_text, parses_as_uuid};
use crate::text::{
    chars_of, parse_i64, parse_integer, push_str, string_from_range, str_eq, to_owned_string, trim, trim_str,
    views_of,
};
use crate::usage::{
    limit_field, opt_str_view, parse_optional_limit, registered_modules, LimitParseError, MODULE_GRADER, MODULE_SUMMARIZER,
    MODULE_TRANSLATE_DOCX,
};

verus! {

/// An optional text field: trimmed, none when blank or absent.
pub open spec fn optional_field(value: Option<Seq<char>>) -> Option<Seq<char>> {
    match value {
        Some(v) => if trim(v).len() == 0 {
            None
        } else {
            Some(trim(v))
        },
        None => None,
    }
}

/// Reads an optional text field.
pub fn optional_text(value: Option<&str>) -> (res: Option<String>)
    ensures
        match res {
            Some(s) => optional_field(opt_str_view(value)) == Some(s@),
            None => optional_field(opt_str_view(value)) is None,
        },
{
    match value {
        Some(v) => {
            let t = trim_str(v);
            if t.as_str().is_empty() {
                None
            } else {
                Some(t)
            }
        },
        None => None,
    }
}

/// A required name: trimmed; `None` when blank.
pub fn required_name(value: &str) -> (res: Option<String>)
    ensures
        match res {
            Some(s) => trim(value@).len() > 0 && s@ == trim(value@),
            None => trim(value@).len() == 0,
        },
{
    let t = trim_str(value);
    if t.as_str().is_empty() {
        None
    } else {
        Some(t)
    }
}

/// The text after `prefix`, when `s` starts with it.
pub open spec fn strip_prefix(s: Seq<char>, prefix: Seq<char>) -> Option<Seq<char>> {
    if s.len() >= prefix.len() && s.take(prefix.len() as int) == prefix {
        Some(s.skip(prefix.len() as int))
    } else {
        None
    }
}

/// Strips `score_` from the front of a form key.
fn strip_score_prefix(key: &str) -> (res: Option<String>)
    ensures
        match res {
            Some(s) => strip_prefix(key@, "score_"@) == Some(s@),
            None => strip_prefix(key@, "score_"@) is None,
        },
{
    proof {
        reveal_strlit("score_");
    }
    let v = chars_of(key);
    if v.len() < 6 {
        return None;
    }
    let head = string_from_range(&v, 0, 6);
    assert(head@ =~= key@.take(6));
    if !str_eq(head.as_str(), "score_") {
        return None;
    }
    let rest = string_from_range(&v, 6, v.len());
    assert(rest@ =~= key@.skip(6));
    Some(rest)
}

/// What one score field of the journal form means: `None` when it is not a
/// score of a topic (no `score_` prefix, or no UUID after it) or is blank;
/// an error when the value is not an integer from 0 to 2.
pub open spec fn score_entry(key: Seq<char>, value: Seq<char>) -> Option<Result<(Seq<char>, i16), ()>> {
    match strip_prefix(key, "score_"@) {
        None => None,
        Some(id) => if !is_uuid_text(id) || trim(value).len() == 0 {
            None
        } else {
            match parse_i64(trim(value)) {
                Some(v) => if 0 <= v && v <= 2 {
                    Some(Ok((id, v as i16)))
                } else {
                    Some(Err(()))
                },
                None => Some(Err(())),
            }
        },
    }
}

/// A later field has the same name as field `i`; as in a map built from
/// the form, the later value is the one that counts.
pub open spec fn superseded(fields: Seq<(Seq<char>, Seq<char>)>, i: int) -> bool {
    exists|j: int| i < j < fields.len() && #[trigger] fields[j].0 == fields[i].0
}

/// What field `i` of the form means as a score, once repeated names are
/// resolved to their last value.
pub open spec fn field_score(fields: Seq<(Seq<char>, Seq<char>)>, i: int) -> Option<Result<(Seq<char>, i16), ()>> {
    if superseded(fields, i) {
        None
    } else {
        score_entry(fields[i].0, fields[i].1)
    }
}

/// Some score field among the first `n` is invalid.
pub open spec fn has_invalid_score(fields: Seq<(Seq<char>, Seq<char>)>, n: int) -> bool
    decreases n,
{
    if n <= 0 {
        false
    } else {
        has_invalid_score(fields, n - 1) || field_score(fields, n - 1) == Some(Err::<(Seq<char>, i16), ()>(()))
    }
}

/// The positive scores among the first `n` fields, in order.
pub open spec fn positive_scores(fields: Seq<(Seq<char>, Seq<char>)>, n: int) -> Seq<(Seq<char>, i16)>
    decreases n,
{
    if n <= 0 {
        Seq::empty()
    } else {
        match field_score(fields, n - 1) {
            Some(Ok((id, s))) => if s > 0 {
                positive_scores(fields, n - 1).push((id, s))
            } else {
                positive_scores(fields, n - 1)
            },
            _ => positive_scores(fields, n - 1),
        }
    }
}

/// The form fields as pairs of texts.
pub open spec fn pair_views(fields: Seq<(String, String)>) -> Seq<(Seq<char>, Seq<char>)> {
    fields.map_values(|p: (String, String)| (p.0@, p.1@))
}

/// A journal score outside 0 to 2, or not a number.
#[derive(Debug, Clone, Copy, PartialEq, Eq, Structural)]
pub struct InvalidScore;

/// Whether a field after `k` has the same name as field `k`.
fn repeated_later(fields: &Vec<(String, String)>, k: usize) -> (res: bool)
    requires
        k < fields.len(),
    ensures
        res == superseded(pair_views(fields@), k as int),
{
    let ghost pv = pair_views(fields@);
    let mut j: usize = k + 1;
    while j < fields.len()
        invariant
            k < j <= fields.len(),
            pv == pair_views(fields@),
            forall|m: int| k < m < j ==> pv[m].0 != pv[k as int].0,
        decreases fields.len() - j,
    {
        if str_eq(fields[j].0.as_str(), fields[k].0.as_str()) {
            assert(pv[j as int].0 == pv[k as int].0);
            return true;
        }
        j = j + 1;
    }
    false
}

/// Reads the topic scores of the journal form: any invalid score refuses
/// the form; the positive ones are stored, with their topic's id. A field
/// name given twice counts with its last value.
pub fn read_topic_scores(fields: &Vec<(String, String)>) -> (res: Result<Vec<(String, i16)>, InvalidScore>)
    ensures
        has_invalid_score(pair_views(fields@), fields@.len() as int) <==> res is Err,
        res matches Ok(scores) ==> scores@.map_values(|p: (String, i16)| (p.0@, p.1)) == positive_scores(
            pair_views(fields@),
            fields@.len() as int,
        ),
{
    let ghost pv = pair_views(fields@);
    let mut out: Vec<(String, i16)> = Vec::new();
    let mut k: usize = 0;
    while k < fields.len()
        invariant
            k <= fields.len(),
            pv == pair_views(fields@),
            !has_invalid_score(pv, k as int),
            out@.map_values(|p: (String, i16)| (p.0@, p.1)) == positive_scores(pv, k as int),
        decreases fields.len() - k,
    {
        let key = fields[k].0.as_str();
        let value = fields[k].1.as_str();
        assert(pv[k as int] == (key@, value@));
        let repeated = repeated_later(fields, k);
        match if repeated { None } else { strip_score_prefix(key) } {
            None => {},
            Some(id) => {
                let t = trim_str(value);
                if parses_as_uuid(id.as_str()) && !t.as_str().is_empty() {
                    match parse_integer(t.as_str()) {
                        Some(v) => {
                            if v < 0 || v > 2 {
                                proof {
                                    lemma_invalid_stays(pv, k + 1, fields@.len() as int);
                                }
                                return Err(InvalidScore);
                            }
                            if v > 0 {
                                let ghost before = out@.map_values(|p: (String, i16)| (p.0@, p.1));
                                out.push((id, v as i16));
                                assert(out@.map_values(|p: (String, i16)| (p.0@, p.1)) =~= before.push(
                                    (out@[out@.len() - 1].0@, v as i16),
                                ));
                            }
                        },
                        None => {
                            proof {
                                lemma_invalid_stays(pv, k + 1, fields@.len() as int);
                            }
                            return Err(InvalidScore);
                        },
                    }
                }
            },
        }
        k = k + 1;
    }
    Ok(out)
}

proof fn lemma_invalid_stays(fields: Seq<(Seq<char>, Seq<char>)>, m: int, n: int)
    requires
        0 <= m <= n,
        has_invalid_score(fields, m),
    ensures
        has_invalid_score(fields, n),
    decreases n - m,
{
    if m < n {
        lemma_invalid_stays(fields, m, n - 1);
    }
}

/// Why the journal or topic form was refused: the redirect's error code.
#[derive(Debug, Clone, Copy, PartialEq, Eq, Structural)]
pub enum JournalFormError {
    TopicMissingName,
    JournalMissingName,
    JournalInvalidLow,
    JournalInvalidScore,
}

impl JournalFormError {
    pub open spec fn spec_code(self) -> Seq<char> {
        match self {
            JournalFormError::TopicMissingName => "topic_missing_name"@,
            JournalFormError::JournalMissingName => "journal_missing_name"@,
            JournalFormError::JournalInvalidLow => "journal_invalid_low"@,
            JournalFormError::JournalInvalidScore => "journal_invalid_score"@,
        }
    }

    /// The error code.
    pub fn code(&self) -> (res: &'static str)
        ensures
            res@ == self.spec_code(),
    {
        match self {
            JournalFormError::TopicMissingName => "topic_missing_name",
            JournalFormError::JournalMissingName => "journal_missing_name",
            JournalFormError::JournalInvalidLow => "journal_invalid_low",
            JournalFormError::JournalInvalidScore => "journal_invalid_score",
        }
    }
}

/// A usage group as the form describes it.
#[derive(Debug, Clone)]
pub struct UsageGroupDraft {
    pub name: String,
    pub description: Option<String>,
    /// The id of the group edited, `None` for a new group.
    pub group_id: Option<String>,
    /// Per module: its key, its token limit and its unit limit.
    pub allocations: Vec<(String, Option<i64>, Option<i64>)>,
}

/// Why the usage group form was refused: the redirect's error code.
#[derive(Debug, Clone, Copy, PartialEq, Eq, Structural)]
pub enum GroupFormError {
    NameMissing,
    InvalidId,
    InvalidLimit,
}

impl GroupFormError {
    pub open spec fn spec_code(self) -> Seq<char> {
        match self {
            GroupFormError::NameMissing => "group_name_missing"@,
            GroupFormError::InvalidId => "group_invalid"@,
            GroupFormError::InvalidLimit => "group_invalid_limit"@,
        }
    }

    /// The error code.
    pub fn code(&self) -> (res: &'static str)
        ensures
            res@ == self.spec_code(),
    {
        match self {
            GroupFormError::NameMissing => "group_name_missing",
            GroupFormError::InvalidId => "group_invalid",
            GroupFormError::InvalidLimit => "group_invalid_limit",
        }
    }
}

/// The value of the last field named `key`, if any, as a map built from
/// the form holds it.
pub open spec fn form_value(fields: Seq<(Seq<char>, Seq<char>)>, key: Seq<char>) -> Option<Seq<char>>
    decreases fields.len(),
{
    if fields.len() == 0 {
        None
    } else if fields.last().0 == key {
        Some(fields.last().1)
    } else {
        form_value(fields.drop_last(), key)
    }
}

/// Looks a field up by name.
pub fn lookup_field<'a>(fields: &'a Vec<(String, String)>, key: &str) -> (res: Option<&'a str>)
    ensures
        opt_str_view(res) == form_value(pair_views(fields@), key@),
{
    let ghost pv = pair_views(fields@);
    let mut k: usize = fields.len();
    assert(pv.take(k as int) =~= pv);
    while k > 0
        invariant
            k <= fields.len(),
            pv == pair_views(fields@),
            form_value(pv, key@) == form_value(pv.take(k as int), key@),
        decreases k,
    {
        assert(pv.take(k as int).drop_last() =~= pv.take(k - 1));
        assert(pv.take(k as int).last() == pv[k - 1]);
        if str_eq(fields[k - 1].0.as_str(), key) {
            return Some(fields[k - 1].1.as_str());
        }
        k = k - 1;
    }
    None
}

/// The form key of a module's limit: `prefix` then the module's key.
pub fn limit_key(prefix: &str, module_key: &str) -> (res: String)
    ensures
        res@ == prefix@ + module_key@,
{
    let mut out = to_owned_string(prefix);
    push_str(&mut out, module_key);
    out
}

/// Every limit of a module's allocation reads as its form fields say.
pub open spec fn allocation_matches(pv: Seq<(Seq<char>, Seq<char>)>, a: (String, Option<i64>, Option<i64>)) -> bool {
    &&& limit_field(form_value(pv, "tokens_"@ + a.0@)) == Ok::<Option<i64>, LimitParseError>(a.1)
    &&& limit_field(form_value(pv, "units_"@ + a.0@)) == Ok::<Option<i64>, LimitParseError>(a.2)
}

/// The key of the `j`-th registered module: summarizer, DOCX translator,
/// grader.
pub open spec fn limit_module_key(j: int) -> Seq<char> {
    if j == 0 {
        MODULE_SUMMARIZER@
    } else if j == 1 {
        MODULE_TRANSLATE_DOCX@
    } else {
        MODULE_GRADER@
    }
}

/// Both limit fields of the `j`-th registered module read as limits.
pub open spec fn module_limits_readable(pv: Seq<(Seq<char>, Seq<char>)>, j: int) -> bool {
    &&& limit_field(form_value(pv, "units_"@ + limit_module_key(j))) is Ok
    &&& limit_field(form_value(pv, "tokens_"@ + limit_module_key(j))) is Ok
}

/// Reads the limits of each registered module, in order; `None` exactly when
/// one of their `units_` or `tokens_` fields is not a limit.
fn read_allocations(fields: &Vec<(String, String)>) -> (res: Option<Vec<(String, Option<i64>, Option<i64>)>>)
    ensures
        res is Some <==> forall|j: int| 0 <= j < 3 ==> #[trigger] module_limits_readable(pair_views(fields@), j),
        res matches Some(a) ==> a@.len() == 3 && forall|j: int|
            0 <= j < 3 ==> a@[j].0@ == limit_module_key(j) && allocation_matches(pair_views(fields@), #[trigger] a@[j]),
{
    let modules = registered_modules();
    let ghost pv = pair_views(fields@);
    let mut allocations: Vec<(String, Option<i64>, Option<i64>)> = Vec::new();
    let mut k: usize = 0;
    while k < modules.len()
        invariant
            k <= modules.len(),
            modules@.len() == 3,
            pv == pair_views(fields@),
            modules@[0].key@ == limit_module_key(0),
            modules@[1].key@ == limit_module_key(1),
            modules@[2].key@ == limit_module_key(2),
            allocations@.len() == k,
            forall|j: int|
                0 <= j < k ==> allocations@[j].0@ == limit_module_key(j) && allocation_matches(
                    pv,
                    #[trigger] allocations@[j],
                ),
            forall|j: int| 0 <= j < k ==> #[trigger] module_limits_readable(pv, j),
        decreases modules.len() - k,
    {
        let key = modules[k].key;
        assert(key@ == limit_module_key(k as int));
        let unit_key = limit_key("units_", key);
        let token_key = limit_key("tokens_", key);
        let unit_limit = match parse_optional_limit(lookup_field(fields, unit_key.as_str())) {
            Ok(v) => v,
            Err(_) => {
                assert(!module_limits_readable(pv, k as int));
                return None;
            },
        };
        let token_limit = match parse_optional_limit(lookup_field(fields, token_key.as_str())) {
            Ok(v) => v,
            Err(_) => {
                assert(!module_limits_readable(pv, k as int));
                return None;
            },
        };
        let owned_key = to_owned_string(key);
        assert(allocation_matches(pv, (owned_key, token_limit, unit_limit)));
        assert(module_limits_readable(pv, k as int));
        allocations.push((owned_key, token_limit, unit_limit));
        k = k + 1;
    }
    Some(allocations)
}

/// Reads the usage group form: a name is required; an id, when given, must
/// be a UUID; each registered module's `tokens_` and `units_` limits must be
/// blank or non-negative integers.
pub fn read_usage_group_form(fields: &Vec<(String, String)>) -> (res: Result<UsageGroupDraft, GroupFormError>)
    ensures
        ({
            let pv = pair_views(fields@);
            let name = match form_value(pv, "name"@) {
                Some(n) => trim(n),
                None => Seq::empty(),
            };
            let id = optional_field(form_value(pv, "group_id"@));
            if name.len() == 0 {
                res == Err::<UsageGroupDraft, GroupFormError>(GroupFormError::NameMissing)
            } else if id is Some && !is_uuid_text(id->0) {
                res == Err::<UsageGroupDraft, GroupFormError>(GroupFormError::InvalidId)
            } else {
                &&& (res is Ok <==> forall|j: int| 0 <= j < 3 ==> #[trigger] module_limits_readable(pv, j))
                &&& match res {
                    Ok(d) => d.name@ == name && match d.description {
                        Some(s) => optional_field(form_value(pv, "description"@)) == Some(s@),
                        None => optional_field(form_value(pv, "description"@)) is None,
                    } && match d.group_id {
                        Some(g) => id == Some(g@),
                        None => id is None,
                    } && d.allocations@.len() == 3 && forall|j: int|
                        0 <= j < 3 ==> d.allocations@[j].0@ == limit_module_key(j) && allocation_matches(
                            pv,
                            #[trigger] d.allocations@[j],
                        ),
                    Err(e) => e == GroupFormError::InvalidLimit,
                }
            }
        }),
{
    proof {
        reveal_strlit("");
    }
    let name = match lookup_field(fields, "name") {
        Some(n) => trim_str(n),
        None => String::new(),
    };
    if name.as_str().is_empty() {
        return Err(GroupFormError::NameMissing);
    }
    let description = optional_text(lookup_field(fields, "description"));
    let group_id = optional_text(lookup_field(fields, "group_id"));
    match &group_id {
        Some(g) => {
            if !parses_as_uuid(g.as_str()) {
                return Err(GroupFormError::InvalidId);
            }
        },
        None => {},
    }
    let allocations = match read_allocations(fields) {
        Some(a) => a,
        None => return Err(GroupFormError::InvalidLimit),
    };
    Ok(UsageGroupDraft { name, description, group_id, allocations })
}

/// The limits stored for a group: the modules with at least one limit.
pub open spec fn stored_limits(allocations: Seq<(String, Option<i64>, Option<i64>)>) -> Seq<(Seq<char>, Option<i64>, Option<i64>)>
    decreases allocations.len(),
{
    if allocations.len() == 0 {
        Seq::empty()
    } else {
        let a = allocations.last();
        if a.1 is None && a.2 is None {
            stored_limits(allocations.drop_last())
        } else {
            stored_limits(allocations.drop_last()).push((a.0@, a.1, a.2))
        }
    }
}

/// Picks the limits to store: a module without any limit stores none.
pub fn limits_to_store(allocations: &Vec<(String, Option<i64>, Option<i64>)>) -> (res: Vec<(String, Option<i64>, Option<i64>)>)
    ensures
        res@.map_values(|a: (String, Option<i64>, Option<i64>)| (a.0@, a.1, a.2)) == stored_limits(allocations@),
{
    let mut out: Vec<(String, Option<i64>, Option<i64>)> = Vec::new();
    let mut k: usize = 0;
    while k < allocations.len()
        invariant
            k <= allocations.len(),
            out@.map_values(|a: (String, Option<i64>, Option<i64>)| (a.0@, a.1, a.2)) == stored_limits(
                allocations@.take(k as int),
            ),
        decreases allocations.len() - k,
    {
        assert(allocations@.take(k + 1).drop_last() =~= allocations@.take(k as int));
        let a = &allocations[k];
        if a.1.is_some() || a.2.is_some() {
            let ghost before = out@.map_values(|a: (String, Option<i64>, Option<i64>)| (a.0@, a.1, a.2));
            out.push((a.0.clone(), a.1, a.2));
            assert(out@.map_values(|a: (String, Option<i64>, Option<i64>)| (a.0@, a.1, a.2)) =~= before.push(
                (a.0@, a.1, a.2),
            ));
        }
        k = k + 1;
    }
    assert(allocations@.take(allocations@.len() as int) =~= allocations@);
    out
}

/// The status code after saving a group.
pub fn group_saved_status(existing: bool) -> (res: &'static str)
    ensures
        res@ == (if existing {
            "group_saved"@
        } else {
            "group_created"@
        }),
{
    if existing {
        "group_saved"
    } else {
        "group_created"
    }
}


/// Reads the topic form: a name is required; the description is optional.
pub fn read_topic_form(name: &str, description: Option<&str>) -> (res: Result<(String, Option<String>), JournalFormError>)
    ensures
        trim(name@).len() == 0 ==> res == Err::<(String, Option<String>), JournalFormError>(
            JournalFormError::TopicMissingName,
        ),
        trim(name@).len() > 0 ==> (res matches Ok((n, d)) && n@ == trim(name@) && match d {
            Some(t) => optional_field(opt_str_view(description)) == Some(t@),
            None => optional_field(opt_str_view(description)) is None,
        }),
{
    match required_name(name) {
        None => Err(JournalFormError::TopicMissingName),
        Some(n) => Ok((n, optional_text(description))),
    }
}

/// Reads the text fields of the journal form: a name is required; the
/// reference mark and the notes are optional.
pub fn read_journal_fields(journal_name: &str, reference_mark: Option<&str>, notes: Option<&str>) -> (res: Result<
    (String, Option<String>, Option<String>),
    JournalFormError,
>)
    ensures
        trim(journal_name@).len() == 0 ==> res == Err::<(String, Option<String>, Option<String>), JournalFormError>(
            JournalFormError::JournalMissingName,
        ),
        trim(journal_name@).len() > 0 ==> (res matches Ok((n, m, t)) && n@ == trim(journal_name@) && match m {
            Some(x) => optional_field(opt_str_view(reference_mark)) == Some(x@),
            None => optional_field(opt_str_view(reference_mark)) is None,
        } && match t {
            Some(x) => optional_field(opt_str_view(notes)) == Some(x@),
            None => optional_field(opt_str_view(notes)) is None,
        }),
{
    match required_name(journal_name) {
        None => Err(JournalFormError::JournalMissingName),
        Some(n) => Ok((n, optional_text(reference_mark), optional_text(notes))),
    }
}

} // verus!
