//! The information extractor: the field definitions read from a sheet, the
//! checks on an upload, the prompt per paper, where the JSON object of a
//! reply is looked for, the retry schedule, and the summary of a job.

use std::io::Cursor;

use calamine::{DataType, Reader, Xlsx};
use serde_json::Value;
use vstd::prelude::*;

use crate::llm::{ChatMessage, LlmRequest, MessageRole};
use crate::sanitize::{is_clean_name_of, sanitize_file_name};
use crate::status::JobStatus;
use crate::translatedocx::{clean_lower_extension, lower_extension};
use crate::text::{
    ascii_lower, chars_of, decimal, join, join_strings, push_decimal, push_str, split, split_pieces,
    string_from_range, to_ascii_lowercase, to_owned_string, trim, trim_str, views_of, zero_pad, str_eq,
};

verus! {

/// Most papers per job.
pub const MAX_DOCUMENTS: usize = 100;

/// Attempts per paper.
pub const MAX_RETRIES: usize = 3;

/// Wait after the first failed attempt, in milliseconds; the n-th failed
/// attempt waits n times as long.
pub const RETRY_DELAY_MS: u64 = 1500;

/// Characters of a paper's text sent to the model.
pub const MAX_DOCUMENT_TEXT_CHARS: usize = 20000;

/// One field to extract: its name, a description, examples, and the values
/// it may take.
#[derive(Debug, Clone)]
pub struct ExtractionField {
    pub name: String,
    pub description: Option<String>,
    pub examples: Vec<String>,
    pub allowed_values: Vec<String>,
}

/// The non-blank items of a `;`-separated list, trimmed.
pub open spec fn semicolon_items(parts: Seq<Seq<char>>) -> Seq<Seq<char>>
    decreases parts.len(),
{
    if parts.len() == 0 {
        Seq::empty()
    } else if trim(parts.last()).len() == 0 {
        semicolon_items(parts.drop_last())
    } else {
        semicolon_items(parts.drop_last()).push(trim(parts.last()))
    }
}

/// Splits a `;`-separated list into its trimmed, non-blank items.
pub fn split_semicolon(input: &str) -> (res: Vec<String>)
    ensures
        views_of(res@) == semicolon_items(split(input@, seq![';'])),
{
    proof {
        reveal_strlit(";");
        assert(";"@ =~= seq![';']);
    }
    let parts = split_pieces(input, ";");
    let ghost ps = views_of(parts@);
    let mut out: Vec<String> = Vec::new();
    let mut k: usize = 0;
    while k < parts.len()
        invariant
            k <= parts.len(),
            ps == views_of(parts@),
            views_of(out@) == semicolon_items(ps.take(k as int)),
        decreases parts.len() - k,
    {
        assert(ps.take(k + 1).drop_last() =~= ps.take(k as int));
        let t = trim_str(parts[k].as_str());
        if !t.as_str().is_empty() {
            out.push(t);
        }
        k = k + 1;
        assert(views_of(out@) =~= semicolon_items(ps.take(k as int)));
    }
    assert(ps.take(parts@.len() as int) =~= ps);
    out
}

/// A cell of the definition sheet. Numbers and dates come as the text the
/// spreadsheet reader displays for them.
#[derive(Debug, Clone)]
pub enum CellValue {
    Text(String),
    /// A floating-point number, as displayed (`3`, `2.5`, `3.0` …).
    Float(String),
    Int(i64),
    Bool(bool),
    /// Any other value, as displayed.
    Other(String),
    Empty,
}

/// The text of a float's display without a trailing `.0`.
pub open spec fn float_text(display: Seq<char>) -> Seq<char> {
    if display.len() >= 2 && display.subrange(display.len() - 2, display.len() as int) == seq!['.', '0'] {
        display.subrange(0, display.len() - 2)
    } else {
        display
    }
}

/// The text a cell holds before trimming.
pub open spec fn cell_raw_text(cell: CellValue) -> Seq<char> {
    match cell {
        CellValue::Text(s) => trim(s@),
        CellValue::Float(d) => float_text(d@),
        CellValue::Int(i) => crate::text::signed_decimal(i as int),
        CellValue::Bool(b) => if b {
            "true"@
        } else {
            "false"@
        },
        CellValue::Other(s) => s@,
        CellValue::Empty => Seq::empty(),
    }
}

/// The text of a cell: trimmed, none when blank or absent.
pub open spec fn cell_text(cell: Option<CellValue>) -> Option<Seq<char>> {
    match cell {
        None => None,
        Some(c) => if trim(cell_raw_text(c)).len() == 0 {
            None
        } else {
            Some(trim(cell_raw_text(c)))
        },
    }
}

/// The text of a cell of the definition sheet.
pub fn cell_to_string(cell: Option<&CellValue>) -> (res: Option<String>)
    ensures
        match res {
            Some(s) => cell_text(match cell {
                Some(c) => Some(*c),
                None => None,
            }) == Some(s@),
            None => cell_text(match cell {
                Some(c) => Some(*c),
                None => None,
            }) is None,
        },
{
    let value = match cell {
        None => return None,
        Some(v) => v,
    };
    let text = match value {
        CellValue::Text(s) => trim_str(s.as_str()),
        CellValue::Float(d) => {
            let v = chars_of(d.as_str());
            let n = v.len();
            if n >= 2 && v[n - 2] == '.' && v[n - 1] == '0' {
                assert(v@.subrange(n - 2, n as int) =~= seq!['.', '0']);
                string_from_range(&v, 0, n - 2)
            } else {
                proof {
                    if n >= 2 && v@.subrange(n - 2, n as int) == seq!['.', '0'] {
                        assert(v@.subrange(n - 2, n as int)[0] == v@[n - 2]);
                        assert(v@.subrange(n - 2, n as int)[1] == v@[n - 1]);
                    }
                }
                string_from_range(&v, 0, n)
            }
        },
        CellValue::Int(i) => {
            let mut out = String::new();
            crate::text::push_signed_decimal(&mut out, *i);
            proof {
                reveal_strlit("");
            }
            out
        },
        CellValue::Bool(b) => if *b {
            to_owned_string("true")
        } else {
            to_owned_string("false")
        },
        CellValue::Other(s) => s.clone(),
        CellValue::Empty => String::new(),
    };
    proof {
        reveal_strlit("");
    }
    let t = trim_str(text.as_str());
    assert(text@ == cell_raw_text(*value)) by {
        if let CellValue::Float(d) = value {
            assert(d@.subrange(0, d@.len() as int) =~= d@);
        }
    }
    if t.as_str().is_empty() {
        None
    } else {
        Some(t)
    }
}

/// The four cells of one column of the definition sheet: the field's name,
/// its description, examples and allowed values.
#[derive(Debug, Clone)]
pub struct ColumnCells {
    pub header: Option<CellValue>,
    pub description: Option<CellValue>,
    pub examples: Option<CellValue>,
    pub allowed: Option<CellValue>,
}

/// Why a definition sheet was refused.
#[derive(Debug, Clone, PartialEq, Eq)]
pub enum SpecError {
    /// The file is not a readable XLSX workbook.
    Unreadable,
    /// The workbook has no sheet.
    NoSheet,
    /// Column `n` (counted from one) names a field but describes it in no way.
    ColumnUndescribed(usize),
    /// Column `n` gives both examples and allowed values.
    ExamplesAndAllowed(usize),
    /// No column names a field.
    NoFields,
}

impl SpecError {
    pub open spec fn spec_message(self) -> Seq<char> {
        match self {
            SpecError::Unreadable => "无法打开 XLSX 文件，请确认文件格式无误"@,
            SpecError::NoSheet => "Excel 中未找到任何工作表"@,
            SpecError::ColumnUndescribed(n) => "第 "@ + decimal(n as nat) + " 列至少需要填写说明、示例或枚举之一。"@,
            SpecError::ExamplesAndAllowed(n) => "第 "@ + decimal(n as nat) + " 列的示例与枚举不能同时填写，请二选一。"@,
            SpecError::NoFields => "字段定义表中未找到有效的列，请检查前四行内容。"@,
        }
    }

    /// The message shown for the refusal.
    pub fn message(&self) -> (res: String)
        ensures
            res@ == self.spec_message(),
    {
        match self {
            SpecError::Unreadable => to_owned_string("无法打开 XLSX 文件，请确认文件格式无误"),
            SpecError::NoSheet => to_owned_string("Excel 中未找到任何工作表"),
            SpecError::ColumnUndescribed(n) => {
                let mut out = to_owned_string("第 ");
                push_decimal(&mut out, *n as u64);
                push_str(&mut out, " 列至少需要填写说明、示例或枚举之一。");
                out
            },
            SpecError::ExamplesAndAllowed(n) => {
                let mut out = to_owned_string("第 ");
                push_decimal(&mut out, *n as u64);
                push_str(&mut out, " 列的示例与枚举不能同时填写，请二选一。");
                out
            },
            SpecError::NoFields => to_owned_string("字段定义表中未找到有效的列，请检查前四行内容。"),
        }
    }
}

/// The items of an optional `;`-separated cell.
pub open spec fn cell_items(cell: Option<Seq<char>>) -> Seq<Seq<char>> {
    match cell {
        Some(raw) => semicolon_items(split(raw, seq![';'])),
        None => Seq::empty(),
    }
}

/// The field a column defines, if its header names one.
pub open spec fn column_field(col: ColumnCells) -> Option<(Seq<char>, Option<Seq<char>>, Seq<Seq<char>>, Seq<Seq<char>>)> {
    match cell_text(col.header) {
        None => None,
        Some(name) => Some(
            (
                name,
                match cell_text(col.description) {
                    Some(d) => Some(trim(d)),
                    None => None,
                },
                cell_items(cell_text(col.examples)),
                cell_items(cell_text(col.allowed)),
            ),
        ),
    }
}

/// The first refused column among the first `n`, as the error it gives.
pub open spec fn first_column_error(cols: Seq<ColumnCells>, n: int) -> Option<SpecError>
    decreases n,
{
    if n <= 0 {
        None
    } else {
        match first_column_error(cols, n - 1) {
            Some(e) => Some(e),
            None => {
                let c = cols[n - 1];
                if cell_text(c.header) is None {
                    None
                } else if cell_text(c.description) is None && cell_text(c.examples) is None && cell_text(
                    c.allowed,
                ) is None {
                    Some(SpecError::ColumnUndescribed(n as usize))
                } else if cell_text(c.examples) is Some && cell_text(c.allowed) is Some {
                    Some(SpecError::ExamplesAndAllowed(n as usize))
                } else {
                    None
                }
            },
        }
    }
}

/// The fields the first `n` columns define, in order.
pub open spec fn columns_fields(cols: Seq<ColumnCells>, n: int) -> Seq<
    (Seq<char>, Option<Seq<char>>, Seq<Seq<char>>, Seq<Seq<char>>),
>
    decreases n,
{
    if n <= 0 {
        Seq::empty()
    } else {
        match column_field(cols[n - 1]) {
            Some(f) => columns_fields(cols, n - 1).push(f),
            None => columns_fields(cols, n - 1),
        }
    }
}

/// A field as texts.
pub open spec fn field_view(f: ExtractionField) -> (Seq<char>, Option<Seq<char>>, Seq<Seq<char>>, Seq<Seq<char>>) {
    (
        f.name@,
        match f.description {
            Some(d) => Some(d@),
            None => None,
        },
        views_of(f.examples@),
        views_of(f.allowed_values@),
    )
}

/// What reading the fields of the columns `cols` gives: the first refused
/// column's error, `NoFields` when no column names a field, otherwise the
/// fields of the named columns in order.
pub open spec fn fields_outcome(cols: Seq<ColumnCells>, res: Result<Vec<ExtractionField>, SpecError>) -> bool {
    match first_column_error(cols, cols.len() as int) {
        Some(e) => res == Err::<Vec<ExtractionField>, SpecError>(e),
        None => if columns_fields(cols, cols.len() as int).len() == 0 {
            res == Err::<Vec<ExtractionField>, SpecError>(SpecError::NoFields)
        } else {
            res matches Ok(fields) && fields@.map_values(|f: ExtractionField| field_view(f)) == columns_fields(
                cols,
                cols.len() as int,
            )
        },
    }
}

/// Reads the fields of the definition sheet, column by column: a column
/// without a name is skipped; a named column needs a description, examples
/// or allowed values, and not both examples and allowed values.
pub fn fields_from_columns(columns: &Vec<ColumnCells>) -> (res: Result<Vec<ExtractionField>, SpecError>)
    ensures
        fields_outcome(columns@, res),
{
    let mut fields: Vec<ExtractionField> = Vec::new();
    let mut k: usize = 0;
    while k < columns.len()
        invariant
            k <= columns.len(),
            first_column_error(columns@, k as int) is None,
            fields@.map_values(|f: ExtractionField| field_view(f)) == columns_fields(columns@, k as int),
        decreases columns.len() - k,
    {
        let col = &columns[k];
        let name = cell_to_string(col.header.as_ref());
        match name {
            None => {},
            Some(name) => {
                let description = cell_to_string(col.description.as_ref());
                let examples = cell_to_string(col.examples.as_ref());
                let allowed = cell_to_string(col.allowed.as_ref());
                if description.is_none() && examples.is_none() && allowed.is_none() {
                    proof {
                        assert(first_column_error(columns@, k + 1) == Some(SpecError::ColumnUndescribed((k + 1) as usize)));
                        lemma_column_error_stays(columns@, k + 1, columns@.len() as int);
                    }
                    return Err(SpecError::ColumnUndescribed(k + 1));
                }
                if examples.is_some() && allowed.is_some() {
                    proof {
                        assert(first_column_error(columns@, k + 1) == Some(SpecError::ExamplesAndAllowed((k + 1) as usize)));
                        lemma_column_error_stays(columns@, k + 1, columns@.len() as int);
                    }
                    return Err(SpecError::ExamplesAndAllowed(k + 1));
                }
                let name = trim_str(name.as_str());
                let description = match description {
                    Some(d) => Some(trim_str(d.as_str())),
                    None => None,
                };
                let examples = match examples {
                    Some(raw) => split_semicolon(raw.as_str()),
                    None => Vec::new(),
                };
                let allowed_values = match allowed {
                    Some(raw) => split_semicolon(raw.as_str()),
                    None => Vec::new(),
                };
                let ghost before = fields@.map_values(|f: ExtractionField| field_view(f));
                let field = ExtractionField { name, description, examples, allowed_values };
                proof {
                    let c = columns@[k as int];
                    let nm = cell_text(c.header)->0;
                    crate::text::lemma_trim_idempotent(cell_raw_text(c.header->0));
                    assert(field.name@ == nm);
                    assert(views_of(field.examples@) =~= cell_items(cell_text(c.examples)));
                    assert(views_of(field.allowed_values@) =~= cell_items(cell_text(c.allowed)));
                    assert(field_view(field) == column_field(c)->0);
                }
                fields.push(field);
                assert(fields@.map_values(|f: ExtractionField| field_view(f)) =~= before.push(
                    column_field(columns@[k as int])->0,
                ));
            },
        }
        k = k + 1;
    }
    if fields.len() == 0 {
        return Err(SpecError::NoFields);
    }
    Ok(fields)
}

/// The columns `calamine` reads from the first sheet of an XLSX workbook:
/// rows one to four of each column, each cell as the text `calamine`
/// displays for it (floats marked as such); `Unreadable` or `NoSheet` when
/// the workbook cannot be read.
pub uninterp spec fn xlsx_spec_columns(bytes: Seq<u8>) -> Result<Seq<ColumnCells>, SpecError>;

/// Opens the bytes with `calamine::Xlsx::new`, takes the first sheet with
/// `worksheet_range_at(0)`, and hands back, for each column of the sheet's
/// range, its first four cells: a float as `Float` of its display, any
/// other cell as `Other` of its display (empty for an empty cell). The
/// result is the named function `xlsx_spec_columns` of the bytes; a refusal
/// is `Unreadable`, or `NoSheet` for a workbook without a sheet.
#[verifier::external_body]
pub(crate) fn read_spec_columns(bytes: &[u8]) -> (res: Result<Vec<ColumnCells>, SpecError>)
    ensures
        match res {
            Ok(cols) => xlsx_spec_columns(bytes@) == Ok::<Seq<ColumnCells>, SpecError>(cols@),
            Err(e) => xlsx_spec_columns(bytes@) == Err::<Seq<ColumnCells>, SpecError>(e) && (e is Unreadable
                || e is NoSheet),
        },
{
    let range = Xlsx::new(Cursor::new(bytes)).map_err(|_| SpecError::Unreadable)?.worksheet_range_at(0)
        .ok_or(SpecError::NoSheet)?.map_err(|_| SpecError::Unreadable)?;
    let cell = |r: usize, c: usize| range.get((r, c)).map(|d| match d {
        DataType::Float(_) => CellValue::Float(d.to_string()),
        other => CellValue::Other(other.to_string()),
    });
    let cols = range.get_size().1;
    Ok((0..cols).map(|c| ColumnCells { header: cell(0, c), description: cell(1, c), examples: cell(2, c), allowed: cell(3, c) }).collect())
}

/// Reads the field definitions from an uploaded XLSX sheet: the sheet's
/// columns as `xlsx_spec_columns` gives them, then the fields of those
/// columns as `fields_from_columns` reads them.
pub fn parse_extraction_spec(bytes: &[u8]) -> (res: Result<Vec<ExtractionField>, SpecError>)
    ensures
        match xlsx_spec_columns(bytes@) {
            Err(e) => res == Err::<Vec<ExtractionField>, SpecError>(e),
            Ok(cols) => fields_outcome(cols, res),
        },
{
    let columns = read_spec_columns(bytes)?;
    fields_from_columns(&columns)
}

/// A paper's text cut to its first 20000 characters, and whether it was cut.
pub fn clamp_document_text(text: &str) -> (res: (String, bool))
    ensures
        text@.len() <= MAX_DOCUMENT_TEXT_CHARS ==> res.0@ == text@ && !res.1,
        text@.len() > MAX_DOCUMENT_TEXT_CHARS ==> res.0@ == text@.take(MAX_DOCUMENT_TEXT_CHARS as int) && res.1,
{
    let v = chars_of(text);
    if v.len() <= MAX_DOCUMENT_TEXT_CHARS {
        assert(v@.subrange(0, v@.len() as int) =~= v@);
        (string_from_range(&v, 0, v.len()), false)
    } else {
        let clipped = string_from_range(&v, 0, MAX_DOCUMENT_TEXT_CHARS);
        assert(clipped@ =~= text@.take(MAX_DOCUMENT_TEXT_CHARS as int));
        (clipped, true)
    }
}

proof fn lemma_decimal_20000()
    ensures
        decimal(20000) == seq!['2', '0', '0', '0', '0'],
{
    reveal_with_fuel(decimal, 6);
    assert(decimal(20000) =~= seq!['2', '0', '0', '0', '0']);
}

proof fn lemma_column_error_stays(cols: Seq<ColumnCells>, m: int, n: int)
    requires
        0 <= m <= n,
        first_column_error(cols, m) is Some,
    ensures
        first_column_error(cols, n) == first_column_error(cols, m),
    decreases n - m,
{
    if m < n {
        lemma_column_error_stays(cols, m, n - 1);
    }
}

/// The status detail of a paper whose text was cut.
pub fn ensure_status_detail(truncated: bool) -> (res: Option<String>)
    ensures
        truncated ==> (res matches Some(s) && s@ == "正文超过 20000 字符，已截断后送入模型。"@),
        !truncated ==> res is None,
{
    if truncated {
        let mut out = to_owned_string("正文超过 ");
        push_decimal(&mut out, MAX_DOCUMENT_TEXT_CHARS as u64);
        push_str(&mut out, " 字符，已截断后送入模型。");
        proof {
            reveal_strlit("正文超过 ");
            reveal_strlit(" 字符，已截断后送入模型。");
            reveal_strlit("正文超过 20000 字符，已截断后送入模型。");
            lemma_decimal_20000();
            assert(out@ =~= "正文超过 20000 字符，已截断后送入模型。"@);
        }
        Some(out)
    } else {
        None
    }
}

/// The description line of a field, if it has a description.
pub open spec fn description_line(f: ExtractionField) -> Seq<char> {
    match f.description {
        Some(d) => "   说明："@ + d@ + "\n"@,
        None => Seq::empty(),
    }
}

/// The examples line of a field, if it has examples.
pub open spec fn examples_line(f: ExtractionField) -> Seq<char> {
    if f.examples@.len() > 0 {
        "   示例："@ + join(views_of(f.examples@), "；"@) + "\n"@
    } else {
        Seq::empty()
    }
}

/// The allowed-values line of a field, if it has allowed values.
pub open spec fn allowed_line(f: ExtractionField) -> Seq<char> {
    if f.allowed_values@.len() > 0 {
        "   枚举值："@ + join(views_of(f.allowed_values@), "；"@) + "\n"@
    } else {
        Seq::empty()
    }
}

/// The lines describing field number `idx` (counted from zero).
pub open spec fn field_block(idx: nat, f: ExtractionField) -> Seq<char> {
    decimal(idx + 1) + ". "@ + f.name@ + "\n"@ + description_line(f) + examples_line(f) + allowed_line(f) + "\n"@
}

/// The lines describing the first `n` fields.
pub open spec fn fields_description(fields: Seq<ExtractionField>, n: int) -> Seq<char>
    decreases n,
{
    if n <= 0 {
        Seq::empty()
    } else {
        fields_description(fields, n - 1) + field_block((n - 1) as nat, fields[n - 1])
    }
}

/// The prompt for one paper.
pub open spec fn user_prompt(
    filename: Seq<char>,
    fields: Seq<ExtractionField>,
    guidance: Seq<char>,
    doc_text: Seq<char>,
    truncated: bool,
) -> Seq<char> {
    "文件名："@ + filename + "\n\n"@ + "请根据以下字段定义从论文中提取信息：\n"@ + fields_description(
        fields,
        fields.len() as int,
    ) + (if trim(guidance).len() > 0 {
        "输出要求：\n"@ + trim(guidance) + "\n\n"@
    } else {
        Seq::empty()
    }) + (if truncated {
        "注意：正文已截断至前 20000 个字符，请结合上下文谨慎推理。\n\n"@
    } else {
        Seq::empty()
    }) + "以下为论文正文内容：\n\n"@ + doc_text
}

fn push_description(out: &mut String, f: &ExtractionField)
    ensures
        final(out)@ == old(out)@ + description_line(*f),
{
    match &f.description {
        Some(d) => {
            push_str(out, "   说明：");
            push_str(out, d.as_str());
            push_str(out, "\n");
        },
        None => {
            assert(old(out)@ + description_line(*f) =~= old(out)@);
        },
    }
}

fn push_list_line(out: &mut String, label: &str, items: &Vec<String>)
    ensures
        items@.len() > 0 ==> final(out)@ == old(out)@ + (label@ + join(views_of(items@), "；"@) + "\n"@),
        items@.len() == 0 ==> final(out)@ == old(out)@,
{
    if items.len() > 0 {
        push_str(out, label);
        let joined = join_strings(items, "；");
        push_str(out, joined.as_str());
        push_str(out, "\n");
    }
}

/// Builds the lines of one field.
fn describe_field(out: &mut String, idx: usize, f: &ExtractionField)
    requires
        idx < usize::MAX,
    ensures
        final(out)@ == old(out)@ + field_block(idx as nat, *f),
{
    let ghost s0 = out@;
    push_decimal(out, (idx + 1) as u64);
    push_str(out, ". ");
    push_str(out, f.name.as_str());
    push_str(out, "\n");
    let ghost s1 = out@;
    push_description(out, f);
    let ghost s2 = out@;
    push_list_line(out, "   示例：", &f.examples);
    let ghost s3 = out@;
    assert(s3 == s2 + examples_line(*f)) by {
        if f.examples@.len() == 0 {
            assert(s2 + examples_line(*f) =~= s2);
        }
    }
    push_list_line(out, "   枚举值：", &f.allowed_values);
    let ghost s4 = out@;
    assert(s4 == s3 + allowed_line(*f)) by {
        if f.allowed_values@.len() == 0 {
            assert(s3 + allowed_line(*f) =~= s3);
        }
    }
    push_str(out, "\n");
    assert(out@ =~= s0 + field_block(idx as nat, *f));
}

/// Builds the prompt for one paper from its file name, the fields, the
/// output guidance, its (possibly cut) text and whether it was cut.
pub fn build_user_prompt(
    filename: &str,
    fields: &Vec<ExtractionField>,
    guidance: &str,
    doc_text: &str,
    truncated: bool,
) -> (res: String)
    requires
        fields@.len() < usize::MAX,
    ensures
        res@ == user_prompt(filename@, fields@, guidance@, doc_text@, truncated),
{
    let mut buffer = to_owned_string("文件名：");
    push_str(&mut buffer, filename);
    push_str(&mut buffer, "\n\n");
    push_str(&mut buffer, "请根据以下字段定义从论文中提取信息：\n");
    let ghost head = buffer@;
    let mut k: usize = 0;
    while k < fields.len()
        invariant
            k <= fields.len(),
            fields@.len() < usize::MAX,
            buffer@ == head + fields_description(fields@, k as int),
        decreases fields.len() - k,
    {
        describe_field(&mut buffer, k, &fields[k]);
        k = k + 1;
        assert(buffer@ =~= head + fields_description(fields@, k as int));
    }
    let ghost mid = buffer@;
    let g = trim_str(guidance);
    if !g.as_str().is_empty() {
        push_str(&mut buffer, "输出要求：\n");
        push_str(&mut buffer, g.as_str());
        push_str(&mut buffer, "\n\n");
    }
    let ghost mid2 = buffer@;
    if truncated {
        push_str(&mut buffer, "注意：正文已截断至前 ");
        push_decimal(&mut buffer, MAX_DOCUMENT_TEXT_CHARS as u64);
        push_str(&mut buffer, " 个字符，请结合上下文谨慎推理。\n\n");
        proof {
            reveal_strlit("注意：正文已截断至前 ");
            reveal_strlit(" 个字符，请结合上下文谨慎推理。\n\n");
            reveal_strlit("注意：正文已截断至前 20000 个字符，请结合上下文谨慎推理。\n\n");
            lemma_decimal_20000();
            assert("注意：正文已截断至前 "@ + decimal(20000) + " 个字符，请结合上下文谨慎推理。\n\n"@
                =~= "注意：正文已截断至前 20000 个字符，请结合上下文谨慎推理。\n\n"@);
        }
    }
    push_str(&mut buffer, "以下为论文正文内容：\n\n");
    push_str(&mut buffer, doc_text);
    proof {
        reveal_strlit("");
        assert(buffer@ =~= user_prompt(filename@, fields@, guidance@, doc_text@, truncated));
    }
    buffer
}

/// The request for one paper: the trimmed system prompt, when not blank,
/// then the paper's prompt.
pub fn extraction_request(model: &str, system_prompt: &str, user_prompt_text: String) -> (res: LlmRequest)
    ensures
        res.model@ == model@,
        res.attachments@.len() == 0,
        trim(system_prompt@).len() > 0 ==> res.messages@.len() == 2 && res.messages@[0].role == MessageRole::System
            && res.messages@[0].text@ == trim(system_prompt@) && res.messages@[1].role == MessageRole::User
            && res.messages@[1].text@ == user_prompt_text@,
        trim(system_prompt@).len() == 0 ==> res.messages@.len() == 1 && res.messages@[0].role == MessageRole::User
            && res.messages@[0].text@ == user_prompt_text@,
{
    let mut messages: Vec<ChatMessage> = Vec::new();
    let system = trim_str(system_prompt);
    if !system.as_str().is_empty() {
        messages.push(ChatMessage::new(MessageRole::System, system));
    }
    messages.push(ChatMessage::new(MessageRole::User, user_prompt_text));
    LlmRequest::new(to_owned_string(model), messages)
}

/// The wait after failed attempt `attempt` (counted from one), or `None`
/// after the last.
pub fn retry_delay_ms(attempt: usize) -> (res: Option<u64>)
    ensures
        1 <= attempt < MAX_RETRIES ==> res == Some((RETRY_DELAY_MS * attempt) as u64),
        !(1 <= attempt < MAX_RETRIES) ==> res is None,
{
    if attempt >= 1 && attempt < MAX_RETRIES {
        Some(RETRY_DELAY_MS * (attempt as u64))
    } else {
        None
    }
}

/// Index of the first `c` in `s`, or `-1`.
pub open spec fn first_index_of(s: Seq<char>, c: char) -> int
    decreases s.len(),
{
    if s.len() == 0 {
        -1
    } else if first_index_of(s.drop_last(), c) >= 0 {
        first_index_of(s.drop_last(), c)
    } else if s.last() == c {
        s.len() - 1
    } else {
        -1
    }
}

/// Where a reply's JSON object is looked for: the trimmed reply, and the
/// text from its first `{` to its last `}` when the last comes after the
/// first.
pub open spec fn json_candidates(reply: Seq<char>) -> (Seq<char>, Option<Seq<char>>) {
    let t = trim(reply);
    let start = first_index_of(t, '{');
    let end = crate::paths::last_index_of(t, '}');
    (t, if start >= 0 && end >= 0 && end > start {
        Some(t.subrange(start, end + 1))
    } else {
        None
    })
}

/// `first_index_of` points at the first occurrence, or is `-1` when there
/// is none.
proof fn lemma_first_index_of_bounds(s: Seq<char>, c: char)
    ensures
        -1 <= first_index_of(s, c) < s.len(),
        first_index_of(s, c) >= 0 ==> s[first_index_of(s, c)] == c,
        forall|j: int| 0 <= j < s.len() && (first_index_of(s, c) < 0 || j < first_index_of(s, c)) ==> s[j] != c,
    decreases s.len(),
{
    if s.len() > 0 {
        lemma_first_index_of_bounds(s.drop_last(), c);
        assert forall|j: int| 0 <= j < s.len() && (first_index_of(s, c) < 0 || j < first_index_of(s, c)) implies s[j]
            != c by {
            if j < s.len() - 1 {
                assert(s.drop_last()[j] == s[j]);
            }
        }
        if first_index_of(s.drop_last(), c) >= 0 {
            assert(s.drop_last()[first_index_of(s, c)] == s[first_index_of(s, c)]);
        }
    }
}

/// Where the JSON object of a reply is looked for: first the whole trimmed
/// reply; then, when the trimmed reply has a `{` before a later `}`, the
/// span from its first `{` to its last `}`, both included; no other span.
pub proof fn lemma_json_candidate_span(reply: Seq<char>)
    ensures
        json_candidates(reply).0 == trim(reply),
        json_candidates(reply).1 matches Some(c) ==> exists|a: int, b: int|
            #![trigger trim(reply)[a], trim(reply)[b]]
            0 <= a < b < trim(reply).len() && c == trim(reply).subrange(a, b + 1) && trim(reply)[a] == '{' && trim(
                reply,
            )[b] == '}' && (forall|k: int| 0 <= k < a ==> trim(reply)[k] != '{') && (forall|k: int|
                b < k < trim(reply).len() ==> trim(reply)[k] != '}'),
        json_candidates(reply).1 is None ==> forall|a: int, b: int|
            0 <= a < b < trim(reply).len() && #[trigger] trim(reply)[a] == '{' ==> #[trigger] trim(reply)[b] != '}',
{
    let t = trim(reply);
    lemma_first_index_of_bounds(t, '{');
    crate::paths::lemma_last_index_of_bounds(t, '}');
    let a = first_index_of(t, '{');
    let b = crate::paths::last_index_of(t, '}');
    if json_candidates(reply).1 is None {
        assert forall|x: int, y: int| 0 <= x < y < t.len() && #[trigger] t[x] == '{' implies #[trigger] t[y] != '}' by {
            if t[y] == '}' {
                assert(a >= 0 && a <= x);
                assert(b >= y);
            }
        }
    } else {
        assert(t[a] == '{' && t[b] == '}');
    }
}

/// The texts a reply's JSON object is parsed from, in order of preference.
pub fn json_object_candidates(reply: &str) -> (res: (String, Option<String>))
    ensures
        res.0@ == json_candidates(reply@).0,
        match res.1 {
            Some(c) => json_candidates(reply@).1 == Some(c@),
            None => json_candidates(reply@).1 is None,
        },
{
    let t = trim_str(reply);
    let v = chars_of(t.as_str());
    let mut start: usize = 0;
    assert(v@.take(0) =~= Seq::<char>::empty());
    while start < v.len() && v[start] != '{'
        invariant
            start <= v.len(),
            v@ == t@,
            first_index_of(v@.take(start as int), '{') == -1,
        decreases v.len() - start,
    {
        assert(v@.take(start + 1).drop_last() =~= v@.take(start as int));
        start = start + 1;
    }
    proof {
        lemma_first_index_prefix(v@, '{', start as int);
    }
    let mut end: usize = v.len();
    assert(v@.take(v@.len() as int) =~= v@);
    while end > 0 && v[end - 1] != '}'
        invariant
            end <= v.len(),
            v@ == t@,
            crate::paths::last_index_of(v@, '}') == crate::paths::last_index_of(v@.take(end as int), '}'),
        decreases end,
    {
        assert(v@.take(end as int).drop_last() =~= v@.take(end - 1));
        end = end - 1;
    }
    proof {
        if end > 0 {
            assert(v@.take(end as int).last() == v@[end - 1]);
        }
    }
    let candidate = if start < v.len() && end > 0 && end - 1 > start {
        Some(string_from_range(&v, start, end))
    } else {
        None
    };
    (t, candidate)
}

proof fn lemma_first_index_prefix(s: Seq<char>, c: char, k: int)
    requires
        0 <= k <= s.len(),
        first_index_of(s.take(k), c) == -1,
        k < s.len() ==> s[k] == c,
    ensures
        k < s.len() ==> first_index_of(s, c) == k,
        k == s.len() ==> first_index_of(s, c) == -1,
    decreases s.len() - k,
{
    if k == s.len() {
        assert(s.take(k) =~= s);
    } else {
        assert(s.take(k + 1).drop_last() =~= s.take(k));
        if k + 1 < s.len() {
            lemma_first_index_keep(s, c, k + 1);
        } else {
            assert(s.take(k + 1) =~= s);
        }
    }
}

proof fn lemma_first_index_keep(s: Seq<char>, c: char, j: int)
    requires
        0 < j <= s.len(),
        first_index_of(s.take(j), c) >= 0,
    ensures
        first_index_of(s, c) == first_index_of(s.take(j), c),
    decreases s.len() - j,
{
    if j < s.len() {
        assert(s.take(j + 1).drop_last() =~= s.take(j));
        lemma_first_index_keep(s, c, j + 1);
    } else {
        assert(s.take(j) =~= s);
    }
}

/// The outside JSON value type.
#[verifier::external_type_specification]
#[verifier::external_body]
pub struct ExJsonValue(serde_json::Value);

/// Whether `serde_json::from_str` reads `text` as a JSON object.
pub uninterp spec fn json_object_text(text: Seq<char>) -> bool;

/// Parses `text` with `serde_json::from_str::<Value>` and keeps the value
/// only when it is an object; whether it is, is the named function
/// `json_object_text` of the text.
#[verifier::external_body]
fn parse_json_object(text: &str) -> (res: Option<Value>)
    ensures
        res is Some <==> json_object_text(text@),
{
    match serde_json::from_str::<Value>(text) {
        Ok(Value::Object(map)) => Some(Value::Object(map)),
        _ => None,
    }
}

/// The JSON object in a model's reply: the trimmed reply when it is one,
/// else the span from its first `{` to its last `}` when that is one.
pub fn extract_object_from_response(reply: &str) -> (res: Option<Value>)
    ensures
        res is Some <==> (json_object_text(json_candidates(reply@).0) || (json_candidates(reply@).1 matches Some(
            c,
        ) && json_object_text(c))),
{
    let (whole, candidate) = json_object_candidates(reply);
    let parsed = parse_json_object(whole.as_str());
    if parsed.is_some() {
        return parsed;
    }
    match candidate {
        Some(c) => parse_json_object(c.as_str()),
        None => None,
    }
}

/// Shown when no attempt gave a JSON object.
pub const NOT_A_JSON_OBJECT: &'static str = "模型输出不是可解析的 JSON 对象";

/// The attempts on one paper so far: how many were made, the tokens they
/// used, the last error and reply, and the object once one parsed.
pub struct ExtractionAttempts {
    pub attempts: usize,
    pub tokens: i64,
    pub last_error: Option<String>,
    pub last_response: Option<String>,
    pub parsed: Option<Value>,
}

/// `total + more`, held at `i64::MAX`.
pub open spec fn tokens_after(total: i64, more: u64) -> i64 {
    if total + more > i64::MAX {
        i64::MAX
    } else {
        (total + more) as i64
    }
}

impl ExtractionAttempts {
    /// No attempt yet.
    pub fn new() -> (res: Self)
        ensures
            res.attempts == 0,
            res.tokens == 0,
            res.last_error is None,
            res.last_response is None,
            res.parsed is None,
    {
        ExtractionAttempts { attempts: 0, tokens: 0, last_error: None, last_response: None, parsed: None }
    }

    /// Whether to call the model again: no object yet and fewer than
    /// `MAX_RETRIES` attempts. When it answers yes, the attempt is counted.
    pub fn next_call(&mut self) -> (res: bool)
        ensures
            res == (old(self).parsed is None && old(self).attempts < MAX_RETRIES),
            final(self).attempts == if res { old(self).attempts + 1 } else { old(self).attempts as int },
            final(self).tokens == old(self).tokens,
            final(self).last_error == old(self).last_error,
            final(self).last_response == old(self).last_response,
            final(self).parsed == old(self).parsed,
    {
        if self.parsed.is_none() && self.attempts < MAX_RETRIES {
            self.attempts = self.attempts + 1;
            true
        } else {
            false
        }
    }

    /// Takes a reply: its tokens are added (held at `i64::MAX`), it becomes
    /// the last reply, and its JSON object, if `extract_object_from_response`
    /// finds one, is kept and clears the last error; otherwise the last
    /// error says the reply held no object. Answers the wait before the
    /// next attempt: none after a parsed reply, else `retry_delay_ms`.
    pub fn record_reply(&mut self, text: String, tokens: u64) -> (res: Option<u64>)
        ensures
            final(self).attempts == old(self).attempts,
            final(self).tokens == tokens_after(old(self).tokens, tokens),
            final(self).last_response == Some(text),
            (final(self).parsed is Some) <==> (json_object_text(json_candidates(text@).0) || (json_candidates(
                text@,
            ).1 matches Some(c) && json_object_text(c))),
            final(self).parsed is Some ==> final(self).last_error is None && res is None,
            final(self).parsed is None ==> (final(self).last_error matches Some(e) && e@ == NOT_A_JSON_OBJECT@),
            final(self).parsed is None ==> res == (if 1 <= old(self).attempts < MAX_RETRIES {
                Some((RETRY_DELAY_MS * old(self).attempts) as u64)
            } else {
                None::<u64>
            }),
    {
        let sum: i128 = self.tokens as i128 + tokens as i128;
        self.tokens = if sum > i64::MAX as i128 { i64::MAX } else { sum as i64 };
        let parsed = extract_object_from_response(text.as_str());
        self.last_response = Some(text);
        if parsed.is_some() {
            self.parsed = parsed;
            self.last_error = None;
            None
        } else {
            self.parsed = None;
            self.last_error = Some(to_owned_string(NOT_A_JSON_OBJECT));
            retry_delay_ms(self.attempts)
        }
    }

    /// Takes a failed call: its message becomes the last error. Answers the
    /// wait before the next attempt, as `retry_delay_ms` gives it.
    pub fn record_failure(&mut self, message: String) -> (res: Option<u64>)
        ensures
            final(self).attempts == old(self).attempts,
            final(self).tokens == old(self).tokens,
            final(self).last_response == old(self).last_response,
            final(self).parsed == old(self).parsed,
            final(self).last_error == Some(message),
            res == (if 1 <= old(self).attempts < MAX_RETRIES {
                Some((RETRY_DELAY_MS * old(self).attempts) as u64)
            } else {
                None::<u64>
            }),
    {
        self.last_error = Some(message);
        retry_delay_ms(self.attempts)
    }
}

/// Why an upload to the extractor was refused.
#[derive(Debug, Clone, Copy, PartialEq, Eq, Structural)]
pub enum ExtractUploadRefusal {
    NotPdf,
    SecondSpec,
    SpecNotXlsx,
    NoDocuments,
    TooManyDocuments,
    NoSpec,
}

impl ExtractUploadRefusal {
    pub open spec fn spec_message(self) -> Seq<char> {
        match self {
            ExtractUploadRefusal::NotPdf => "仅支持上传 PDF 文件。"@,
            ExtractUploadRefusal::SecondSpec => "仅允许上传 1 个字段定义表。"@,
            ExtractUploadRefusal::SpecNotXlsx => "字段定义表必须为 XLSX 格式。"@,
            ExtractUploadRefusal::NoDocuments => "请至少上传一篇 PDF 论文。"@,
            ExtractUploadRefusal::TooManyDocuments => "单次任务最多 100 篇 PDF。"@,
            ExtractUploadRefusal::NoSpec => "请上传字段定义表 XLSX。"@,
        }
    }

    /// The message shown for the refusal.
    pub fn message(&self) -> (res: String)
        ensures
            res@ == self.spec_message(),
    {
        match self {
            ExtractUploadRefusal::NotPdf => to_owned_string("仅支持上传 PDF 文件。"),
            ExtractUploadRefusal::SecondSpec => to_owned_string("仅允许上传 1 个字段定义表。"),
            ExtractUploadRefusal::SpecNotXlsx => to_owned_string("字段定义表必须为 XLSX 格式。"),
            ExtractUploadRefusal::NoDocuments => to_owned_string("请至少上传一篇 PDF 论文。"),
            ExtractUploadRefusal::TooManyDocuments => to_owned_string("单次任务最多 100 篇 PDF。"),
            ExtractUploadRefusal::NoSpec => to_owned_string("请上传字段定义表 XLSX。"),
        }
    }
}

/// The name a paper is stored under: `paper_`, its number on three digits,
/// `_`, its sanitized name.
pub fn paper_file_name(index: usize, sanitized_name: &str) -> (res: String)
    ensures
        res@ == "paper_"@ + zero_pad(decimal(index as nat), 3) + "_"@ + sanitized_name@,
{
    let naming = crate::naming::FileNaming::Indexed { prefix: "paper_", pad_width: 3 };
    let out = naming.build_name(index, sanitized_name);
    proof {
        reveal_strlit("_");
        assert("_"@ =~= seq!['_']);
    }
    out
}

/// Whether a definition sheet's name ends in `.xlsx`, ignoring ASCII case.
pub fn is_xlsx_name(sanitized_name: &str) -> (res: bool)
    ensures
        res == (ascii_lower(sanitized_name@).len() >= 5 && ascii_lower(sanitized_name@).subrange(
            ascii_lower(sanitized_name@).len() - 5,
            ascii_lower(sanitized_name@).len() as int,
        ) == ".xlsx"@),
{
    let lower = to_ascii_lowercase(sanitized_name);
    let v = chars_of(lower.as_str());
    let n = v.len();
    proof {
        reveal_strlit(".xlsx");
    }
    if n < 5 {
        return false;
    }
    let tail = string_from_range(&v, n - 5, n);
    str_eq(tail.as_str(), ".xlsx")
}

/// The summary of a finished job, from the papers processed and those that
/// succeeded.
pub open spec fn job_summary(total: nat, succeeded: nat) -> Seq<char> {
    if succeeded == total && total > 0 {
        decimal(total) + " 篇文献已全部提取完成。"@
    } else if succeeded > 0 {
        decimal(succeeded) + " 篇成功，"@ + decimal((total - succeeded) as nat) + " 篇失败。"@
    } else if total > 0 {
        "所有尝试均失败，请检查输入后重试。"@
    } else {
        "任务执行失败，未能处理任何文献。"@
    }
}

/// How a job ends: completed when some paper succeeded and the result
/// workbook was written; the summary then, or the messages of a failed
/// workbook.
pub fn finish_extraction_job(total: usize, succeeded: usize, workbook_written: bool) -> (res: (
    JobStatus,
    String,
    Option<String>,
))
    requires
        succeeded <= total,
    ensures
        succeeded > 0 && workbook_written ==> res.0 == JobStatus::Completed && res.1@ == job_summary(
            total as nat,
            succeeded as nat,
        ) && res.2 is None,
        succeeded > 0 && !workbook_written ==> res.0 == JobStatus::Failed && res.1@ == "部分文献完成，但结果文件生成失败。"@
            && (res.2 matches Some(e) && e@ == "提取成功但结果汇总文件生成失败，请联系管理员。"@),
        succeeded == 0 ==> res.0 == JobStatus::Failed && res.1@ == job_summary(total as nat, 0) && res.2 is None,
{
    if succeeded > 0 && !workbook_written {
        return (
            JobStatus::Failed,
            to_owned_string("部分文献完成，但结果文件生成失败。"),
            Some(to_owned_string("提取成功但结果汇总文件生成失败，请联系管理员。")),
        );
    }
    let summary = if succeeded == total && total > 0 {
        let mut out = String::new();
        push_decimal(&mut out, total as u64);
        push_str(&mut out, " 篇文献已全部提取完成。");
        proof {
            reveal_strlit("");
        }
        out
    } else if succeeded > 0 {
        let mut out = String::new();
        push_decimal(&mut out, succeeded as u64);
        push_str(&mut out, " 篇成功，");
        push_decimal(&mut out, (total - succeeded) as u64);
        push_str(&mut out, " 篇失败。");
        proof {
            reveal_strlit("");
        }
        out
    } else if total > 0 {
        to_owned_string("所有尝试均失败，请检查输入后重试。")
    } else {
        to_owned_string("任务执行失败，未能处理任何文献。")
    };
    if succeeded > 0 {
        (JobStatus::Completed, summary, None)
    } else {
        (JobStatus::Failed, summary, None)
    }
}


/// The name a paper is stored under, from its number and sanitized name.
pub open spec fn paper_name(index: nat, clean: Seq<char>) -> Seq<char> {
    "paper_"@ + zero_pad(decimal(index), 3) + "_"@ + clean
}

/// Whether a name ends in `.xlsx`, ignoring ASCII case.
pub open spec fn ends_with_xlsx(name: Seq<char>) -> bool {
    ascii_lower(name).len() >= 5 && ascii_lower(name).subrange(ascii_lower(name).len() - 5, ascii_lower(name).len() as int)
        == ".xlsx"@
}

/// The name a definition sheet was sent under, `spec.xlsx` when none.
pub open spec fn sheet_file_name(file_name: Option<&str>) -> Seq<char> {
    match file_name {
        Some(n) => n@,
        None => "spec.xlsx"@,
    }
}

/// The files of an extraction upload as they arrive: the stored names of
/// the papers, in order, and the sanitized name of the definition sheet
/// once one came.
#[derive(Debug, Clone)]
pub struct ExtractUpload {
    pub documents: Vec<String>,
    pub spec_name: Option<String>,
}

impl ExtractUpload {
    /// An upload with no file yet.
    pub fn new() -> (res: Self)
        ensures
            res.documents@.len() == 0,
            res.spec_name is None,
    {
        ExtractUpload { documents: Vec::new(), spec_name: None }
    }

    /// Takes a paper sent as `file_name`: only PDF files are accepted, by
    /// the extension of the sanitized name; the paper is stored as
    /// `paper_`, its number from zero on three digits, `_` and that name.
    pub fn accept_document(&mut self, file_name: &str) -> (res: Result<String, ExtractUploadRefusal>)
        ensures
            exists|clean: Seq<char>|
                #[trigger] is_clean_name_of(file_name@, clean) && (res is Err <==> lower_extension(clean) != "pdf"@)
                    && (res matches Ok(s) ==> s@ == paper_name(old(self).documents@.len(), clean)),
            res is Err ==> res == Err::<String, ExtractUploadRefusal>(ExtractUploadRefusal::NotPdf) && *final(self)
                == *old(self),
            res matches Ok(s) ==> final(self).documents@ == old(self).documents@.push(s) && final(self).spec_name
                == old(self).spec_name,
    {
        let clean = sanitize_file_name(file_name);
        let lower = clean_lower_extension(clean.as_str());
        proof {
            assert(is_clean_name_of(file_name@, clean@));
        }
        if !str_eq(lower.as_str(), "pdf") {
            return Err(ExtractUploadRefusal::NotPdf);
        }
        let stored = paper_file_name(self.documents.len(), clean.as_str());
        self.documents.push(stored.clone());
        Ok(stored)
    }

    /// Takes the definition sheet sent as `file_name` (`spec.xlsx` when the
    /// part has none): a second sheet is refused, then a sheet whose
    /// sanitized name does not end in `.xlsx`. Gives the sanitized name.
    pub fn accept_spec(&mut self, file_name: Option<&str>) -> (res: Result<String, ExtractUploadRefusal>)
        ensures
            old(self).spec_name is Some ==> res == Err::<String, ExtractUploadRefusal>(
                ExtractUploadRefusal::SecondSpec,
            ),
            old(self).spec_name is None ==> exists|clean: Seq<char>|
                #[trigger] is_clean_name_of(sheet_file_name(file_name), clean) && if ends_with_xlsx(clean) {
                    res matches Ok(s) && s@ == clean && final(self).spec_name == Some(s)
                        && final(self).documents == old(self).documents
                } else {
                    res == Err::<String, ExtractUploadRefusal>(ExtractUploadRefusal::SpecNotXlsx)
                },
            res is Err ==> *final(self) == *old(self),
    {
        if self.spec_name.is_some() {
            return Err(ExtractUploadRefusal::SecondSpec);
        }
        let raw: &str = match file_name {
            Some(n) => n,
            None => "spec.xlsx",
        };
        assert(raw@ == sheet_file_name(file_name));
        let clean = sanitize_file_name(raw);
        proof {
            assert(is_clean_name_of(sheet_file_name(file_name), clean@));
        }
        let xlsx = is_xlsx_name(clean.as_str());
        assert(xlsx == ends_with_xlsx(clean@));
        if !xlsx {
            return Err(ExtractUploadRefusal::SpecNotXlsx);
        }
        self.spec_name = Some(clean.clone());
        Ok(clean)
    }

    /// Ends the upload: at least one paper, at most 100, and a definition
    /// sheet are needed, checked in that order; gives the stored names of
    /// the papers and the sheet's name.
    pub fn finish(self) -> (res: Result<(Vec<String>, String), ExtractUploadRefusal>)
        ensures
            if self.documents@.len() == 0 {
                res == Err::<(Vec<String>, String), ExtractUploadRefusal>(ExtractUploadRefusal::NoDocuments)
            } else if self.documents@.len() > MAX_DOCUMENTS {
                res == Err::<(Vec<String>, String), ExtractUploadRefusal>(ExtractUploadRefusal::TooManyDocuments)
            } else {
                match self.spec_name {
                    None => res == Err::<(Vec<String>, String), ExtractUploadRefusal>(
                        ExtractUploadRefusal::NoSpec,
                    ),
                    Some(n) => res matches Ok(p) && p.0@ == self.documents@ && p.1 == n,
                }
            },
    {
        if self.documents.len() == 0 {
            return Err(ExtractUploadRefusal::NoDocuments);
        }
        if self.documents.len() > MAX_DOCUMENTS {
            return Err(ExtractUploadRefusal::TooManyDocuments);
        }
        match self.spec_name {
            None => Err(ExtractUploadRefusal::NoSpec),
            Some(n) => Ok((self.documents, n)),
        }
    }
}

} // verus!
