//! Validation and bookkeeping for multipart uploads: which fields accept
//! files, how many, with which extensions, and under which stored names.
//! The caller streams the multipart body and writes the bytes; this module
//! decides what is accepted and how it is named.

use vstd::prelude::*;

use crate::naming::{is_first_free_alternative, name_views, unique_name, FileNaming};
use crate::sanitize::{is_kept_file_name, is_unsafe_file_name_char, sanitize_file_name};
use crate::paths::{extension_or_empty, is_plain_file_name};
use crate::naming::extension_or_empty as spec_extension_or_empty;
use crate::text::{
    ascii_lower, decimal, push_char, push_decimal, push_str, str_eq, to_ascii_lowercase,
    to_owned_string,
};

verus! {

/// Error returned when validating or persisting uploaded files.
#[derive(Debug)]
pub struct UploadError {
    message: String,
}

impl View for UploadError {
    type V = Seq<char>;

    closed spec fn view(&self) -> Seq<char> {
        self.message@
    }
}

impl UploadError {
    pub fn new(message: String) -> (res: Self)
        ensures
            res@ == message@,
    {
        UploadError { message }
    }

    pub fn message(&self) -> (res: &str)
        ensures
            res@ == self@,
    {
        self.message.as_str()
    }
}

/// Configuration describing the expectations for a single multipart file field.
#[derive(Debug, Clone, Copy)]
pub struct FileFieldConfig<'a> {
    pub field_name: &'a str,
    pub allowed_extensions: &'a [&'a str],
    pub max_files: usize,
    pub min_files: usize,
    pub naming: FileNaming<'a>,
}

impl<'a> FileFieldConfig<'a> {
    /// A field that needs at least one file unless it accepts none.
    pub fn new(
        field_name: &'a str,
        allowed_extensions: &'a [&'a str],
        max_files: usize,
        naming: FileNaming<'a>,
    ) -> (res: Self)
        ensures
            res.field_name == field_name,
            res.allowed_extensions == allowed_extensions,
            res.max_files == max_files,
            res.min_files == (if max_files == 0 { 0usize } else { 1usize }),
            res.naming == naming,
    {
        FileFieldConfig {
            field_name,
            allowed_extensions,
            max_files,
            min_files: if max_files == 0 { 0 } else { 1 },
            naming,
        }
    }

    pub fn with_min_files(self, min_files: usize) -> (res: Self)
        ensures
            res == (FileFieldConfig { min_files, ..self }),
    {
        FileFieldConfig { min_files, ..self }
    }
}

/// Metadata describing a stored upload on disk.
#[derive(Debug, Clone)]
pub struct SavedFile {
    pub field_name: String,
    pub original_name: String,
    pub stored_name: String,
    pub stored_path: String,
    pub file_size: u64,
}

/// Aggregated output of an upload: the stored files in arrival order and
/// the text fields, each name with its values in arrival order.
#[derive(Debug, Default)]
pub struct UploadOutcome {
    pub files: Vec<SavedFile>,
    pub text_fields: Vec<(String, Vec<String>)>,
}

/// The files of `files` that belong to the field `name`, in order.
pub open spec fn files_of_field(files: Seq<SavedFile>, name: Seq<char>) -> Seq<SavedFile>
    decreases files.len(),
{
    if files.len() == 0 {
        Seq::empty()
    } else if files.last().field_name@ == name {
        files_of_field(files.drop_last(), name).push(files.last())
    } else {
        files_of_field(files.drop_last(), name)
    }
}

/// Index of the first entry of `fields` named `name`, or `-1`.
pub open spec fn first_entry_index(fields: Seq<(String, Vec<String>)>, name: Seq<char>) -> int
    decreases fields.len(),
{
    if fields.len() == 0 {
        -1
    } else if fields[0].0@ == name {
        0
    } else {
        let rest = first_entry_index(fields.drop_first(), name);
        if rest < 0 {
            -1
        } else {
            rest + 1
        }
    }
}

proof fn lemma_first_entry_index(fields: Seq<(String, Vec<String>)>, name: Seq<char>)
    ensures
        -1 <= first_entry_index(fields, name) < fields.len(),
        first_entry_index(fields, name) >= 0 ==> fields[first_entry_index(fields, name)].0@ == name,
        forall|j: int|
            0 <= j < fields.len() && (first_entry_index(fields, name) < 0 || j < first_entry_index(fields, name))
                ==> #[trigger] fields[j].0@ != name,
    decreases fields.len(),
{
    if fields.len() > 0 && fields[0].0@ != name {
        lemma_first_entry_index(fields.drop_first(), name);
        assert forall|j: int|
            0 <= j < fields.len() && (first_entry_index(fields, name) < 0 || j < first_entry_index(fields, name))
                implies #[trigger] fields[j].0@ != name by {
            if j > 0 {
                assert(fields.drop_first()[j - 1] == fields[j]);
            }
        }
    }
}

/// Index of the first entry named `name`.
fn find_entry(fields: &Vec<(String, Vec<String>)>, name: &str) -> (res: Option<usize>)
    ensures
        match res {
            Some(i) => i < fields@.len() && i == first_entry_index(fields@, name@),
            None => first_entry_index(fields@, name@) < 0,
        },
{
    proof {
        lemma_first_entry_index(fields@, name@);
    }
    let mut i: usize = 0;
    while i < fields.len()
        invariant
            i <= fields.len(),
            forall|j: int| 0 <= j < i ==> #[trigger] fields@[j].0@ != name@,
            -1 <= first_entry_index(fields@, name@) < fields@.len(),
            first_entry_index(fields@, name@) >= 0 ==> fields@[first_entry_index(fields@, name@)].0@ == name@,
            forall|j: int|
                0 <= j < fields@.len() && (first_entry_index(fields@, name@) < 0 || j < first_entry_index(fields@, name@))
                    ==> #[trigger] fields@[j].0@ != name@,
        decreases fields.len() - i,
    {
        if str_eq(fields[i].0.as_str(), name) {
            return Some(i);
        }
        i = i + 1;
    }
    None
}

impl UploadOutcome {
    /// The stored files of one field, in arrival order.
    pub fn files_for(&self, field_name: &str) -> (res: Vec<&SavedFile>)
        ensures
            res@.len() == files_of_field(self.files@, field_name@).len(),
            forall|i: int| 0 <= i < res@.len() ==> *res@[i] == files_of_field(self.files@, field_name@)[i],
    {
        let mut res: Vec<&SavedFile> = Vec::new();
        let mut i: usize = 0;
        while i < self.files.len()
            invariant
                i <= self.files.len(),
                res@.len() == files_of_field(self.files@.subrange(0, i as int), field_name@).len(),
                forall|k: int|
                    0 <= k < res@.len() ==> *res@[k] == files_of_field(self.files@.subrange(0, i as int), field_name@)[k],
            decreases self.files.len() - i,
        {
            let ghost prefix = self.files@.subrange(0, i as int);
            let ghost next = self.files@.subrange(0, i + 1);
            assert(next.drop_last() =~= prefix);
            if str_eq(self.files[i].field_name.as_str(), field_name) {
                res.push(&self.files[i]);
            }
            i = i + 1;
        }
        assert(self.files@.subrange(0, self.files@.len() as int) =~= self.files@);
        res
    }

    /// The first stored file of one field.
    pub fn first_file_for(&self, field_name: &str) -> (res: Option<&SavedFile>)
        ensures
            match res {
                Some(f) => files_of_field(self.files@, field_name@).len() > 0 && *f == files_of_field(
                    self.files@,
                    field_name@,
                )[0],
                None => files_of_field(self.files@, field_name@).len() == 0,
            },
    {
        let all = self.files_for(field_name);
        if all.len() > 0 {
            Some(all[0])
        } else {
            None
        }
    }

    /// The values submitted for a text field.
    pub fn text_values(&self, field_name: &str) -> (res: Option<&[String]>)
        ensures
            match res {
                Some(values) => first_entry_index(self.text_fields@, field_name@) >= 0 && values@
                    == self.text_fields@[first_entry_index(self.text_fields@, field_name@)].1@,
                None => first_entry_index(self.text_fields@, field_name@) < 0,
            },
    {
        match find_entry(&self.text_fields, field_name) {
            Some(i) => Some(self.text_fields[i].1.as_slice()),
            None => None,
        }
    }

    /// The first value submitted for a text field.
    pub fn first_text(&self, field_name: &str) -> (res: Option<&str>)
        ensures
            match res {
                Some(value) => {
                    let k = first_entry_index(self.text_fields@, field_name@);
                    k >= 0 && self.text_fields@[k].1@.len() > 0 && value@ == self.text_fields@[k].1@[0]@
                },
                None => {
                    let k = first_entry_index(self.text_fields@, field_name@);
                    k < 0 || self.text_fields@[k].1@.len() == 0
                },
            },
    {
        match self.text_values(field_name) {
            Some(values) => {
                if values.len() > 0 {
                    Some(values[0].as_str())
                } else {
                    None
                }
            },
            None => None,
        }
    }
}


/// Message for a field configured to accept no files.
pub open spec fn zero_max_message(field: Seq<char>) -> Seq<char> {
    "字段 `"@ + field + "` 的 max_files 必须大于 0"@
}

/// Message for a field that demands more files than it accepts.
pub open spec fn min_above_max_message(field: Seq<char>) -> Seq<char> {
    "字段 `"@ + field + "` 的 min_files 不能大于 max_files"@
}

/// Message for a file sent under a field that takes no files.
pub open spec fn unsupported_field_message(field: Seq<char>) -> Seq<char> {
    "不支持的文件字段: `"@ + field + "`"@
}

/// Message for a file beyond the field's limit.
pub open spec fn too_many_files_message(field: Seq<char>, max: nat) -> Seq<char> {
    "字段 `"@ + field + "` 上传文件数量超过限制 (最多 "@ + decimal(max) + ")"@
}

/// Message for a file whose extension the field does not accept.
pub open spec fn unsupported_extension_message(field: Seq<char>, extension: Seq<char>) -> Seq<char> {
    "字段 `"@ + field + "` 不支持 `"@ + extension + "` 文件类型"@
}

/// Message for a field that received fewer files than it needs.
pub open spec fn too_few_files_message(field: Seq<char>, min: nat) -> Seq<char> {
    "字段 `"@ + field + "` 至少需要上传 "@ + decimal(min) + " 个文件"@
}

/// A field configuration that can be satisfied.
pub open spec fn config_is_valid(c: FileFieldConfig) -> bool {
    c.max_files > 0 && c.min_files <= c.max_files
}

/// The error reported for an invalid field configuration.
pub open spec fn config_error(c: FileFieldConfig) -> Seq<char> {
    if c.max_files == 0 {
        zero_max_message(c.field_name@)
    } else {
        min_above_max_message(c.field_name@)
    }
}

/// Index of the first invalid configuration, or `-1`.
pub open spec fn first_invalid_config(configs: Seq<FileFieldConfig>) -> int
    decreases configs.len(),
{
    if configs.len() == 0 {
        -1
    } else if !config_is_valid(configs[0]) {
        0
    } else {
        let rest = first_invalid_config(configs.drop_first());
        if rest < 0 {
            -1
        } else {
            rest + 1
        }
    }
}

/// Index of the configuration that governs the field `name`: the last one
/// with that name, or `-1`.
pub open spec fn last_config_index(configs: Seq<FileFieldConfig>, name: Seq<char>) -> int
    decreases configs.len(),
{
    if configs.len() == 0 {
        -1
    } else if configs.last().field_name@ == name {
        configs.len() - 1
    } else {
        last_config_index(configs.drop_last(), name)
    }
}

/// The configuration at `i` is the one that governs its field name.
pub open spec fn is_governing(configs: Seq<FileFieldConfig>, i: int) -> bool {
    last_config_index(configs, configs[i].field_name@) == i
}

/// Index of the first governing field whose count is below its minimum, or `-1`.
pub open spec fn first_short_field(configs: Seq<FileFieldConfig>, counts: Seq<usize>, from: int) -> int
    decreases configs.len() - from,
{
    if from >= configs.len() || from < 0 {
        -1
    } else if is_governing(configs, from) && counts[from] < configs[from].min_files {
        from
    } else {
        first_short_field(configs, counts, from + 1)
    }
}

/// Whether a (lower-case) extension is accepted by a list of allowed
/// extensions: an empty list accepts everything, otherwise the extension must
/// equal one entry after ASCII lower-casing.
pub open spec fn extension_allowed(allowed: Seq<&str>, extension: Seq<char>) -> bool {
    allowed.len() == 0 || exists|i: int| 0 <= i < allowed.len() && ascii_lower(#[trigger] allowed[i]@) == extension
}

/// The name a file is stored under before the naming scheme and collision
/// handling: the sanitized name, or `file_<n>[.ext]` when sanitizing left
/// nothing.
pub open spec fn stored_base(sanitized: Seq<char>, extension: Seq<char>, count: nat) -> Seq<char> {
    if sanitized.len() > 0 {
        sanitized
    } else if extension.len() == 0 {
        "file_"@ + decimal(count)
    } else {
        "file_"@ + decimal(count) + seq!['.'] + extension
    }
}

/// A file accepted by the form whose bytes have not been recorded yet.
#[derive(Debug)]
struct PendingFile {
    config_index: usize,
    original_name: String,
    stored_name: String,
}

/// No name occurs twice.
pub open spec fn names_distinct(names: Seq<Seq<char>>) -> bool {
    forall|i: int, j: int| 0 <= i < j < names.len() ==> #[trigger] names[i] != #[trigger] names[j]
}

/// The stored names of the files, in order.
pub open spec fn stored_names(files: Seq<SavedFile>) -> Seq<Seq<char>> {
    files.map_values(|f: SavedFile| f.stored_name@)
}

/// Upload state while the multipart body is being read.
pub struct UploadForm<'a> {
    configs: Vec<FileFieldConfig<'a>>,
    counts: Vec<usize>,
    used_names: Vec<String>,
    pending: Option<PendingFile>,
    outcome: UploadOutcome,
}

impl<'a> UploadForm<'a> {
    /// The field configurations, in the order given.
    pub closed spec fn configs(&self) -> Seq<FileFieldConfig<'a>> {
        self.configs@
    }

    /// Number of files accepted so far, per configuration.
    pub closed spec fn counts(&self) -> Seq<usize> {
        self.counts@
    }

    /// Stored names handed out so far.
    pub closed spec fn used_names(&self) -> Seq<Seq<char>> {
        name_views(self.used_names@)
    }

    /// Files recorded so far.
    pub closed spec fn files(&self) -> Seq<SavedFile> {
        self.outcome.files@
    }

    /// Text fields received so far.
    pub closed spec fn text_fields(&self) -> Seq<(String, Vec<String>)> {
        self.outcome.text_fields@
    }

    /// The accepted file awaiting its bytes: configuration index, original
    /// name and stored name.
    pub closed spec fn pending(&self) -> Option<(int, Seq<char>, Seq<char>)> {
        match &self.pending {
            Some(p) => Some((p.config_index as int, p.original_name@, p.stored_name@)),
            None => None,
        }
    }

    /// Internal consistency of the upload state.
    pub closed spec fn wf(&self) -> bool {
        &&& self.counts@.len() == self.configs@.len()
        &&& forall|i: int| 0 <= i < self.counts@.len() ==> #[trigger] self.counts@[i] <= self.configs@[i].max_files
        &&& match &self.pending {
            Some(p) => p.config_index < self.configs@.len() && self.counts@[p.config_index as int]
                < self.configs@[p.config_index as int].max_files && is_governing(
                self.configs@,
                p.config_index as int,
            ),
            None => true,
        }
        &&& forall|i: int|
            0 <= i < self.configs@.len() && #[trigger] is_governing(self.configs@, i) ==> self.counts@[i]
                == files_of_field(self.outcome.files@, self.configs@[i].field_name@).len()
        &&& names_distinct(name_views(self.used_names@))
        &&& self.used_names@.len() == self.outcome.files@.len() + (if self.pending is Some {
            1int
        } else {
            0int
        })
        &&& forall|i: int|
            0 <= i < self.outcome.files@.len() ==> #[trigger] self.outcome.files@[i].stored_name@
                == self.used_names@[i]@
        &&& match &self.pending {
            Some(p) => p.stored_name@ == self.used_names@[self.outcome.files@.len() as int]@,
            None => true,
        }
    }

    /// Checks the field configurations and starts an empty upload.
    pub fn new(configs: &[FileFieldConfig<'a>]) -> (res: Result<Self, UploadError>)
        ensures
            match res {
                Ok(form) => {
                    &&& first_invalid_config(configs@) < 0
                    &&& form.wf()
                    &&& form.configs() == configs@
                    &&& form.counts() == Seq::new(configs@.len(), |_i: int| 0usize)
                    &&& form.used_names().len() == 0
                    &&& form.files().len() == 0
                    &&& form.text_fields().len() == 0
                    &&& form.pending() is None
                },
                Err(e) => {
                    let i = first_invalid_config(configs@);
                    0 <= i < configs@.len() && e@ == config_error(configs@[i])
                },
            },
    {
        let mut kept: Vec<FileFieldConfig<'a>> = Vec::new();
        let mut counts: Vec<usize> = Vec::new();
        let mut i: usize = 0;
        while i < configs.len()
            invariant
                i <= configs.len(),
                kept@ == configs@.subrange(0, i as int),
                counts@ == Seq::new(i as nat, |_i: int| 0usize),
                forall|j: int| 0 <= j < i ==> config_is_valid(#[trigger] configs@[j]),
            decreases configs.len() - i,
        {
            let config = configs[i];
            if config.max_files == 0 || config.min_files > config.max_files {
                proof {
                    lemma_first_invalid_config(configs@, i as int);
                }
                let mut message = String::new();
                push_str(&mut message, "字段 `");
                push_str(&mut message, config.field_name);
                if config.max_files == 0 {
                    push_str(&mut message, "` 的 max_files 必须大于 0");
                } else {
                    push_str(&mut message, "` 的 min_files 不能大于 max_files");
                }
                assert(message@ =~= config_error(configs@[i as int]));
                return Err(UploadError::new(message));
            }
            kept.push(config);
            counts.push(0);
            i = i + 1;
            assert(kept@ =~= configs@.subrange(0, i as int));
            assert(counts@ =~= Seq::new(i as nat, |_i: int| 0usize));
        }
        proof {
            lemma_all_valid_configs(configs@);
            assert(configs@.subrange(0, configs@.len() as int) =~= configs@);
        }
        Ok(UploadForm {
            configs: kept,
            counts,
            used_names: Vec::new(),
            pending: None,
            outcome: UploadOutcome { files: Vec::new(), text_fields: Vec::new() },
        })
    }
}


/// The index `last_config_index` gives names a configuration of that name,
/// which governs it.
proof fn lemma_last_config_governs(configs: Seq<FileFieldConfig>, name: Seq<char>)
    requires
        last_config_index(configs, name) >= 0,
    ensures
        last_config_index(configs, name) < configs.len(),
        configs[last_config_index(configs, name)].field_name@ == name,
        is_governing(configs, last_config_index(configs, name)),
    decreases configs.len(),
{
    if configs.last().field_name@ != name {
        lemma_last_config_governs(configs.drop_last(), name);
        let i = last_config_index(configs, name);
        assert(configs.drop_last()[i] == configs[i]);
        lemma_last_config_same(configs, i);
    }
}

/// Below the last configuration of a name, `last_config_index` is that of
/// the configurations before it.
proof fn lemma_last_config_same(configs: Seq<FileFieldConfig>, i: int)
    requires
        0 <= i < configs.len() - 1,
        configs.last().field_name@ != configs[i].field_name@,
        is_governing(configs.drop_last(), i),
    ensures
        is_governing(configs, i),
{
    assert(configs.drop_last()[i] == configs[i]);
}

/// When no governing field from `from` on is short, every governing field
/// from there holds at least its minimum.
proof fn lemma_no_short_field(configs: Seq<FileFieldConfig>, counts: Seq<usize>, from: int, i: int)
    requires
        0 <= from <= i < configs.len(),
        first_short_field(configs, counts, from) < 0,
        is_governing(configs, i),
    ensures
        counts[i] >= configs[i].min_files,
    decreases i - from,
{
    if from < i {
        lemma_no_short_field(configs, counts, from + 1, i);
    }
}

/// What accepting a file means for the upload state: `res` and the state
/// after (`new`) for a file sent under `field` with the given original name,
/// sanitized name and lower-cased extension.
pub open spec fn plan_outcome<'a>(
    old: UploadForm<'a>,
    new: UploadForm<'a>,
    field: Seq<char>,
    original: Seq<char>,
    sanitized: Seq<char>,
    extension: Seq<char>,
    res: Result<String, UploadError>,
) -> bool {
    let idx = last_config_index(old.configs(), field);
    if idx < 0 {
        res is Err && res->Err_0@ == unsupported_field_message(field) && new == old
    } else {
        let c = old.configs()[idx];
        let count = old.counts()[idx];
        if count >= c.max_files {
            res is Err && res->Err_0@ == too_many_files_message(c.field_name@, c.max_files as nat) && new
                == old
        } else if !extension_allowed(c.allowed_extensions@, extension) {
            res is Err && res->Err_0@ == unsupported_extension_message(c.field_name@, extension) && new
                == old
        } else {
            let candidate = c.naming.spec_build_name(
                count as nat,
                stored_base(sanitized, extension, count as nat),
            );
            &&& res is Ok
            &&& !old.used_names().contains(res->Ok_0@)
            &&& new.used_names() == old.used_names().push(res->Ok_0@)
            &&& !old.used_names().contains(candidate) ==> res->Ok_0@ == candidate
            &&& old.used_names().contains(candidate) && is_plain_file_name(candidate)
                ==> is_first_free_alternative(candidate, old.used_names(), res->Ok_0@)
            &&& new.pending() == Some((idx, original, res->Ok_0@))
            &&& new.configs() == old.configs()
            &&& new.counts() == old.counts()
            &&& new.files() == old.files()
            &&& new.text_fields() == old.text_fields()
        }
    }
}

/// The client's file name, or `upload.bin` when it sent none.
pub open spec fn client_file_name(file_name: Option<&str>) -> Seq<char> {
    match file_name {
        Some(n) => n@,
        None => "upload.bin"@,
    }
}

/// What `begin_file` does: the outcome of `plan_file` for the client's name
/// (`upload.bin` when absent), for its sanitized name and, for a plain name,
/// its lower-cased extension. The sanitized name holds none of the characters
/// that sanitizing removes, and is the client's name itself when sanitizing
/// leaves that name as it is.
pub open spec fn begin_outcome<'a>(
    old: UploadForm<'a>,
    new: UploadForm<'a>,
    field: Seq<char>,
    original: Seq<char>,
    res: Result<String, UploadError>,
) -> bool {
    exists|sanitized: Seq<char>, extension: Seq<char>|
        #![trigger plan_outcome(old, new, field, original, sanitized, extension, res)]
        plan_outcome(old, new, field, original, sanitized, extension, res) && (is_plain_file_name(original)
            ==> extension == ascii_lower(spec_extension_or_empty(original))) && (is_kept_file_name(original)
            ==> sanitized == original) && (forall|i: int|
            0 <= i < sanitized.len() ==> !is_unsafe_file_name_char(#[trigger] sanitized[i]))
}

/// Index of the configuration governing `name`.
fn find_config(configs: &Vec<FileFieldConfig>, name: &str) -> (res: Option<usize>)
    ensures
        match res {
            Some(i) => i < configs@.len() && i == last_config_index(configs@, name@),
            None => last_config_index(configs@, name@) < 0,
        },
{
    let mut i: usize = configs.len();
    assert(configs@.subrange(0, configs@.len() as int) =~= configs@);
    while i > 0
        invariant
            i <= configs.len(),
            last_config_index(configs@, name@) == last_config_index(configs@.subrange(0, i as int), name@),
        decreases i,
    {
        let ghost prefix = configs@.subrange(0, i as int);
        assert(prefix.drop_last() =~= configs@.subrange(0, i - 1));
        if str_eq(configs[i - 1].field_name, name) {
            return Some(i - 1);
        }
        i = i - 1;
    }
    None
}

/// Whether `extension` is accepted by `allowed`.
fn check_extension(allowed: &[&str], extension: &str) -> (res: bool)
    ensures
        res == extension_allowed(allowed@, extension@),
{
    if allowed.len() == 0 {
        return true;
    }
    let mut i: usize = 0;
    while i < allowed.len()
        invariant
            i <= allowed.len(),
            forall|j: int| 0 <= j < i ==> ascii_lower(#[trigger] allowed@[j]@) != extension@,
        decreases allowed.len() - i,
    {
        let lower = to_ascii_lowercase(allowed[i]);
        if str_eq(lower.as_str(), extension) {
            return true;
        }
        i = i + 1;
    }
    false
}

/// Builds `file_<count>` or `file_<count>.<extension>`.
fn fallback_name(extension: &str, count: usize) -> (res: String)
    ensures
        res@ == stored_base(Seq::empty(), extension@, count as nat),
{
    let mut out = String::new();
    push_str(&mut out, "file_");
    push_decimal(&mut out, count as u64);
    if !extension.is_empty() {
        push_char(&mut out, '.');
        push_str(&mut out, extension);
    }
    assert(out@ =~= stored_base(Seq::empty(), extension@, count as nat));
    out
}

impl<'a> UploadForm<'a> {
    /// Decides whether a file sent under `field_name` is accepted, given its
    /// original name, its sanitized name and its lower-cased extension, and
    /// under which stored name. An accepted file awaits `record_file`.
    pub fn plan_file(
        &mut self,
        field_name: &str,
        original_name: &str,
        sanitized: &str,
        extension: &str,
    ) -> (res: Result<String, UploadError>)
        requires
            old(self).wf(),
            old(self).pending() is None,
            old(self).used_names().len() < u64::MAX,
        ensures
            final(self).wf(),
            plan_outcome(*old(self), *final(self), field_name@, original_name@, sanitized@, extension@, res),
    {
        let idx = match find_config(&self.configs, field_name) {
            Some(i) => i,
            None => {
                let mut message = String::new();
                push_str(&mut message, "不支持的文件字段: `");
                push_str(&mut message, field_name);
                push_str(&mut message, "`");
                assert(message@ =~= unsupported_field_message(field_name@));
                return Err(UploadError::new(message));
            },
        };
        let config = self.configs[idx];
        let count = self.counts[idx];
        if count >= config.max_files {
            let mut message = String::new();
            push_str(&mut message, "字段 `");
            push_str(&mut message, config.field_name);
            push_str(&mut message, "` 上传文件数量超过限制 (最多 ");
            push_decimal(&mut message, config.max_files as u64);
            push_str(&mut message, ")");
            assert(message@ =~= too_many_files_message(config.field_name@, config.max_files as nat));
            return Err(UploadError::new(message));
        }
        let base = if sanitized.is_empty() {
            fallback_name(extension, count)
        } else {
            to_owned_string(sanitized)
        };
        if !check_extension(config.allowed_extensions, extension) {
            let mut message = String::new();
            push_str(&mut message, "字段 `");
            push_str(&mut message, config.field_name);
            push_str(&mut message, "` 不支持 `");
            push_str(&mut message, extension);
            push_str(&mut message, "` 文件类型");
            assert(message@ =~= unsupported_extension_message(config.field_name@, extension@));
            return Err(UploadError::new(message));
        }
        let candidate = config.naming.build_name(count, base.as_str());
        let stored = unique_name(candidate, &mut self.used_names);
        let reported = stored.clone();
        self.pending = Some(
            PendingFile { config_index: idx, original_name: to_owned_string(original_name), stored_name: stored },
        );
        proof {
            lemma_last_config_governs(self.configs@, field_name@);
            assert(name_views(self.used_names@) =~= name_views(old(self).used_names@).push(reported@));
            assert(self.pending() == Some((idx as int, original_name@, reported@)));
        }
        Ok(reported)
    }

    /// Decides whether a file sent under `field_name` with the client's file
    /// name (`upload.bin` when the client gave none) is accepted, and under
    /// which stored name; sanitizes the name and takes its extension first.
    pub fn begin_file(&mut self, field_name: &str, file_name: Option<&str>) -> (res: Result<String, UploadError>)
        requires
            old(self).wf(),
            old(self).pending() is None,
            old(self).used_names().len() < u64::MAX,
        ensures
            final(self).wf(),
            begin_outcome(*old(self), *final(self), field_name@, client_file_name(file_name), res),
    {
        let original: &str = match file_name {
            Some(n) => n,
            None => "upload.bin",
        };
        let sanitized = sanitize_file_name(original);
        let raw_extension = extension_or_empty(original);
        let extension = to_ascii_lowercase(raw_extension.as_str());
        let res = self.plan_file(field_name, original, sanitized.as_str(), extension.as_str());
        assert(plan_outcome(*old(self), *self, field_name@, original@, sanitized@, extension@, res) && (
        is_plain_file_name(original@) ==> extension@ == ascii_lower(spec_extension_or_empty(original@))) && (
        is_kept_file_name(original@) ==> sanitized@ == original@) && (forall|i: int|
            0 <= i < sanitized@.len() ==> !is_unsafe_file_name_char(#[trigger] sanitized@[i])));
        assert(begin_outcome(*old(self), *self, field_name@, original@, res));
        res
    }

    /// Records the bytes of the pending file as stored at `stored_path`.
    pub fn record_file(&mut self, stored_path: String, file_size: u64)
        requires
            old(self).wf(),
            old(self).pending() is Some,
        ensures
            final(self).wf(),
            final(self).pending() is None,
            ({
                let (idx, original, stored) = old(self).pending()->0;
                let n = old(self).files().len();
                &&& final(self).counts() == old(self).counts().update(idx, (old(self).counts()[idx] + 1) as usize)
                &&& final(self).files().len() == n + 1
                &&& final(self).files().subrange(0, n as int) == old(self).files()
                &&& final(self).files()[n as int].field_name@ == old(self).configs()[idx].field_name@
                &&& final(self).files()[n as int].original_name@ == original
                &&& final(self).files()[n as int].stored_name@ == stored
                &&& final(self).files()[n as int].stored_path@ == stored_path@
                &&& final(self).files()[n as int].file_size == file_size
            }),
            final(self).configs() == old(self).configs(),
            final(self).used_names() == old(self).used_names(),
            final(self).text_fields() == old(self).text_fields(),
    {
        let pending = self.pending.take();
        match pending {
            Some(p) => {
                let idx = p.config_index;
                let field_name = to_owned_string(self.configs[idx].field_name);
                let count = self.counts[idx];
                self.counts.set(idx, count + 1);
                self.outcome.files.push(
                    SavedFile {
                        field_name,
                        original_name: p.original_name,
                        stored_name: p.stored_name,
                        stored_path,
                        file_size,
                    },
                );
                assert(self.outcome.files@.subrange(0, self.outcome.files@.len() - 1) =~= old(self).outcome.files@);
            },
            None => {},
        }
    }

    /// Records one value of a text field.
    pub fn add_text(&mut self, name: String, value: String)
        requires
            old(self).wf(),
        ensures
            final(self).wf(),
            ({
                let k = first_entry_index(old(self).text_fields(), name@);
                let t = old(self).text_fields();
                let u = final(self).text_fields();
                if k >= 0 {
                    &&& u.len() == t.len()
                    &&& forall|j: int| 0 <= j < t.len() && j != k ==> #[trigger] u[j] == t[j]
                    &&& u[k].0 == t[k].0
                    &&& u[k].1@ == t[k].1@.push(value)
                } else {
                    &&& u.len() == t.len() + 1
                    &&& u.subrange(0, t.len() as int) == t
                    &&& u[t.len() as int].0@ == name@
                    &&& u[t.len() as int].1@ == seq![value]
                }
            }),
            final(self).configs() == old(self).configs(),
            final(self).counts() == old(self).counts(),
            final(self).used_names() == old(self).used_names(),
            final(self).files() == old(self).files(),
            final(self).pending() == old(self).pending(),
    {
        match find_entry(&self.outcome.text_fields, name.as_str()) {
            Some(k) => {
                let (key, mut values) = self.outcome.text_fields.remove(k);
                values.push(value);
                self.outcome.text_fields.insert(k, (key, values));
                assert forall|j: int| 0 <= j < old(self).outcome.text_fields@.len() && j != k implies
                    #[trigger] self.outcome.text_fields@[j] == old(self).outcome.text_fields@[j] by {
                }
            },
            None => {
                let mut values: Vec<String> = Vec::new();
                values.push(value);
                self.outcome.text_fields.push((name, values));
                assert(self.outcome.text_fields@.subrange(0, old(self).outcome.text_fields@.len() as int)
                    =~= old(self).outcome.text_fields@);
                assert(values@ =~= seq![value]);
            },
        }
    }

    /// Ends the upload: fails when a field received fewer files than it
    /// needs, and otherwise hands out the stored files and text fields; each
    /// field then holds between its minimum and maximum number of files.
    pub fn finish(self) -> (res: Result<UploadOutcome, UploadError>)
        requires
            self.wf(),
        ensures
            ({
                let k = first_short_field(self.configs(), self.counts(), 0);
                match res {
                    Ok(outcome) => k < 0 && outcome.files@ == self.files() && outcome.text_fields@
                        == self.text_fields() && names_distinct(stored_names(outcome.files@)) && forall|i: int|
                        0 <= i < self.configs().len() && #[trigger] is_governing(self.configs(), i) ==> self.configs()[i].min_files
                            <= files_of_field(outcome.files@, self.configs()[i].field_name@).len()
                            <= self.configs()[i].max_files,
                    Err(e) => 0 <= k < self.configs().len() && e@ == too_few_files_message(
                        self.configs()[k].field_name@,
                        self.configs()[k].min_files as nat,
                    ),
                }
            }),
    {
        let mut i: usize = 0;
        while i < self.configs.len()
            invariant
                self.wf(),
                i <= self.configs@.len(),
                first_short_field(self.configs@, self.counts@, 0) == first_short_field(self.configs@, self.counts@, i as int),
            decreases self.configs.len() - i,
        {
            let config = self.configs[i];
            let governing = match find_config(&self.configs, config.field_name) {
                Some(j) => j == i,
                None => false,
            };
            if governing && self.counts[i] < config.min_files {
                let mut message = String::new();
                push_str(&mut message, "字段 `");
                push_str(&mut message, config.field_name);
                push_str(&mut message, "` 至少需要上传 ");
                push_decimal(&mut message, config.min_files as u64);
                push_str(&mut message, " 个文件");
                assert(message@ =~= too_few_files_message(config.field_name@, config.min_files as nat));
                return Err(UploadError::new(message));
            }
            i = i + 1;
        }
        proof {
            self.lemma_stored_names_distinct();
            assert forall|i: int| 0 <= i < self.configs@.len() && #[trigger] is_governing(self.configs@, i) implies self.configs@[i].min_files
                <= files_of_field(self.outcome.files@, self.configs@[i].field_name@).len()
                <= self.configs@[i].max_files by {
                lemma_no_short_field(self.configs@, self.counts@, 0, i);
            }
        }
        Ok(self.outcome)
    }
}

proof fn lemma_first_invalid_config(configs: Seq<FileFieldConfig>, i: int)
    requires
        0 <= i < configs.len(),
        !config_is_valid(configs[i]),
        forall|j: int| 0 <= j < i ==> config_is_valid(#[trigger] configs[j]),
    ensures
        first_invalid_config(configs) == i,
    decreases i,
{
    if i > 0 {
        assert forall|j: int| 0 <= j < i - 1 implies config_is_valid(#[trigger] configs.drop_first()[j]) by {
            assert(configs.drop_first()[j] == configs[j + 1]);
        }
        lemma_first_invalid_config(configs.drop_first(), i - 1);
    }
}

proof fn lemma_all_valid_configs(configs: Seq<FileFieldConfig>)
    requires
        forall|j: int| 0 <= j < configs.len() ==> config_is_valid(#[trigger] configs[j]),
    ensures
        first_invalid_config(configs) < 0,
    decreases configs.len(),
{
    if configs.len() > 0 {
        assert forall|j: int| 0 <= j < configs.len() - 1 implies config_is_valid(#[trigger] configs.drop_first()[j]) by {
            assert(configs.drop_first()[j] == configs[j + 1]);
        }
        lemma_all_valid_configs(configs.drop_first());
    }
}


impl<'a> UploadForm<'a> {
    /// No two files of an upload are stored under the same name.
    pub proof fn lemma_stored_names_distinct(&self)
        requires
            self.wf(),
        ensures
            names_distinct(stored_names(self.files())),
    {
        let st = stored_names(self.files());
        let used = name_views(self.used_names@);
        assert forall|i: int, j: int| 0 <= i < j < st.len() implies #[trigger] st[i] != #[trigger] st[j] by {
            assert(st[i] == self.outcome.files@[i].stored_name@);
            assert(st[j] == self.outcome.files@[j].stored_name@);
            assert(used[i] == self.used_names@[i]@);
            assert(used[j] == self.used_names@[j]@);
        }
    }
}

} // verus!
