//! The shared drag-and-drop upload widget: its CSS, its script and the
//! markup for one configured widget.

use vstd::prelude::*;

use crate::text::{decimal, escape, escape_html, push_decimal, push_str};

verus! {

/// Shared CSS snippet for the upload widget.
pub const UPLOAD_WIDGET_STYLES: &'static str = "\n.zg-upload-widget { display: flex; flex-direction: column; gap: 0.75rem; }\n.zg-upload-widget__label { font-weight: 600; color: #0f172a; }\n.zg-upload-widget__description { color: #475569; font-size: 0.95rem; margin: 0; }\n.zg-upload-dropzone { border: 2px dashed #cbd5f5; border-radius: 12px; padding: 2rem; text-align: center; background: #f8fafc; color: #475569; transition: border-color 0.2s ease, background 0.2s ease; cursor: pointer; }\n.zg-upload-dropzone strong { color: #1d4ed8; }\n.zg-upload-dropzone[data-state=\"dragover\"] { border-color: #2563eb; background: #e0f2fe; }\n.zg-upload-note { color: #475569; font-size: 0.9rem; margin: 0.5rem 0 0; }\n.zg-upload-browse { color: #2563eb; text-decoration: underline; cursor: pointer; }\n.zg-upload-input { display: none; }\n.zg-upload-status { min-height: 1.5rem; font-size: 0.95rem; color: #2563eb; }\n.zg-upload-list { display: flex; flex-direction: column; gap: 0.5rem; }\n.zg-upload-item { display: flex; justify-content: space-between; align-items: center; gap: 0.5rem; padding: 0.5rem 0.75rem; border: 1px solid #e2e8f0; border-radius: 8px; background: #ffffff; color: #0f172a; }\n.zg-upload-name { flex: 1; min-width: 0; word-break: break-all; }\n.zg-upload-remove { background: #dc2626; color: #ffffff; border: none; padding: 0.35rem 0.75rem; border-radius: 6px; font-size: 0.85rem; cursor: pointer; }\n.zg-upload-remove:hover { background: #b91c1c; }\n@media (max-width: 768px) {\n    .zg-upload-dropzone { padding: 1.5rem 1rem; }\n    .zg-upload-item { flex-direction: column; align-items: flex-start; }\n    .zg-upload-remove { align-self: flex-end; }\n}\n";

/// Shared JavaScript bundle (vanilla) for the upload widget.
pub const UPLOAD_WIDGET_SCRIPT: &'static str = "<script>\n(function() {\n    function initWidget(widget) {\n        if (widget.dataset.initialized === 'true') {\n            return;\n        }\n        widget.dataset.initialized = 'true';\n\n        const input = widget.querySelector('input[type=\"file\"]');\n        const dropzone = widget.querySelector('[data-dropzone]');\n        const statusBox = widget.querySelector('[data-upload-status]');\n        const listEl = widget.querySelector('[data-upload-list]');\n        const browseEl = widget.querySelector('[data-upload-browse]');\n        const multiple = widget.dataset.multiple === 'true';\n        const maxFiles = parseInt(widget.dataset.maxFiles || '0', 10);\n\n        if (!input || !dropzone) {\n            return;\n        }\n\n        function setFiles(files) {\n            const dt = new DataTransfer();\n            files.forEach(file => dt.items.add(file));\n            input.files = dt.files;\n            renderList();\n        }\n\n        function removeAt(index) {\n            const current = Array.from(input.files);\n            current.splice(index, 1);\n            setFiles(current);\n        }\n\n        function handleFiles(incoming) {\n            const selected = Array.from(input.files);\n            for (const file of incoming) {\n                if (maxFiles > 0 && selected.length >= maxFiles) {\n                    break;\n                }\n                selected.push(file);\n            }\n            setFiles(selected);\n        }\n\n        function renderList() {\n            if (!listEl) {\n                return;\n            }\n\n            const files = Array.from(input.files);\n            if (files.length === 0) {\n                listEl.innerHTML = '';\n                if (statusBox) {\n                    statusBox.textContent = '';\n                }\n                return;\n            }\n\n            if (statusBox) {\n                if (maxFiles > 0) {\n                    statusBox.textContent = `已选择 ${files.length} 个文件，最多 ${maxFiles} 个。`;\n                } else {\n                    statusBox.textContent = `已选择 ${files.length} 个文件。`;\n                }\n            }\n\n            listEl.innerHTML = files.map((file, index) => {\n                if (!multiple) {\n                    return `<div class=\"zg-upload-item\"><span class=\"zg-upload-name\">${escapeHtml(file.name)}</span></div>`;\n                }\n                return `<div class=\"zg-upload-item\"><span class=\"zg-upload-name\">${escapeHtml(file.name)}</span><button type=\"button\" class=\"zg-upload-remove\" data-index=\"${index}\">移除</button></div>`;\n            }).join('');\n\n            if (multiple) {\n                listEl.querySelectorAll('.zg-upload-remove').forEach(btn => {\n                    btn.addEventListener('click', (event) => {\n                        const idx = Number(event.currentTarget.dataset.index);\n                        removeAt(idx);\n                    });\n                });\n            }\n        }\n\n        function escapeHtml(value) {\n            return value\n                .replace(/&/g, '&amp;')\n                .replace(/</g, '&lt;')\n                .replace(/>/g, '&gt;')\n                .replace(/\"/g, '&quot;')\n                .replace(/'/g, '&#39;');\n        }\n\n        input.addEventListener('change', () => {\n            if (!multiple && input.files.length > 1) {\n                setFiles([input.files[0]]);\n                return;\n            }\n            if (maxFiles > 0 && input.files.length > maxFiles) {\n                setFiles(Array.from(input.files).slice(0, maxFiles));\n                return;\n            }\n            renderList();\n        });\n\n        const activateDrag = () => dropzone.dataset.state = 'dragover';\n        const deactivateDrag = () => delete dropzone.dataset.state;\n\n        dropzone.addEventListener('click', () => input.click());\n        dropzone.addEventListener('dragenter', (event) => {\n            event.preventDefault();\n            activateDrag();\n        });\n        dropzone.addEventListener('dragover', (event) => {\n            event.preventDefault();\n        });\n        dropzone.addEventListener('dragleave', (event) => {\n            event.preventDefault();\n            if (!dropzone.contains(event.relatedTarget)) {\n                deactivateDrag();\n            }\n        });\n        dropzone.addEventListener('drop', (event) => {\n            event.preventDefault();\n            deactivateDrag();\n            handleFiles(event.dataTransfer.files);\n        });\n\n        if (browseEl) {\n            browseEl.addEventListener('click', (event) => {\n                event.preventDefault();\n                input.click();\n            });\n        }\n\n        renderList();\n    }\n\n    if (document.readyState === 'loading') {\n        document.addEventListener('DOMContentLoaded', () => {\n            document.querySelectorAll('.zg-upload-widget').forEach(initWidget);\n        });\n    } else {\n        document.querySelectorAll('.zg-upload-widget').forEach(initWidget);\n    }\n})();\n</script>";

/// Declarative configuration for rendering the upload widget snippet.
#[derive(Debug, Clone)]
pub struct UploadWidgetConfig<'a> {
    pub widget_id: &'a str,
    pub input_id: &'a str,
    pub field_name: &'a str,
    pub label: &'a str,
    pub description: Option<&'a str>,
    pub note: Option<&'a str>,
    pub accept: Option<&'a str>,
    pub multiple: bool,
    pub max_files: Option<usize>,
}

impl<'a> UploadWidgetConfig<'a> {
    /// A single-file widget without description, note or accept filter.
    pub fn new(widget_id: &'a str, input_id: &'a str, field_name: &'a str, label: &'a str) -> (res: Self)
        ensures
            res == (UploadWidgetConfig {
                widget_id,
                input_id,
                field_name,
                label,
                description: None,
                note: None,
                accept: None,
                multiple: false,
                max_files: None,
            }),
    {
        UploadWidgetConfig {
            widget_id,
            input_id,
            field_name,
            label,
            description: None,
            note: None,
            accept: None,
            multiple: false,
            max_files: None,
        }
    }

    /// Accepts several files, at most `max_files` when given.
    pub fn with_multiple(self, max_files: Option<usize>) -> (res: Self)
        ensures
            res == (UploadWidgetConfig { multiple: true, max_files, ..self }),
    {
        UploadWidgetConfig { multiple: true, max_files, ..self }
    }

    pub fn with_description(self, text: &'a str) -> (res: Self)
        ensures
            res == (UploadWidgetConfig { description: Some(text), ..self }),
    {
        UploadWidgetConfig { description: Some(text), ..self }
    }

    pub fn with_note(self, text: &'a str) -> (res: Self)
        ensures
            res == (UploadWidgetConfig { note: Some(text), ..self }),
    {
        UploadWidgetConfig { note: Some(text), ..self }
    }

    pub fn with_accept(self, accept: &'a str) -> (res: Self)
        ensures
            res == (UploadWidgetConfig { accept: Some(accept), ..self }),
    {
        UploadWidgetConfig { accept: Some(accept), ..self }
    }
}

/// A paragraph of the given class holding the escaped text, or nothing.
pub open spec fn optional_paragraph(class: Seq<char>, text: Option<&str>) -> Seq<char> {
    match text {
        Some(t) => "<p class=\""@ + class + "\">"@ + escape(t@) + "</p>"@,
        None => Seq::empty(),
    }
}

/// The `accept` attribute for the file input, or nothing.
pub open spec fn accept_attribute(accept: Option<&str>) -> Seq<char> {
    match accept {
        Some(a) => " accept=\""@ + escape(a@) + "\""@,
        None => Seq::empty(),
    }
}

/// The maximum file count as text, empty when unlimited.
pub open spec fn max_files_text(max_files: Option<usize>) -> Seq<char> {
    match max_files {
        Some(n) => decimal(n as nat),
        None => Seq::empty(),
    }
}

/// The widget markup for a configuration.
pub open spec fn upload_widget_html(config: UploadWidgetConfig) -> Seq<char> {
    "<div class=\"zg-upload-widget\" id=\""@ + escape(config.widget_id@) + "\" data-multiple=\""@ + (if config.multiple { "true"@ } else { "false"@ }) + "\" data-max-files=\""@ + escape(max_files_text(config.max_files)) + "\">\n    <label class=\"zg-upload-widget__label\" for=\""@ + escape(config.input_id@) + "\">"@ + escape(config.label@) + "</label>\n    "@ + optional_paragraph("zg-upload-widget__description"@, config.description) + "\n    <div class=\"zg-upload-dropzone\" data-dropzone>\n        <p><strong>拖拽文件</strong>到此处，或<span class=\"zg-upload-browse\" data-upload-browse>"@ + (if config.multiple { "点击选择多个文件"@ } else { "点击选择文件"@ }) + "</span></p>\n        "@ + optional_paragraph("zg-upload-note"@, config.note) + "\n        <input class=\"zg-upload-input\" id=\""@ + escape(config.input_id@) + "\" name=\""@ + escape(config.field_name@) + "\" type=\"file\""@ + (if config.multiple { " multiple"@ } else { Seq::<char>::empty() }) + accept_attribute(config.accept) + ">\n    </div>\n    <div class=\"zg-upload-status\" data-upload-status></div>\n    <div class=\"zg-upload-list\" data-upload-list></div>\n</div>"@
}

fn render_optional_paragraph(class: &str, text: Option<&str>) -> (res: String)
    ensures
        res@ == optional_paragraph(class@, text),
{
    match text {
        Some(t) => {
            let mut out = String::new();
            push_str(&mut out, "<p class=\"");
            push_str(&mut out, class);
            push_str(&mut out, "\">");
            let escaped = escape_html(t);
            push_str(&mut out, escaped.as_str());
            push_str(&mut out, "</p>");
            assert(out@ =~= optional_paragraph(class@, text));
            out
        },
        None => String::new(),
    }
}

/// Renders the markup of one upload widget; every configured text is
/// HTML-escaped.
pub fn render_upload_widget(config: &UploadWidgetConfig<'_>) -> (res: String)
    ensures
        res@ == upload_widget_html(*config),
{
    let description = render_optional_paragraph("zg-upload-widget__description", config.description);
    let note = render_optional_paragraph("zg-upload-note", config.note);
    let accept_attr = match config.accept {
        Some(value) => {
            let mut a = String::new();
            push_str(&mut a, " accept=\"");
            let escaped = escape_html(value);
            push_str(&mut a, escaped.as_str());
            push_str(&mut a, "\"");
            a
        },
        None => String::new(),
    };
    let multiple_attr = if config.multiple { " multiple" } else { "" };
    let mut max_files_raw = String::new();
    match config.max_files {
        Some(count) => push_decimal(&mut max_files_raw, count as u64),
        None => {},
    }
    assert(max_files_raw@ =~= max_files_text(config.max_files));
    let browse = if config.multiple { "点击选择多个文件" } else { "点击选择文件" };
    let multiple = if config.multiple { "true" } else { "false" };
    let id = escape_html(config.widget_id);
    let max_files = escape_html(max_files_raw.as_str());
    let input_id = escape_html(config.input_id);
    let label = escape_html(config.label);
    let field_name = escape_html(config.field_name);
    proof {
        reveal_strlit("");
        assert(""@ =~= Seq::<char>::empty());
    }
    let mut out = String::new();
    push_str(&mut out, "<div class=\"zg-upload-widget\" id=\"");
    push_str(&mut out, id.as_str());
    push_str(&mut out, "\" data-multiple=\"");
    push_str(&mut out, multiple);
    push_str(&mut out, "\" data-max-files=\"");
    push_str(&mut out, max_files.as_str());
    push_str(&mut out, "\">\n    <label class=\"zg-upload-widget__label\" for=\"");
    push_str(&mut out, input_id.as_str());
    push_str(&mut out, "\">");
    push_str(&mut out, label.as_str());
    push_str(&mut out, "</label>\n    ");
    push_str(&mut out, description.as_str());
    push_str(&mut out, "\n    <div class=\"zg-upload-dropzone\" data-dropzone>\n        <p><strong>拖拽文件</strong>到此处，或<span class=\"zg-upload-browse\" data-upload-browse>");
    push_str(&mut out, browse);
    push_str(&mut out, "</span></p>\n        ");
    push_str(&mut out, note.as_str());
    push_str(&mut out, "\n        <input class=\"zg-upload-input\" id=\"");
    push_str(&mut out, input_id.as_str());
    push_str(&mut out, "\" name=\"");
    push_str(&mut out, field_name.as_str());
    push_str(&mut out, "\" type=\"file\"");
    push_str(&mut out, multiple_attr);
    push_str(&mut out, accept_attr.as_str());
    push_str(&mut out, ">\n    </div>\n    <div class=\"zg-upload-status\" data-upload-status></div>\n    <div class=\"zg-upload-list\" data-upload-list></div>\n</div>");
    assert(out@ =~= upload_widget_html(*config));
    out
}

} // verus!
