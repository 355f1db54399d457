//! Verified core of the research group's AI toolkit: job status modelling,
//! upload naming, HTML rendering helpers, prompt construction and document
//! chunking used by the summarizer, DOCX translator, information extractor,
//! manuscript grader and referee modules.

pub mod admin_forms;
pub mod admin_shared;
pub mod admin_utils;
pub mod auth;
pub mod chunking;
pub mod config;
pub mod dashboard;
pub mod dashboard_page;
pub mod docx;
pub mod glossary;
pub mod grader;
pub mod history;
pub mod ids;
pub mod infoextract;
pub mod journals;
pub mod history_ui;
pub mod landing;
pub mod llm;
pub mod naming;
pub mod pages;
pub mod paths;
pub mod responses;
pub mod referee;
pub mod sanitize;
pub mod settings_pages;
pub mod status;
pub mod storage;
pub mod summarizer;
pub mod upload_ui;
pub mod usage;
pub mod uploads;
pub mod users;
pub mod templates;
pub mod text;
pub mod translatedocx;
