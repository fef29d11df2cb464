//! Verified core of a small publishing site: articles written in an
//! Editor.js-style block format, thematic rubrics, an archive of entries with
//! attached files, content-addressed uploads and an administrator session.
//! Everything here is pure decision logic over plain values; the web server,
//! the database and the file system live in the application around it.
pub mod hexcodec;
pub mod text;
pub mod errors;
pub mod models;
pub mod api;
pub mod auth;
