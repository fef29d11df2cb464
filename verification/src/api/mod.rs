//! What the site's request handlers decide: where uploads go, where a
//! request is sent next, and which values a form carries.
pub mod archive;
pub mod article;
pub mod rubrics;
pub mod upload;
