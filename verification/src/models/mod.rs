//! The site's data: articles, files and rubrics.
pub mod article;
pub mod file;
pub mod rubrics;

pub use article::{Article, ArticleForm, Block};
pub use file::{FileRecord, HashedFile, HashedFileBuf};
pub use rubrics::Rubric;
