//! Rubrics: the themes that articles are filed under.
use vstd::prelude::*;

verus! {

/// A rubric with its optional cover image.
#[derive(Debug, Clone)]
pub struct Rubric {
    pub id: i32,
    pub title: String,
    pub cover: Option<String>,
}

impl Rubric {
    /// The rubric made of the columns of one row (id, title, cover).
    pub fn from_row(id: i32, title: String, cover: Option<String>) -> (r: Rubric)
        ensures
            r.id == id,
            r.title == title,
            r.cover == cover,
    {
        Rubric { id, title, cover }
    }
}

} // verus!
