//! Article pages.
use vstd::prelude::*;
use vstd::string::*;
use crate::text::{i32_to_decimal, int_decimal};

verus! {

/// The address of the list of rubrics an article is filed under.
pub fn rubrics_of_article_uri(article_id: i32) -> (uri: String)
    ensures
        uri@ == "/articles/rubrics-of-article/"@ + int_decimal(article_id as int),
{
    let digits = i32_to_decimal(article_id);
    String::from_str("/articles/rubrics-of-article/").concat(digits.as_str())
}

} // verus!
