//! Rubric pages.
use vstd::prelude::*;
use vstd::string::*;
use crate::api::upload::{UPLOADS_URL_DIR, path_join, path_to, stored_name};
use crate::errors::Errors;
use crate::models::file::HashedFileBuf;
use crate::hexcodec::{hex_encode, hex_lower};
use crate::text::{i32_to_decimal, int_decimal};

verus! {

/// The title a new rubric starts with.
pub const NEW_RUBRIC_TITLE: &'static str = "NEED RUBRIC TITLE";

/// The address of the page of rubric `id`.
pub fn rubric_uri(id: i32) -> (uri: String)
    ensures
        uri@ == "/rubrics/get?id="@ + int_decimal(id as int),
{
    let digits = i32_to_decimal(id);
    String::from_str("/rubrics/get?id=").concat(digits.as_str())
}

/// The form that uploads a rubric's cover image.
#[derive(Debug)]
pub struct FileForm {
    pub file: HashedFileBuf,
}

impl FileForm {
    /// The address the cover is linked at: the uploaded file's path under the
    /// uploads directory; a media type that is not accepted is a validation
    /// error.
    pub fn cover_location(&self) -> (r: Result<String, Errors>)
        ensures
            r is Ok <==> self.file.content_type.spec_extension() is Some,
            r matches Ok(loc) ==> self.file.content_type.spec_extension() matches Some(ext)
                && loc@ == path_join(UPLOADS_URL_DIR@, stored_name(hex_lower(self.file.hash@), ext)),
            r matches Err(e) ==> (e matches Errors::Validation(m) && m@ == "Invalid file type"@),
    {
        let hex = hex_encode(self.file.hash.as_slice());
        let ext = self.file.content_type.extension_err()?;
        Ok(path_to(hex.as_str(), &ext))
    }
}

} // verus!
