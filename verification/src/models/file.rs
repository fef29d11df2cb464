//! Uploaded files: what types are accepted, how an upload is taken in and
//! named after its MD5 hash, and how it is handed over for storage.
use vstd::prelude::*;
use vstd::string::*;
use vstd::std_specs::convert::FromSpecImpl;
use crate::errors::Errors;
use crate::hexcodec::{hex_encode, hex_lower};
use crate::text::{ascii_lower, eq_ignoring_ascii_case, lemma_eq_ignoring_case_same_class, same_ignoring_ascii_case};

verus! {

/// The name of the MD5 digest of a byte string, as the `md5` crate computes
/// it.
pub uninterp spec fn md5_digest(data: Seq<u8>) -> Seq<u8>;

/// Calls `md5::compute`, whose result depends on the data alone; the digest is
/// named `md5_digest`, and nothing more is claimed of it here.
#[verifier::external_body]
fn md5_compute(data: &[u8]) -> (digest: [u8; 16])
    ensures
        digest@ == md5_digest(data@),
{
    md5::compute(data).into()
}

/// A stored file as pages show it: its hash in hex, its name and extension.
#[derive(Debug, Clone)]
pub struct FileRecord {
    pub hash: String,
    pub name: String,
    pub ext: String,
}

impl FileRecord {
    /// The record of a file with hash bytes `hex`, whose hash is shown as
    /// lower-case hex.
    pub fn from(hex: &[u8], name: String, ext: String) -> (r: FileRecord)
        ensures
            r.hash@ == hex_lower(hex@),
            r.name == name,
            r.ext == ext,
    {
        FileRecord { hash: hex_encode(hex), name, ext }
    }
}

/// The subtype of a Word document (DOCX).
pub const DOCX_SUB: &'static str = "vnd.openxmlformats-officedocument.wordprocessingml.document";

/// A media type as the client declared it, by its type and subtype.
#[derive(Debug, Clone)]
pub struct AllowedContentType {
    pub top: String,
    pub sub: String,
}

/// `top/sub` names the media type `t/s`, case aside.
pub open spec fn is_media_type(top: Seq<char>, sub: Seq<char>, t: Seq<char>, s: Seq<char>) -> bool {
    eq_ignoring_ascii_case(top, t) && eq_ignoring_ascii_case(sub, s)
}

/// The extension under which a file of media type `top/sub` is stored, for
/// the accepted types: PNG, JPEG, PDF, WEBP, FB2
/// (`application/x-fictionbook+xml`), DOC, DOCX and DJVU. Media types are
/// compared without case.
pub open spec fn allowed_extension(top: Seq<char>, sub: Seq<char>) -> Option<Seq<char>> {
    if is_media_type(top, sub, "image"@, "png"@) {
        Some("png"@)
    } else if is_media_type(top, sub, "image"@, "jpeg"@) {
        Some("jpeg"@)
    } else if is_media_type(top, sub, "application"@, "pdf"@) {
        Some("pdf"@)
    } else if is_media_type(top, sub, "image"@, "webp"@) {
        Some("webp"@)
    } else if is_media_type(top, sub, "application"@, "x-fictionbook+xml"@) {
        Some("fb2"@)
    } else if is_media_type(top, sub, "application"@, "msword"@) {
        Some("doc"@)
    } else if is_media_type(top, sub, "application"@, DOCX_SUB@) {
        Some("docx"@)
    } else if is_media_type(top, sub, "image"@, "vnd.djvu"@) {
        Some("djvu"@)
    } else {
        None
    }
}

/// The extensions that accepted files are stored under.
pub open spec fn is_accepted_extension(e: Seq<char>) -> bool {
    ||| e == "png"@
    ||| e == "jpeg"@
    ||| e == "pdf"@
    ||| e == "webp"@
    ||| e == "fb2"@
    ||| e == "doc"@
    ||| e == "docx"@
    ||| e == "djvu"@
}

/// Law: only PNG, JPEG, PDF, WEBP, FB2, DOC, DOCX and DJVU files are
/// accepted, whatever media type a client declares.
pub proof fn lemma_only_accepted_types(top: Seq<char>, sub: Seq<char>)
    ensures
        allowed_extension(top, sub) matches Some(e) ==> is_accepted_extension(e),
{
}

/// Law: exactly the eight documented media types are accepted, case aside,
/// each under its own extension: a type is accepted with extension `e` if and
/// only if it is one of image/png (png), image/jpeg (jpeg), application/pdf
/// (pdf), image/webp (webp), application/x-fictionbook+xml (fb2),
/// application/msword (doc), the DOCX type (docx) or image/vnd.djvu (djvu).
pub proof fn lemma_accepted_types_exactly(top: Seq<char>, sub: Seq<char>, e: Seq<char>)
    ensures
        allowed_extension(top, sub) == Some(e) <==> {
            ||| eq_ignoring_ascii_case(top, "image"@) && eq_ignoring_ascii_case(sub, "png"@) && e == "png"@
            ||| eq_ignoring_ascii_case(top, "image"@) && eq_ignoring_ascii_case(sub, "jpeg"@) && e == "jpeg"@
            ||| eq_ignoring_ascii_case(top, "application"@) && eq_ignoring_ascii_case(sub, "pdf"@) && e == "pdf"@
            ||| eq_ignoring_ascii_case(top, "image"@) && eq_ignoring_ascii_case(sub, "webp"@) && e == "webp"@
            ||| eq_ignoring_ascii_case(top, "application"@) && eq_ignoring_ascii_case(sub, "x-fictionbook+xml"@) && e == "fb2"@
            ||| eq_ignoring_ascii_case(top, "application"@) && eq_ignoring_ascii_case(sub, "msword"@) && e == "doc"@
            ||| eq_ignoring_ascii_case(top, "application"@) && eq_ignoring_ascii_case(sub, DOCX_SUB@) && e == "docx"@
            ||| eq_ignoring_ascii_case(top, "image"@) && eq_ignoring_ascii_case(sub, "vnd.djvu"@) && e == "djvu"@
        },
        allowed_extension(top, sub) is None <==> !(
            (eq_ignoring_ascii_case(top, "image"@) && (eq_ignoring_ascii_case(sub, "png"@)
                || eq_ignoring_ascii_case(sub, "jpeg"@) || eq_ignoring_ascii_case(sub, "webp"@)
                || eq_ignoring_ascii_case(sub, "vnd.djvu"@)))
            || (eq_ignoring_ascii_case(top, "application"@) && (eq_ignoring_ascii_case(sub, "pdf"@)
                || eq_ignoring_ascii_case(sub, "x-fictionbook+xml"@) || eq_ignoring_ascii_case(sub, "msword"@)
                || eq_ignoring_ascii_case(sub, DOCX_SUB@)))),
{
    reveal_strlit("image");
    reveal_strlit("application");
    reveal_strlit("png");
    reveal_strlit("jpeg");
    reveal_strlit("pdf");
    reveal_strlit("webp");
    reveal_strlit("x-fictionbook+xml");
    reveal_strlit("msword");
    reveal_strlit("vnd.djvu");
    reveal_strlit("fb2");
    reveal_strlit("doc");
    reveal_strlit("docx");
    reveal_strlit("djvu");
    reveal_strlit("vnd.openxmlformats-officedocument.wordprocessingml.document");
    // The eight types are distinct: types and subtypes of one top type differ
    // in length, except jpeg and webp, which differ in their first letter.
    if eq_ignoring_ascii_case(sub, "jpeg"@) {
        lemma_eq_ignoring_case_same_class(sub, "jpeg"@, "webp"@);
        assert(ascii_lower("jpeg"@[0]) != ascii_lower("webp"@[0]));
        assert(!eq_ignoring_ascii_case("jpeg"@, "webp"@));
    }
    if eq_ignoring_ascii_case(top, "image"@) {
        assert(!eq_ignoring_ascii_case(top, "application"@));
    }
}

/// Law: the media type is recognised without regard to the case of its
/// letters.
pub proof fn lemma_extension_ignores_case(
    top: Seq<char>,
    sub: Seq<char>,
    top2: Seq<char>,
    sub2: Seq<char>,
)
    requires
        eq_ignoring_ascii_case(top, top2),
        eq_ignoring_ascii_case(sub, sub2),
    ensures
        allowed_extension(top, sub) == allowed_extension(top2, sub2),
{
    let tops = seq!["image"@, "application"@];
    let subs = seq![
        "png"@,
        "jpeg"@,
        "pdf"@,
        "webp"@,
        "x-fictionbook+xml"@,
        "msword"@,
        DOCX_SUB@,
        "vnd.djvu"@,
    ];
    assert forall|i: int| 0 <= i < tops.len() implies eq_ignoring_ascii_case(top, #[trigger] tops[i])
        == eq_ignoring_ascii_case(top2, tops[i]) by {
        lemma_eq_ignoring_case_same_class(top, top2, tops[i]);
    }
    assert forall|i: int| 0 <= i < subs.len() implies eq_ignoring_ascii_case(sub, #[trigger] subs[i])
        == eq_ignoring_ascii_case(sub2, subs[i]) by {
        lemma_eq_ignoring_case_same_class(sub, sub2, subs[i]);
    }
    assert(tops[0] == "image"@ && tops[1] == "application"@);
    assert(subs[0] == "png"@ && subs[1] == "jpeg"@ && subs[2] == "pdf"@ && subs[3] == "webp"@);
    assert(subs[4] == "x-fictionbook+xml"@ && subs[5] == "msword"@ && subs[6] == DOCX_SUB@
        && subs[7] == "vnd.djvu"@);
}

pub open spec fn option_string_view(o: Option<String>) -> Option<Seq<char>> {
    match o {
        Some(s) => Some(s@),
        None => None,
    }
}

impl AllowedContentType {
    /// The media type `top/sub`.
    pub fn new(top: String, sub: String) -> (r: AllowedContentType)
        ensures
            r.top == top,
            r.sub == sub,
    {
        AllowedContentType { top, sub }
    }

    pub open spec fn spec_extension(&self) -> Option<Seq<char>> {
        allowed_extension(self.top@, self.sub@)
    }

    fn is(&self, top: &str, sub: &str) -> (r: bool)
        ensures
            r == is_media_type(self.top@, self.sub@, top@, sub@),
    {
        same_ignoring_ascii_case(self.top.as_str(), top) && same_ignoring_ascii_case(
            self.sub.as_str(),
            sub,
        )
    }

    /// The extension files of this media type are stored under, or `None`
    /// when the type is not accepted.
    pub fn extension(&self) -> (r: Option<String>)
        ensures
            option_string_view(r) == self.spec_extension(),
    {
        if self.is("image", "png") {
            Some(String::from_str("png"))
        } else if self.is("image", "jpeg") {
            Some(String::from_str("jpeg"))
        } else if self.is("application", "pdf") {
            Some(String::from_str("pdf"))
        } else if self.is("image", "webp") {
            Some(String::from_str("webp"))
        } else if self.is("application", "x-fictionbook+xml") {
            Some(String::from_str("fb2"))
        } else if self.is("application", "msword") {
            Some(String::from_str("doc"))
        } else if self.is("application", DOCX_SUB) {
            Some(String::from_str("docx"))
        } else if self.is("image", "vnd.djvu") {
            Some(String::from_str("djvu"))
        } else {
            None
        }
    }

    /// The extension, or a validation error for a type that is not accepted.
    pub fn extension_err(&self) -> (r: Result<String, Errors>)
        ensures
            self.spec_extension() is Some <==> r is Ok,
            r matches Ok(ext) ==> Some(ext@) == self.spec_extension(),
            r matches Err(e) ==> e matches Errors::Validation(msg) && msg@ == "Invalid file type"@,
    {
        match self.extension() {
            Some(ext) => Ok(ext),
            None => Err(Errors::Validation(String::from_str("Invalid file type"))),
        }
    }
}

/// The limit on the size of an upload: 24 mebibytes.
pub const DEFAULT_FILE_LIMIT: u64 = 25165824;

/// The limit on the size of an upload, whatever its type and whatever the
/// server is configured with: 24 mebibytes.
pub fn upload_limit() -> (limit: u64)
    ensures
        limit == DEFAULT_FILE_LIMIT,
        limit == 24 * 1024 * 1024,
{
    DEFAULT_FILE_LIMIT
}

/// Why an upload is not taken in.
#[derive(Debug, Clone, Copy, PartialEq, Eq)]
pub enum UploadRejection {
    /// The declared media type is not one of the accepted ones.
    InvalidFileType,
    /// The data did not fit under the limit.
    TooLarge { limit: u64 },
    /// The file has no data.
    Empty,
}

/// An uploaded file held in memory, with its media type, MD5 hash and name,
/// until it is persisted.
#[derive(Debug)]
pub struct HashedFileBuf {
    pub data: Vec<u8>,
    pub content_type: AllowedContentType,
    pub hash: [u8; 16],
    pub name: String,
}

/// Why a file cannot be persisted.
#[derive(Debug, Clone, Copy, PartialEq, Eq)]
pub enum PersistError {
    /// Its data is empty (never received, or already persisted).
    EmptyFile,
}

impl HashedFileBuf {
    /// Takes in an upload of `content_type` whose data was read up to `limit`
    /// bytes; `complete` tells whether all of it fit. A type that is not
    /// accepted, data that did not fit, and empty data are refused, in that
    /// order. Otherwise the file is named by `file_name`, or by the hex of its
    /// MD5 hash when the client gave no name.
    pub fn from_received(
        content_type: AllowedContentType,
        file_name: Option<String>,
        data: Vec<u8>,
        complete: bool,
        limit: u64,
    ) -> (r: Result<HashedFileBuf, UploadRejection>)
        ensures
            content_type.spec_extension() is None ==> r == Err::<HashedFileBuf, UploadRejection>(
                UploadRejection::InvalidFileType,
            ),
            content_type.spec_extension() is Some && !complete ==> r == Err::<
                HashedFileBuf,
                UploadRejection,
            >(UploadRejection::TooLarge { limit }),
            content_type.spec_extension() is Some && complete && data@.len() == 0 ==> r == Err::<
                HashedFileBuf,
                UploadRejection,
            >(UploadRejection::Empty),
            content_type.spec_extension() is Some && complete && data@.len() > 0 ==> r is Ok,
            r matches Ok(f) ==> {
                &&& f.data@ == data@
                &&& f.content_type == content_type
                &&& f.hash@ == md5_digest(data@)
                &&& f.name@ == match file_name {
                    Some(n) => n@,
                    None => hex_lower(md5_digest(data@)),
                }
            },
    {
        if content_type.extension().is_none() {
            return Err(UploadRejection::InvalidFileType);
        }
        if !complete {
            return Err(UploadRejection::TooLarge { limit });
        }
        if data.len() == 0 {
            return Err(UploadRejection::Empty);
        }
        let hash = md5_compute(data.as_slice());
        let name = match file_name {
            Some(n) => n,
            None => hex_encode(hash.as_slice()),
        };
        Ok(HashedFileBuf { data, content_type, hash, name })
    }

    /// The file still holds data that can be written out.
    pub open spec fn can_persist(&self) -> bool {
        self.data@.len() > 0
    }

    /// `self` is `before` after its data was written out and freed.
    pub open spec fn persisted_from(&self, before: HashedFileBuf) -> bool {
        &&& self.data@ == Seq::<u8>::empty()
        &&& self.content_type == before.content_type
        &&& self.hash == before.hash
        &&& self.name == before.name
    }

    /// The data to write when the file is persisted; a file whose data is
    /// empty cannot be persisted.
    pub fn persist_source(&self) -> (r: Result<&[u8], PersistError>)
        ensures
            r is Ok <==> self.can_persist(),
            r matches Ok(bytes) ==> bytes@ == self.data@,
            r matches Err(e) ==> e == PersistError::EmptyFile,
    {
        if self.data.len() == 0 {
            Err(PersistError::EmptyFile)
        } else {
            Ok(self.data.as_slice())
        }
    }

    /// Frees the data once it has been written; the file keeps its type, hash
    /// and name.
    pub fn mark_persisted(&mut self)
        ensures
            final(self).persisted_from(*old(self)),
    {
        self.data = Vec::new();
    }
}

/// Law: persisting frees the data, so a file that has been persisted cannot
/// be persisted again, and it keeps its type, hash and name.
pub proof fn lemma_persist_once(before: HashedFileBuf, after: HashedFileBuf)
    requires
        after.persisted_from(before),
    ensures
        !after.can_persist(),
        after.hash == before.hash,
        after.name == before.name,
{
}

/// An uploaded file once its data has been stored.
#[derive(Debug)]
pub struct HashedFile {
    pub content_type: AllowedContentType,
    pub hash: [u8; 16],
    pub name: String,
}

impl From<HashedFileBuf> for HashedFile {
    fn from(buf: HashedFileBuf) -> (r: HashedFile) {
        HashedFile { content_type: buf.content_type, hash: buf.hash, name: buf.name }
    }
}

impl FromSpecImpl<HashedFileBuf> for HashedFile {
    open spec fn obeys_from_spec() -> bool {
        true
    }

    open spec fn from_spec(buf: HashedFileBuf) -> HashedFile {
        HashedFile { content_type: buf.content_type, hash: buf.hash, name: buf.name }
    }
}

} // verus!
