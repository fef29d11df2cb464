//! Uploads: where a stored file lives and where the file picker is reopened.
use vstd::prelude::*;
use vstd::string::*;
use crate::errors::Errors;
use crate::hexcodec::{HexError, decode_all, decode_hashes, hex_encode, hex_lower, string_views, bytes_views};
use crate::models::file::HashedFileBuf;
use crate::text::{i32_to_decimal, int_decimal};

verus! {

/// The directory that pages link uploaded files under.
pub const UPLOADS_URL_DIR: &'static str = "/static/uploads/";

/// `part` joined onto the path `base`, as `Path::join` does on Unix: a part
/// that starts with `/` replaces the base, otherwise a separator is put
/// between them unless the base is empty or already ends with one.
pub open spec fn path_join(base: Seq<char>, part: Seq<char>) -> Seq<char> {
    if part.len() > 0 && part[0] == '/' {
        part
    } else if base.len() == 0 || base.last() == '/' {
        base + part
    } else {
        base + seq!['/'] + part
    }
}

/// The file name of a stored file: its hash, a dot, its extension.
pub open spec fn stored_name(hash: Seq<char>, ext: Seq<char>) -> Seq<char> {
    hash + seq!['.'] + ext
}

/// The path of the file named by `hash` and `ext` under the directory `base`.
pub fn upload_path(base: &str, hash: &str, ext: &str) -> (p: String)
    ensures
        p@ == path_join(base@, stored_name(hash@, ext@)),
{
    proof {
        reveal_strlit(".");
        reveal_strlit("/");
    }
    let name = String::from_str(hash).concat(".").concat(ext);
    let ghost part = name@;
    assert(part =~= stored_name(hash@, ext@));
    if name.unicode_len() > 0 && name.as_str().get_char(0) == '/' {
        return name;
    }
    let n = base.unicode_len();
    if n == 0 || base.get_char(n - 1) == '/' {
        let p = String::from_str(base).concat(name.as_str());
        p
    } else {
        let p = String::from_str(base).concat("/").concat(name.as_str());
        assert(p@ =~= base@ + seq!['/'] + part);
        p
    }
}

/// The path under which pages link the file with hash `hash` (in hex) and
/// extension `ext`.
pub fn path_to(hash: &str, ext: &String) -> (p: String)
    ensures
        p@ == path_join(UPLOADS_URL_DIR@, stored_name(hash@, ext@)),
{
    upload_path(UPLOADS_URL_DIR, hash, ext.as_str())
}

/// The path on disk of that file, under the uploads directory `uploads_dir`
/// of the site's own tree.
pub fn relative_path_to(uploads_dir: &str, hash: &str, ext: &String) -> (p: String)
    ensures
        p@ == path_join(uploads_dir@, stored_name(hash@, ext@)),
{
    upload_path(uploads_dir, hash, ext.as_str())
}

/// Law: a file named by a hex hash is linked right inside the uploads
/// directory, never elsewhere.
pub proof fn lemma_hashed_file_in_uploads(hash: Seq<u8>, ext: Seq<char>)
    ensures
        path_join(UPLOADS_URL_DIR@, stored_name(hex_lower(hash), ext)) == UPLOADS_URL_DIR@
            + hex_lower(hash) + seq!['.'] + ext,
{
    reveal_strlit("/static/uploads/");
    let part = stored_name(hex_lower(hash), ext);
    if hash.len() > 0 {
        assert(part[0] == hex_lower(hash)[0]);
        assert(0 <= hash[0] / 16 < 16);
    } else {
        assert(part[0] == '.');
    }
    assert(UPLOADS_URL_DIR@.last() == '/');
}

/// The query that reopens the file picker on an archive entry.
pub open spec fn id_query(entry: Option<i32>) -> Seq<char> {
    match entry {
        Some(id) => "id="@ + int_decimal(id as int),
        None => Seq::empty(),
    }
}

/// The query that restricts the file picker to some extensions.
pub open spec fn ext_query(exts: Seq<Seq<char>>) -> Seq<char>
    decreases exts.len(),
{
    if exts.len() == 0 {
        Seq::empty()
    } else {
        ext_query(exts.drop_last()) + "&ext[]="@ + exts.last()
    }
}

/// Law: the extension query holds one `&ext[]=e` part per extension, in
/// order: with no extensions it is empty, and appending an extension appends
/// exactly its part, so its length grows by 7 plus the extension's length.
pub proof fn lemma_ext_query_one_part_each(exts: Seq<Seq<char>>, e: Seq<char>)
    ensures
        ext_query(Seq::empty()) == Seq::<char>::empty(),
        ext_query(exts.push(e)) == ext_query(exts) + seq!['&', 'e', 'x', 't', '[', ']', '='] + e,
        ext_query(exts.push(e)).len() == ext_query(exts).len() + 7 + e.len(),
{
    reveal_strlit("&ext[]=");
    assert(exts.push(e).drop_last() =~= exts);
    assert("&ext[]="@ =~= seq!['&', 'e', 'x', 't', '[', ']', '=']);
}

/// Where the file picker is reopened after files were uploaded or deleted.
pub open spec fn file_picker_target(entry: Option<i32>, exts: Seq<Seq<char>>) -> Seq<char> {
    "/upload/file-picker?"@ + id_query(entry) + ext_query(exts)
}

/// The address of the file picker for `entry`, showing files with the
/// extensions `ext`.
pub fn file_picker_redirect(entry: Option<i32>, ext: &Vec<String>) -> (target: String)
    ensures
        target@ == file_picker_target(entry, string_views(ext@)),
{
    let mut out = String::from_str("/upload/file-picker?");
    match entry {
        Some(id) => {
            out.append("id=");
            let digits = i32_to_decimal(id);
            out.append(digits.as_str());
        },
        None => {},
    }
    let ghost head = out@;
    assert(head =~= "/upload/file-picker?"@ + id_query(entry));
    let ghost exts = string_views(ext@);
    let mut i: usize = 0;
    assert(exts.take(0) =~= Seq::<Seq<char>>::empty());
    assert(out@ =~= head + ext_query(exts.take(0)));
    while i < ext.len()
        invariant
            i <= ext@.len(),
            exts == string_views(ext@),
            head =~= "/upload/file-picker?"@ + id_query(entry),
            out@ == head + ext_query(exts.take(i as int)),
        decreases ext@.len() - i,
    {
        out.append("&ext[]=");
        out.append(ext[i].as_str());
        proof {
            assert(exts.take(i + 1).drop_last() =~= exts.take(i as int));
            assert(exts.take(i + 1).last() == ext@[i as int]@);
        }
        i = i + 1;
        assert(out@ =~= head + ext_query(exts.take(i as int)));
    }
    assert(exts.take(i as int) =~= exts);
    out
}

/// The form that uploads several files at once from the file picker.
#[derive(Debug)]
pub struct FilesHolder {
    pub entry: Option<i32>,
    pub ext: Vec<String>,
    pub files: Vec<HashedFileBuf>,
}

impl FilesHolder {
    /// Where the file picker is reopened after the upload.
    pub fn redirect_target(&self) -> (target: String)
        ensures
            target@ == file_picker_target(self.entry, string_views(self.ext@)),
    {
        file_picker_redirect(self.entry, &self.ext)
    }
}

/// The form that deletes stored files, named by their hashes in hex.
#[derive(Debug)]
pub struct Hashes {
    pub entry: Option<i32>,
    pub hashes: Vec<String>,
    pub ext: Vec<String>,
}

impl Hashes {
    /// Where the file picker is reopened after the deletion.
    pub fn redirect_target(&self) -> (target: String)
        ensures
            target@ == file_picker_target(self.entry, string_views(self.ext@)),
    {
        file_picker_redirect(self.entry, &self.ext)
    }

    /// The hashes of the files to delete; malformed hex is the client's error.
    pub fn decoded_hashes(&self) -> (r: Result<Vec<Vec<u8>>, Errors>)
        ensures
            match r {
                Ok(v) => decode_all(string_views(self.hashes@)) == Ok::<Seq<Seq<u8>>, HexError>(
                    bytes_views(v@),
                ),
                Err(e) => decode_all(string_views(self.hashes@)) matches Err(h) && e
                    == Errors::Hex(h),
            },
    {
        decode_hashes(&self.hashes)
    }
}

/// Where an uploaded file goes: its hash in hex, its extension, and its path
/// on disk.
#[derive(Debug)]
pub struct UploadTarget {
    pub hex: String,
    pub ext: String,
    pub location: String,
}

/// Where `file` is stored under the directory `uploads_dir`: the file is
/// named by the hex of its hash and the extension of its media type; a type
/// that is not accepted is a validation error.
pub fn upload_target(file: &HashedFileBuf, uploads_dir: &str) -> (r: Result<UploadTarget, Errors>)
    ensures
        r is Ok <==> file.content_type.spec_extension() is Some,
        r matches Ok(t) ==> {
            &&& t.hex@ == hex_lower(file.hash@)
            &&& Some(t.ext@) == file.content_type.spec_extension()
            &&& t.location@ == path_join(uploads_dir@, stored_name(t.hex@, t.ext@))
        },
        r matches Err(e) ==> (e matches Errors::Validation(m) && m@ == "Invalid file type"@),
{
    let hex = hex_encode(file.hash.as_slice());
    let ext = file.content_type.extension_err()?;
    let location = relative_path_to(uploads_dir, hex.as_str(), &ext);
    Ok(UploadTarget { hex, ext, location })
}

/// The path on disk of a stored file, from the id bytes and extension that the
/// database returns for it.
pub fn stored_file_path(uploads_dir: &str, id: &[u8], ext: &String) -> (p: String)
    ensures
        p@ == path_join(uploads_dir@, stored_name(hex_lower(id@), ext@)),
{
    let hex = hex_encode(id);
    relative_path_to(uploads_dir, hex.as_str(), ext)
}

} // verus!
