//! The archive: entries with a description and attached files.
use vstd::prelude::*;
use vstd::string::*;
use crate::errors::Errors;
use crate::hexcodec::{HexError, decode_all, decode_hashes, string_views, bytes_views};
use crate::models::file::FileRecord;

verus! {

/// An archive entry with the files attached to it.
#[derive(Debug)]
pub struct Entry {
    pub id: i32,
    pub title: String,
    pub author: String,
    pub cover: Option<String>,
    pub description: String,
    pub files: Vec<FileRecord>,
}

impl Entry {
    /// A newly created entry, from the id, title and author the database
    /// gave it: no cover, an empty description, no files.
    pub fn created(id: i32, title: String, author: String) -> (e: Entry)
        ensures
            e.id == id,
            e.title == title,
            e.author == author,
            e.cover is None,
            e.description@ == Seq::<char>::empty(),
            e.files@ == Seq::<FileRecord>::empty(),
    {
        Entry { id, title, author, cover: None, description: String::new(), files: Vec::new() }
    }

    /// An entry from the columns of its row, before its files are fetched.
    pub fn listed(
        id: i32,
        title: String,
        author: String,
        cover: Option<String>,
        description: String,
    ) -> (e: Entry)
        ensures
            e.id == id,
            e.title == title,
            e.author == author,
            e.cover == cover,
            e.description == description,
            e.files@ == Seq::<FileRecord>::empty(),
    {
        Entry { id, title, author, cover, description, files: Vec::new() }
    }
}

/// The form that attaches files to, or detaches them from, an entry; the
/// files are named by their hashes in hex.
#[derive(Debug)]
pub struct EntryHashes {
    pub entry: i32,
    pub hashes: Vec<String>,
}

impl EntryHashes {
    /// The hashes of the files; malformed hex is the client's error.
    pub fn decoded_hashes(&self) -> (r: Result<Vec<Vec<u8>>, Errors>)
        ensures
            match r {
                Ok(v) => decode_all(string_views(self.hashes@)) == Ok::<Seq<Seq<u8>>, HexError>(
                    bytes_views(v@),
                ),
                Err(e) => decode_all(string_views(self.hashes@)) matches Err(h) && e
                    == Errors::Hex(h),
            },
    {
        decode_hashes(&self.hashes)
    }
}

} // verus!
