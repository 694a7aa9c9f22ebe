//! What the service knows of an uploaded file before storing it.

use vstd::prelude::*;

use crate::text::concat_str;
use crate::uuid_name::{generate_uuid_v4, is_uuid_v4_text, new_file_name, stored_name};

verus! {

/// An uploaded file as the request describes it.
#[derive(Debug, Clone, PartialEq, Eq)]
pub struct FileMainData {
    /// The name the uploader gave the file.
    pub name: String,
    /// The raw value of the request's `Content-Length` header, if it has one.
    pub content_length: Option<Vec<u8>>,
}

/// An uploaded file with the name and path under which it is stored.
#[derive(Debug, Clone, PartialEq, Eq)]
pub struct FileFullData {
    pub main_data: FileMainData,
    /// The length of the `Content-Length` header's value, or 0 without that header.
    pub len: usize,
    /// The stored name: a random UUID and the uploaded name's extension.
    pub new_name: String,
    /// Where the file is stored: the storage directory followed by `new_name`.
    pub file_path: String,
}

/// The length recorded for a file: that of its `Content-Length` header's value, or 0.
pub open spec fn recorded_len(content_length: Option<Vec<u8>>) -> nat {
    match content_length {
        Some(v) => v@.len(),
        None => 0,
    }
}

impl FileMainData {
    pub fn new(name: String, content_length: Option<Vec<u8>>) -> (data: Self)
        ensures
            data.name == name,
            data.content_length == content_length,
    {
        FileMainData { name, content_length }
    }
}

impl FileFullData {
    /// Describes an upload: a fresh stored name, the recorded length, and the path in
    /// `files_dir`.
    pub fn new(name: String, content_length: Option<Vec<u8>>, files_dir: String) -> (data: Self)
        ensures
            data.main_data.name@ == name@,
            data.main_data.content_length == content_length,
            data.len == recorded_len(content_length),
            exists|u: Seq<char>| is_uuid_v4_text(u) && data.new_name@ == stored_name(u, name@),
            data.file_path@ == files_dir@ + data.new_name@,
    {
        let main_data = FileMainData::new(name, content_length);
        let new_name = FileFullData::set_new_name(&main_data);
        let len = FileFullData::set_len(&main_data);
        let file_path = FileFullData::set_path(files_dir, &new_name);
        FileFullData { main_data, len, new_name, file_path }
    }

    /// The length of the `Content-Length` header's value, or 0 without that header.
    pub fn set_len(main_data: &FileMainData) -> (len: usize)
        ensures
            len == recorded_len(main_data.content_length),
    {
        match &main_data.content_length {
            Some(v) => v.len(),
            None => 0,
        }
    }

    /// Where a file named `new_name` is stored in `files_dir`.
    pub fn set_path(files_dir: String, new_name: &String) -> (path: String)
        ensures
            path@ == files_dir@ + new_name@,
    {
        concat_str(files_dir.as_str(), new_name.as_str())
    }

    /// A fresh stored name for the file: a random UUID, a `.`, and the extension of its
    /// uploaded name.
    pub fn set_new_name(main_data: &FileMainData) -> (new_name: String)
        ensures
            exists|u: Seq<char>| is_uuid_v4_text(u) && new_name@ == stored_name(u, main_data.name@),
    {
        let uuid = generate_uuid_v4();
        new_file_name(uuid.as_str(), main_data.name.as_str())
    }
}

} // verus!
