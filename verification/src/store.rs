//! The records kept in the database and the decisions around reading and writing them:
//! which short path a new record gets, and what a lookup by short path gives.

use vstd::prelude::*;

use crate::short_url::{generate_short_path_url, is_short_url};

verus! {

/// The record of one stored file.
#[derive(Debug, Clone, PartialEq, Eq)]
pub struct FileRecord {
    /// Where the file is stored.
    pub path: String,
    /// The name the uploader gave the file.
    pub first_name: String,
    /// The stored name.
    pub new_filename: String,
    /// The short path under which the file is downloaded.
    pub short_url: String,
    /// Whether the stored bytes are encrypted.
    pub is_aes: bool,
}

/// What the service needs of a record to serve a download.
#[derive(Debug, Clone, PartialEq, Eq)]
pub struct StoredFile {
    pub path: String,
    pub first_name: String,
    pub is_aes: bool,
}

/// A record as read back from the database: each field is `None` when the document lacks
/// it or holds a value of another type.
#[derive(Debug, Clone, PartialEq, Eq)]
pub struct StoredDocument {
    pub path: Option<String>,
    pub first_name: Option<String>,
    pub is_aes: Option<bool>,
}

/// A lookup by short path found no record.
#[derive(Debug, Clone, Copy, PartialEq, Eq, Structural)]
pub enum LookupError {
    NotFound,
}

impl LookupError {
    /// The text of the error.
    pub fn message(&self) -> (text: &'static str)
        ensures
            text@ == "FILE not found or URL doesn't exist"@,
    {
        "FILE not found or URL doesn't exist"
    }
}

/// Every field of a read-back record is present with the right type.
pub open spec fn document_complete(doc: StoredDocument) -> bool {
    doc.path is Some && doc.first_name is Some && doc.is_aes is Some
}

/// What a lookup by short path gives: the path, uploaded name and encryption flag of the
/// record found, or `NotFound`.
pub fn stored_file_from_document(found: Option<StoredDocument>) -> (res: Result<StoredFile, LookupError>)
    requires
        found matches Some(doc) ==> document_complete(doc),
    ensures
        match found {
            None => res == Err::<StoredFile, LookupError>(LookupError::NotFound),
            Some(doc) => res matches Ok(f) && Some(f.path) == doc.path && Some(f.first_name)
                == doc.first_name && Some(f.is_aes) == doc.is_aes,
        },
{
    match found {
        None => Err(LookupError::NotFound),
        Some(doc) => match (doc.path, doc.first_name, doc.is_aes) {
            (Some(path), Some(first_name), Some(is_aes)) => Ok(StoredFile { path, first_name, is_aes }),
            _ => Err(LookupError::NotFound),
        },
    }
}

/// Storing one record. A store first asks whether the record's short path is taken; if
/// it is, the record gets a fresh short path. The store then asks about that fresh path,
/// and while the answer is "taken" it asks about yet fresher paths, but the record keeps
/// its first fresh path whatever the answers are. The record is inserted once an answer
/// is "free".
#[derive(Debug)]
pub struct StoreJob {
    record: FileRecord,
    replaced: bool,
}

/// What a store does next.
#[derive(Debug)]
pub enum StoreStep {
    /// Ask whether a record with this short path exists, then hand the answer to the job.
    Find(StoreJob, String),
    /// Insert this record; the store is then done.
    Insert(FileRecord),
}

impl StoreJob {
    /// The record that is to be inserted.
    pub closed spec fn record(&self) -> FileRecord {
        self.record
    }

    /// Whether the record's first short path was found taken and replaced.
    pub closed spec fn replaced(&self) -> bool {
        self.replaced
    }

    /// The record that is to be inserted.
    pub fn current_record(&self) -> (r: &FileRecord)
        ensures
            *r == self.record(),
    {
        &self.record
    }

    /// Whether the record's first short path was found taken and replaced.
    pub fn is_replaced(&self) -> (b: bool)
        ensures
            b == self.replaced(),
    {
        self.replaced
    }

    /// Starts storing `record`: the first operation asks about its short path.
    pub fn start(record: FileRecord) -> (step: StoreStep)
        ensures
            step matches StoreStep::Find(job, u) && job.record() == record && !job.replaced()
                && u@ == record.short_url@,
    {
        let short_url = record.short_url.clone();
        StoreStep::Find(StoreJob { record, replaced: false }, short_url)
    }

    /// Handles the answer to a `Find`: whether the short path asked about is taken. A
    /// free answer inserts the record. The first taken answer gives the record a fresh
    /// short path and asks about it; later taken answers ask about fresher paths and leave
    /// the record as it is.
    pub fn on_lookup(self, taken: bool) -> (step: StoreStep)
        ensures
            !taken ==> step == StoreStep::Insert(self.record()),
            taken && !self.replaced() ==> (step matches StoreStep::Find(job, u) && {
                &&& job.replaced()
                &&& job.record().path == self.record().path
                &&& job.record().first_name == self.record().first_name
                &&& job.record().new_filename == self.record().new_filename
                &&& job.record().is_aes == self.record().is_aes
                &&& is_short_url(job.record().short_url@)
                &&& u@ == job.record().short_url@
            }),
            taken && self.replaced() ==> (step matches StoreStep::Find(job, u) && job == self
                && is_short_url(u@)),
    {
        if !taken {
            return StoreStep::Insert(self.record);
        }
        let fresh = generate_short_path_url();
        let mut job = self;
        if !job.replaced {
            job.record.short_url = fresh.clone();
            job.replaced = true;
        }
        StoreStep::Find(job, fresh)
    }
}

} // verus!
