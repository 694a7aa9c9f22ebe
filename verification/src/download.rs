//! The decisions of the download handlers: what a download by short path, with or
//! without a key, is answered at each step.

use vstd::prelude::*;

use crate::base64_convert::{convert_base64_to_aes, key_from_base64};
use crate::content_type::{check_content_type, content_type_for, extension};
use crate::encryption::{decrypt_data_checked, decrypted, padding_fits};
use crate::store::StoredFile;
use crate::text::{concat_str, push_char};
use crate::upload::{STATUS_BAD_REQUEST, STATUS_NOT_FOUND, STATUS_OK};

verus! {

/// The answer to a download.
#[derive(Debug, Clone, PartialEq, Eq)]
pub enum DownloadReply {
    /// An error status with a text body.
    Failure { status: u16, message: &'static str },
    /// The file, sent as an attachment.
    File {
        content_type: &'static str,
        content_length: usize,
        content_disposition: String,
        data: Vec<u8>,
    },
}

impl DownloadReply {
    /// The HTTP status of the answer.
    pub open spec fn status_of(&self) -> u16 {
        match self {
            DownloadReply::Failure { status, .. } => *status,
            DownloadReply::File { .. } => STATUS_OK,
        }
    }

    /// The HTTP status of the answer.
    pub fn status(&self) -> (status: u16)
        ensures
            status == self.status_of(),
    {
        match self {
            DownloadReply::Failure { status, .. } => *status,
            DownloadReply::File { .. } => STATUS_OK,
        }
    }
}

/// A failure answered with `status` and the text `text`.
pub open spec fn is_failure(reply: DownloadReply, status: u16, text: Seq<char>) -> bool {
    reply matches DownloadReply::Failure { status: s, message: m } && s == status && m@ == text
}

/// The `Content-Disposition` value for a file named `file_name`.
pub open spec fn attachment_disposition(file_name: Seq<char>) -> Seq<char> {
    "attachment; filename="@.push('"') + file_name + seq!['"']
}

/// Every file is sent as an attachment under its own name: the value is
/// `attachment; filename="`, the name, and `"`, whatever the name.
pub proof fn lemma_disposition_is_attachment(file_name: Seq<char>)
    ensures
        attachment_disposition(file_name) == "attachment; filename="@ + seq!['"'] + file_name + seq!['"'],
        attachment_disposition(file_name).len() == file_name.len() + 23,
        attachment_disposition(file_name).take(10) == seq!['a', 't', 't', 'a', 'c', 'h', 'm', 'e', 'n', 't'],
        attachment_disposition(file_name).subrange(22, 22 + file_name.len() as int) == file_name,
        attachment_disposition(file_name)[21] == '"',
        attachment_disposition(file_name).last() == '"',
{
    reveal_strlit("attachment; filename=");
    let d = attachment_disposition(file_name);
    let p = "attachment; filename="@;
    assert(p =~= seq!['a', 't', 't', 'a', 'c', 'h', 'm', 'e', 'n', 't', ';', ' ', 'f', 'i', 'l', 'e', 'n', 'a', 'm', 'e', '=']);
    assert(p.push('"') =~= p + seq!['"']);
    assert(d.take(10) =~= seq!['a', 't', 't', 'a', 'c', 'h', 'm', 'e', 'n', 't']);
    assert(d.subrange(22, 22 + file_name.len() as int) =~= file_name);
}

/// The file `data`, named `file_name`, sent as an attachment of its MIME type and length.
pub open spec fn is_file_reply(reply: DownloadReply, file_name: Seq<char>, data: Seq<u8>) -> bool {
    reply matches DownloadReply::File { content_type, content_length, content_disposition, data: d }
        && content_type@ == content_type_for(extension(file_name))
        && content_length == data.len()
        && content_disposition@ == attachment_disposition(file_name)
        && d@ == data
}

/// The first step of a download: what the lookup by short path found. Without a record
/// the answer is `400 URL or FILE not found`; an encrypted file asked for without a key is
/// answered `400 Insert the AES key into URL`; otherwise the stored file is read next.
pub fn download_after_lookup(found: Option<StoredFile>, key_in_url: bool) -> (res: Result<StoredFile, DownloadReply>)
    ensures
        match found {
            None => res matches Err(r) && is_failure(r, STATUS_BAD_REQUEST, "URL or FILE not found"@),
            Some(f) => if f.is_aes && !key_in_url {
                res matches Err(r) && is_failure(r, STATUS_BAD_REQUEST, "Insert the AES key into URL"@)
            } else {
                res == Ok::<StoredFile, DownloadReply>(f)
            },
        },
{
    match found {
        None => Err(DownloadReply::Failure { status: STATUS_BAD_REQUEST, message: "URL or FILE not found" }),
        Some(f) => {
            if f.is_aes && !key_in_url {
                Err(DownloadReply::Failure { status: STATUS_BAD_REQUEST, message: "Insert the AES key into URL" })
            } else {
                Ok(f)
            }
        },
    }
}

/// The answer when the stored file cannot be opened.
pub fn download_open_failed() -> (reply: DownloadReply)
    ensures
        is_failure(reply, STATUS_NOT_FOUND, "FILE or URL not found"@),
{
    DownloadReply::Failure { status: STATUS_NOT_FOUND, message: "FILE or URL not found" }
}

/// The key given in a download address, or the answer `404 Invalid key` when it is not
/// the base64 text of a 32-byte key.
pub fn download_key(aes_key: String) -> (res: Result<[u8; 32], DownloadReply>)
    ensures
        match res {
            Ok(key) => key_from_base64(aes_key@) == Ok::<Seq<u8>, crate::base64_convert::KeyError>(key@),
            Err(r) => key_from_base64(aes_key@) is Err && is_failure(r, STATUS_NOT_FOUND, "Invalid key"@),
        },
{
    match convert_base64_to_aes(aes_key) {
        Ok(key) => Ok(key),
        Err(_) => Err(DownloadReply::Failure { status: STATUS_NOT_FOUND, message: "Invalid key" }),
    }
}

/// The `Content-Disposition` value for a file named `file_name`.
pub fn content_disposition(file_name: &String) -> (value: String)
    ensures
        value@ == attachment_disposition(file_name@),
        value@ == "attachment; filename="@ + seq!['"'] + file_name@ + seq!['"'],
{
    let mut value = String::from_str("attachment; filename=");
    push_char(&mut value, '"');
    let mut value = concat_str(value.as_str(), file_name.as_str());
    push_char(&mut value, '"');
    value
}

/// The file `data`, named `file_name`, sent as an attachment.
pub fn file_reply(file_name: &String, data: Vec<u8>) -> (reply: DownloadReply)
    ensures
        is_file_reply(reply, file_name@, data@),
{
    let content_type = check_content_type(file_name);
    let content_length = data.len();
    let content_disposition = content_disposition(file_name);
    DownloadReply::File { content_type, content_length, content_disposition, data }
}

/// The answer to a download of stored bytes `stored` with `key`: the bytes read back under
/// the key, sent as an attachment named `file_name`. `None` where they cannot be read
/// back (the padding does not fit), where the request fails without an answer.
pub fn decrypted_reply(file_name: &String, stored: &[u8], key: [u8; 32]) -> (reply: Option<DownloadReply>)
    ensures
        match reply {
            Some(r) => padding_fits(key@, stored@) && is_file_reply(r, file_name@, decrypted(key@, stored@)),
            None => !padding_fits(key@, stored@),
        },
{
    match decrypt_data_checked(stored, key) {
        Some(data) => Some(file_reply(file_name, data)),
        None => None,
    }
}

} // verus!
