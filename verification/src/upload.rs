//! The decisions of the upload handler: what an upload is stored as, and what the
//! uploader is answered.

use vstd::prelude::*;

use crate::aes_key::set_aes_key;
use crate::base64_convert::{
    base64_url_encode, convert_aes_to_base64, is_url_safe_char, key_from_base64, lemma_decode_encode,
    lemma_encode_shape, lemma_key_text_round_trip,
};
use crate::encryption::{decrypted, encrypt_data, encrypted, padding_fits, BLOCK_LEN};
use crate::file_type::FileFullData;
use crate::short_url::{generate_short_path_url, is_short_url};
use crate::text::concat_str;
use crate::uuid_name::{is_uuid_v4_text, stored_name};

verus! {

/// HTTP status: the request succeeded.
pub const STATUS_OK: u16 = 200;

/// HTTP status: the request could not be served as asked.
pub const STATUS_BAD_REQUEST: u16 = 400;

/// HTTP status: nothing was found.
pub const STATUS_NOT_FOUND: u16 = 404;

/// HTTP status: the server failed.
pub const STATUS_INTERNAL_SERVER_ERROR: u16 = 500;

/// The answer to an upload.
#[derive(Debug, Clone, PartialEq, Eq)]
pub struct UploadResponse {
    pub short_path: Option<String>,
    pub error: Option<String>,
    pub full_url: Option<String>,
    pub aes_key: Option<String>,
}

/// The query of an upload request.
#[derive(Debug, Clone, PartialEq, Eq)]
pub struct UploadPayload {
    pub encryption: Option<String>,
}

impl UploadPayload {
    /// The uploader asked for AES encryption: `encryption` is `aes` or `aes/`.
    pub open spec fn asks_encryption(&self) -> bool {
        self.encryption matches Some(e) && (e@ == "aes"@ || e@ == "aes/"@)
    }

    /// Whether the uploader asked for AES encryption.
    pub fn encryption_requested(&self) -> (asked: bool)
        ensures
            asked == self.asks_encryption(),
    {
        match &self.encryption {
            Some(header) => {
                let aes = String::from_str("aes");
                let aes_slash = String::from_str("aes/");
                *header == aes || *header == aes_slash
            },
            None => false,
        }
    }
}

/// The answer to a failed upload: `status_code` and the message `err`, nothing else.
pub fn upload_err_resp(err: String, status_code: u16) -> (res: (u16, UploadResponse))
    ensures
        res.0 == status_code,
        res.1.short_path is None,
        res.1.full_url is None,
        res.1.aes_key is None,
        res.1.error == Some(err),
{
    let response = UploadResponse { short_path: None, full_url: None, error: Some(err), aes_key: None };
    (status_code, response)
}

/// A failed upload answered with `status_code` and the message `text`.
pub open spec fn is_failure(res: (u16, UploadResponse), status_code: u16, text: Seq<char>) -> bool {
    &&& res.0 == status_code
    &&& res.1.short_path is None
    &&& res.1.full_url is None
    &&& res.1.aes_key is None
    &&& res.1.error matches Some(e) && e@ == text
}

/// The answer when the request holds no file.
pub fn upload_file_missing() -> (res: (u16, UploadResponse))
    ensures
        is_failure(res, STATUS_INTERNAL_SERVER_ERROR, "FILE to download NOT FOUND"@),
{
    upload_err_resp(String::from_str("FILE to download NOT FOUND"), STATUS_INTERNAL_SERVER_ERROR)
}

/// The answer when the file could not be created in storage.
pub fn upload_create_failed(encrypted: bool) -> (res: (u16, UploadResponse))
    ensures
        encrypted ==> is_failure(res, STATUS_BAD_REQUEST, "Could not encrypt data. Try again."@),
        !encrypted ==> is_failure(res, STATUS_BAD_REQUEST, "Can't to upload file. Try again"@),
{
    if encrypted {
        upload_err_resp(String::from_str("Could not encrypt data. Try again."), STATUS_BAD_REQUEST)
    } else {
        upload_err_resp(String::from_str("Can't to upload file. Try again"), STATUS_BAD_REQUEST)
    }
}

/// The answer when the record could not be inserted in the database.
pub fn upload_insert_failed() -> (res: (u16, UploadResponse))
    ensures
        is_failure(res, STATUS_BAD_REQUEST, "Could not insert information to database. Try again"@),
{
    upload_err_resp(
        String::from_str("Could not insert information to database. Try again"),
        STATUS_BAD_REQUEST,
    )
}

/// The download address of a stored file: `http://`, the server address, `/`, the short
/// path, and for an encrypted file `/` and the key's base64 text.
pub open spec fn download_url(server_addr: Seq<char>, short_path: Seq<char>, key_text: Option<Seq<char>>) -> Seq<char> {
    let base = "http://"@ + server_addr + "/"@ + short_path;
    match key_text {
        Some(k) => base + "/"@ + k,
        None => base,
    }
}

/// The download address of an encrypted upload is the address of the file, a `/`, and
/// the whole key text; that text holds no `/`, so it is the address's last segment, and it
/// reads back as the upload's key.
pub proof fn lemma_download_url_carries_key(server_addr: Seq<char>, short_path: Seq<char>, key: Seq<u8>)
    requires
        key.len() == 32,
    ensures
        ({
            let text = base64_url_encode(key);
            let url = download_url(server_addr, short_path, Some(text));
            &&& url == "http://"@ + server_addr + "/"@ + short_path + "/"@ + text
            &&& text.len() == 43
            &&& url.skip(url.len() - 43) == text
            &&& url[url.len() - 44] == '/'
            &&& !text.contains('/')
            &&& key_from_base64(url.skip(url.len() - 43)) == Ok::<Seq<u8>, crate::base64_convert::KeyError>(key)
            &&& url.take(url.len() - 44) == download_url(server_addr, short_path, None)
        }),
{
    reveal_strlit("/");
    let text = base64_url_encode(key);
    lemma_encode_shape(key);
    lemma_decode_encode(key);
    let base = download_url(server_addr, short_path, None);
    let url = download_url(server_addr, short_path, Some(text));
    assert(url == base + "/"@ + text);
    assert(url.skip(url.len() - 43) =~= text);
    assert(url.take(url.len() - 44) =~= base);
    assert(url[url.len() - 44] == "/"@[0]);
    assert(!text.contains('/')) by {
        if text.contains('/') {
            let i = choose|i: int| 0 <= i < text.len() && text[i] == '/';
            assert(is_url_safe_char(text[i]));
        }
    }
}

/// The answer to a stored upload: its short path, its download address and, for an
/// encrypted upload, its key.
pub fn upload_succeeded(server_addr: &str, short_path: &String, aes_key: Option<String>) -> (res: (u16, UploadResponse))
    ensures
        res.0 == STATUS_OK,
        res.1.short_path == Some(*short_path),
        res.1.error is None,
        res.1.aes_key == aes_key,
        res.1.full_url matches Some(u) && u@ == download_url(
            server_addr@,
            short_path@,
            match aes_key {
                Some(k) => Some(k@),
                None => None,
            },
        ),
        res.1.full_url matches Some(u) && u@ == "http://"@ + server_addr@ + "/"@ + short_path@ + match aes_key {
            Some(k) => "/"@ + k@,
            None => Seq::<char>::empty(),
        },
{
    let head = concat_str("http://", server_addr);
    let mut url = concat_str(head.as_str(), "/");
    url = concat_str(url.as_str(), short_path.as_str());
    let full_url = match &aes_key {
        Some(k) => {
            let with_slash = concat_str(url.as_str(), "/");
            concat_str(with_slash.as_str(), k.as_str())
        },
        None => url,
    };
    let response = UploadResponse {
        short_path: Some(short_path.clone()),
        full_url: Some(full_url),
        error: None,
        aes_key,
    };
    (STATUS_OK, response)
}

/// Where and how an upload is stored.
#[derive(Debug, Clone, PartialEq, Eq)]
pub struct UploadPlan {
    /// The name the uploader gave the file.
    pub file_name: String,
    /// The stored name.
    pub new_filename: String,
    /// The short path the uploader is given.
    pub short_path: String,
    /// Where the file is stored.
    pub file_path: String,
    /// Whether the stored bytes are encrypted.
    pub encrypted: bool,
}

/// Plans the storage of an upload named `file_name`: a stored name made of a fresh UUID
/// and the extension, a fresh short path, and the path of the stored name in `files_dir`.
pub fn plan_upload(file_name: String, files_dir: String, encrypted: bool) -> (plan: UploadPlan)
    ensures
        plan.file_name == file_name,
        exists|u: Seq<char>| is_uuid_v4_text(u) && plan.new_filename@ == stored_name(u, file_name@),
        is_short_url(plan.short_path@),
        plan.file_path@ == files_dir@ + plan.new_filename@,
        plan.encrypted == encrypted,
{
    let main_data = crate::file_type::FileMainData::new(file_name, None);
    let new_filename = FileFullData::set_new_name(&main_data);
    let short_path = generate_short_path_url();
    let file_path = FileFullData::set_path(files_dir, &new_filename);
    UploadPlan { file_name: main_data.name, new_filename, short_path, file_path, encrypted }
}

/// An encrypted upload: a fresh key, its base64 text, and the bytes to store.
#[derive(Debug, Clone, PartialEq, Eq)]
pub struct SealedUpload {
    pub key: [u8; 32],
    pub key_text: String,
    pub data: Vec<u8>,
}

/// Encrypts uploaded bytes under a fresh random key. The key text reads back as the key,
/// and the stored bytes read back under it as the uploaded bytes.
pub fn seal_upload(data: &[u8]) -> (sealed: SealedUpload)
    requires
        data@.len() + BLOCK_LEN <= usize::MAX,
    ensures
        sealed.key_text@ == base64_url_encode(sealed.key@),
        key_from_base64(sealed.key_text@) == Ok::<Seq<u8>, crate::base64_convert::KeyError>(sealed.key@),
        sealed.data@ == encrypted(sealed.key@, data@),
        padding_fits(sealed.key@, sealed.data@),
        decrypted(sealed.key@, sealed.data@) == data@,
{
    let key = set_aes_key();
    let key_text = convert_aes_to_base64(key);
    let stored = encrypt_data(data, key);
    proof {
        lemma_key_text_round_trip(key);
    }
    SealedUpload { key, key_text, data: stored }
}

} // verus!
