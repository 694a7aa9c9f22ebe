//! Verified core of a small file-hosting service: the keys and AES-256 encryption of
//! stored files, the base64 form of keys, short download paths, stored file names, the
//! MIME type of a download, and the decisions of the upload and download handlers.

pub mod aes_key;
pub mod base64_convert;
pub mod content_type;
pub mod download;
pub mod encryption;
pub mod file_type;
pub mod short_url;
pub mod store;
pub mod text;
pub mod upload;
pub mod uuid_name;
