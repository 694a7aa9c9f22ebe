use trustybox::base64_convert::convert_aes_to_base64;
use trustybox::download::{
    content_disposition, decrypted_reply, download_after_lookup, download_key,
    download_open_failed, file_reply, DownloadReply,
};
use trustybox::encryption::encrypt_data;
use trustybox::store::StoredFile;

fn stored(is_aes: bool) -> StoredFile {
    StoredFile { path: "/srv/files/u.pdf".to_string(), first_name: "report.pdf".to_string(), is_aes }
}

fn failure(status: u16, message: &'static str) -> DownloadReply {
    DownloadReply::Failure { status, message }
}

#[test]
fn lookup_steps() {
    assert_eq!(download_after_lookup(None, false), Err(failure(400, "URL or FILE not found")));
    assert_eq!(download_after_lookup(None, true), Err(failure(400, "URL or FILE not found")));
    assert_eq!(
        download_after_lookup(Some(stored(true)), false),
        Err(failure(400, "Insert the AES key into URL"))
    );
    assert_eq!(download_after_lookup(Some(stored(true)), true), Ok(stored(true)));
    assert_eq!(download_after_lookup(Some(stored(false)), false), Ok(stored(false)));
    assert_eq!(download_after_lookup(Some(stored(false)), true), Ok(stored(false)));
    assert_eq!(download_open_failed(), failure(404, "FILE or URL not found"));
    assert_eq!(download_open_failed().status(), 404);
}

#[test]
fn keys_in_addresses() {
    let key = [3u8; 32];
    assert_eq!(download_key(convert_aes_to_base64(key)), Ok(key));
    assert_eq!(download_key("nope!".to_string()), Err(failure(404, "Invalid key")));
    assert_eq!(download_key("AAEC".to_string()), Err(failure(404, "Invalid key")));
}

#[test]
fn files_are_sent_as_attachments() {
    assert_eq!(content_disposition(&"a b.txt".to_string()), "attachment; filename=\"a b.txt\"");
    let reply = file_reply(&"report.pdf".to_string(), vec![1, 2, 3]);
    assert_eq!(reply.status(), 200);
    assert_eq!(
        reply,
        DownloadReply::File {
            content_type: "application/pdf",
            content_length: 3,
            content_disposition: "attachment; filename=\"report.pdf\"".to_string(),
            data: vec![1, 2, 3],
        }
    );
}

#[test]
fn encrypted_files_are_sent_deciphered() {
    let key = [42u8; 32];
    let data = b"secret contents of the file".to_vec();
    let stored_bytes = encrypt_data(&data, key);
    let reply = decrypted_reply(&"notes.txt".to_string(), &stored_bytes, key).unwrap();
    assert_eq!(
        reply,
        DownloadReply::File {
            content_type: "text/plain",
            content_length: data.len(),
            content_disposition: "attachment; filename=\"notes.txt\"".to_string(),
            data,
        }
    );
    assert_eq!(decrypted_reply(&"x".to_string(), &[], key), None);
}
