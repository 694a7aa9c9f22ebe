use trustybox::base64_convert::convert_base64_to_aes;
use trustybox::encryption::decrypt_data;
use trustybox::upload::{
    plan_upload, seal_upload, upload_create_failed, upload_err_resp, upload_file_missing,
    upload_insert_failed, upload_succeeded, UploadPayload, UploadResponse,
};

fn failure(status: u16, text: &str) -> (u16, UploadResponse) {
    (status, UploadResponse { short_path: None, error: Some(text.to_string()), full_url: None, aes_key: None })
}

#[test]
fn encryption_is_asked_by_aes() {
    let ask = |e: Option<&str>| UploadPayload { encryption: e.map(|s| s.to_string()) }.encryption_requested();
    assert!(ask(Some("aes")));
    assert!(ask(Some("aes/")));
    assert!(!ask(Some("AES")));
    assert!(!ask(Some("aes//")));
    assert!(!ask(Some("")));
    assert!(!ask(None));
}

#[test]
fn failures() {
    assert_eq!(upload_err_resp("boom".to_string(), 418), failure(418, "boom"));
    assert_eq!(upload_file_missing(), failure(500, "FILE to download NOT FOUND"));
    assert_eq!(upload_create_failed(false), failure(400, "Can't to upload file. Try again"));
    assert_eq!(upload_create_failed(true), failure(400, "Could not encrypt data. Try again."));
    assert_eq!(
        upload_insert_failed(),
        failure(400, "Could not insert information to database. Try again")
    );
}

#[test]
fn successes() {
    let (status, plain) = upload_succeeded("127.0.0.1:8080", &"Ab3dE6g8".to_string(), None);
    assert_eq!(status, 200);
    assert_eq!(
        plain,
        UploadResponse {
            short_path: Some("Ab3dE6g8".to_string()),
            error: None,
            full_url: Some("http://127.0.0.1:8080/Ab3dE6g8".to_string()),
            aes_key: None,
        }
    );
    let (status, enc) = upload_succeeded("host", &"x".to_string(), Some("KEY".to_string()));
    assert_eq!(status, 200);
    assert_eq!(enc.full_url, Some("http://host/x/KEY".to_string()));
    assert_eq!(enc.aes_key, Some("KEY".to_string()));
}

#[test]
fn plans() {
    let plan = plan_upload("movie.mkv".to_string(), "/data/".to_string(), true);
    assert_eq!(plan.file_name, "movie.mkv");
    assert!(plan.new_filename.ends_with(".mkv"));
    assert_eq!(plan.new_filename.len(), 36 + 4);
    assert_eq!(plan.short_path.len(), 8);
    assert_eq!(plan.file_path, format!("/data/{}", plan.new_filename));
    assert!(plan.encrypted);
}

#[test]
fn sealed_uploads_read_back_with_their_key_text() {
    let data = b"the uploaded file".to_vec();
    let sealed = seal_upload(&data);
    assert_eq!(sealed.data.len(), 32);
    let key = convert_base64_to_aes(sealed.key_text.clone()).unwrap();
    assert_eq!(key, sealed.key);
    assert_eq!(decrypt_data(&sealed.data, key), data);
}
