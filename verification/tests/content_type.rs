use trustybox::content_type::{check_content_type, content_type_of_extension, file_extension};

#[test]
fn extension_is_the_part_after_the_last_dot() {
    assert_eq!(file_extension("report.pdf"), "pdf");
    assert_eq!(file_extension("archive.tar.gz"), "gz");
    assert_eq!(file_extension("noext"), "noext");
    assert_eq!(file_extension("trailing."), "");
    assert_eq!(file_extension(".bashrc"), "bashrc");
    assert_eq!(file_extension(""), "");
    assert_eq!(file_extension("ünïcødé.wav"), "wav");
}

#[test]
fn known_extensions() {
    assert_eq!(check_content_type(&"index.html".to_string()), "text/html");
    assert_eq!(check_content_type(&"photo.jpg".to_string()), "image/jpeg");
    assert_eq!(check_content_type(&"photo.jpeg".to_string()), "image/jpeg");
    assert_eq!(check_content_type(&"song.mp3".to_string()), "audio/mpeg");
    assert_eq!(check_content_type(&"a.b.tar".to_string()), "application/x-tar");
    assert_eq!(
        check_content_type(&"sheet.xlsx".to_string()),
        "application/vnd.openxmlformats-officedocument.spreadsheetml.sheet"
    );
    assert_eq!(check_content_type(&"setup.msi".to_string()), "application/x-msdownload");
    assert_eq!(check_content_type(&"app.apk".to_string()), "application/vnd.android.package-archive");
    assert_eq!(content_type_of_extension("svg"), "image/svg+xml");
    assert_eq!(content_type_of_extension("7z"), "application/x-7z-compressed");
}

#[test]
fn a_name_without_a_dot_is_its_own_extension() {
    assert_eq!(check_content_type(&"json".to_string()), "application/json");
    assert_eq!(check_content_type(&"README".to_string()), "application/octet-stream");
}

#[test]
fn unknown_extensions_are_octet_streams() {
    assert_eq!(check_content_type(&"data.bin".to_string()), "application/octet-stream");
    assert_eq!(check_content_type(&"PHOTO.JPG".to_string()), "application/octet-stream");
    assert_eq!(check_content_type(&"file.".to_string()), "application/octet-stream");
    assert_eq!(check_content_type(&String::new()), "application/octet-stream");
}
