use trustybox::content_type::check_content_type;
use trustybox::file_type::{FileFullData, FileMainData};
use trustybox::uuid_name::{generate_uuid_v4, new_file_name};

fn is_v4_text(s: &str) -> bool {
    let b: Vec<char> = s.chars().collect();
    b.len() == 36
        && b.iter().enumerate().all(|(i, c)| {
            if [8, 13, 18, 23].contains(&i) {
                *c == '-'
            } else {
                c.is_ascii_digit() || ('a'..='f').contains(c)
            }
        })
        && b[14] == '4'
        && ['8', '9', 'a', 'b'].contains(&b[19])
}

#[test]
fn uuids_are_hyphenated_version_4() {
    for _ in 0..20 {
        assert!(is_v4_text(&generate_uuid_v4()));
    }
    assert_ne!(generate_uuid_v4(), generate_uuid_v4());
}

#[test]
fn stored_names_keep_the_extension() {
    assert_eq!(new_file_name("abc", "photo.png"), "abc.png");
    assert_eq!(new_file_name("abc", "x.tar.gz"), "abc.gz");
    assert_eq!(new_file_name("abc", "noext"), "abc.noext");
    assert_eq!(new_file_name("abc", "dot."), "abc.");
    let name = new_file_name(&generate_uuid_v4(), "clip.mp4");
    assert_eq!(check_content_type(&name), "video/mp4");
}

#[test]
fn main_data_keeps_what_it_is_given() {
    let main = FileMainData::new("a.txt".to_string(), Some(b"1234".to_vec()));
    assert_eq!(main.name, "a.txt");
    assert_eq!(main.content_length, Some(b"1234".to_vec()));
}

#[test]
fn full_data_of_an_upload() {
    let data = FileFullData::new("notes.txt".to_string(), Some(b"10240".to_vec()), "/srv/files/".to_string());
    assert_eq!(data.main_data.name, "notes.txt");
    // The length recorded is that of the header's text, not the number it holds.
    assert_eq!(data.len, 5);
    assert_eq!(data.new_name.len(), 36 + 4);
    assert!(is_v4_text(&data.new_name[..36]));
    assert!(data.new_name.ends_with(".txt"));
    assert_eq!(data.file_path, format!("/srv/files/{}", data.new_name));

    let none = FileFullData::new("x".to_string(), None, String::new());
    assert_eq!(none.len, 0);
    assert!(none.new_name.ends_with(".x"));
    assert_eq!(none.file_path, none.new_name);
}

#[test]
fn set_helpers() {
    let main = FileMainData::new("a.b".to_string(), Some(vec![1, 2, 3]));
    assert_eq!(FileFullData::set_len(&main), 3);
    assert_eq!(FileFullData::set_path("dir/".to_string(), &"f.b".to_string()), "dir/f.b");
    assert!(FileFullData::set_new_name(&main).ends_with(".b"));
}
