use trustybox::short_url::{CHARS, NUMBERS};
use trustybox::store::{
    stored_file_from_document, FileRecord, LookupError, StoreJob, StoreStep, StoredDocument,
    StoredFile,
};

fn record() -> FileRecord {
    FileRecord {
        path: "/srv/files/u.txt".to_string(),
        first_name: "notes.txt".to_string(),
        new_filename: "u.txt".to_string(),
        short_url: "abcd1234".to_string(),
        is_aes: true,
    }
}

fn is_short(s: &str) -> bool {
    s.chars().count() == 8 && s.chars().all(|c| CHARS.contains(&c) || NUMBERS.contains(&c))
}

#[test]
fn a_free_short_path_is_kept() {
    let job = match StoreJob::start(record()) {
        StoreStep::Find(job, u) => {
            assert_eq!(u, "abcd1234");
            job
        }
        StoreStep::Insert(_) => panic!("the short path is asked about first"),
    };
    match job.on_lookup(false) {
        StoreStep::Insert(r) => assert_eq!(r, record()),
        StoreStep::Find(..) => panic!("a free path is inserted"),
    }
}

#[test]
fn a_taken_short_path_is_replaced_once() {
    let job = match StoreJob::start(record()) {
        StoreStep::Find(job, _) => job,
        StoreStep::Insert(_) => panic!(),
    };
    assert!(!job.is_replaced());
    let (job, first_fresh) = match job.on_lookup(true) {
        StoreStep::Find(job, u) => (job, u),
        StoreStep::Insert(_) => panic!("a taken path is not inserted"),
    };
    assert!(job.is_replaced());
    assert!(is_short(&first_fresh));
    assert_eq!(job.current_record().short_url, first_fresh);
    // Later answers ask about fresher paths but keep the first replacement.
    let (job, second) = match job.on_lookup(true) {
        StoreStep::Find(job, u) => (job, u),
        StoreStep::Insert(_) => panic!(),
    };
    assert!(is_short(&second));
    assert_eq!(job.current_record().short_url, first_fresh);
    match job.on_lookup(false) {
        StoreStep::Insert(r) => {
            let mut expected = record();
            expected.short_url = first_fresh;
            assert_eq!(r, expected);
        }
        StoreStep::Find(..) => panic!(),
    }
}

#[test]
fn lookups_by_short_path() {
    assert_eq!(stored_file_from_document(None), Err(LookupError::NotFound));
    assert_eq!(LookupError::NotFound.message(), "FILE not found or URL doesn't exist");
    let doc = StoredDocument {
        path: Some("/srv/files/u.txt".to_string()),
        first_name: Some("notes.txt".to_string()),
        is_aes: Some(false),
    };
    assert_eq!(
        stored_file_from_document(Some(doc)),
        Ok(StoredFile { path: "/srv/files/u.txt".to_string(), first_name: "notes.txt".to_string(), is_aes: false })
    );
}
