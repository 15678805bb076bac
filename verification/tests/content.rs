use thumbstore::cache::{Action, Event};
use thumbstore::content::{fetched, get, ingest, ingested, place, put};
use thumbstore::fault::Fault;

fn looks_like_an_identity(text: &str) -> bool {
    text.len() == 36
        && text.chars().enumerate().all(|(i, c)| {
            if i == 8 || i == 13 || i == 18 || i == 23 {
                c == '-'
            } else {
                c.is_ascii_digit() || ('a'..='f').contains(&c)
            }
        })
}

#[test]
fn put_places_the_bytes_under_a_fresh_identity() {
    let upload = put("p1", vec![1, 2, 3]);
    assert!(looks_like_an_identity(&upload.identity));
    assert_eq!(upload.path, format!("upload_files/p1/{}.jpg", upload.identity));
    assert_eq!(upload.bytes, vec![1, 2, 3]);
    let other = put("p1", vec![1, 2, 3]);
    assert_ne!(upload.identity, other.identity);
}

#[test]
fn place_uses_the_identity_it_is_given() {
    let upload = place("p1", "abc".to_string(), vec![4, 5]);
    assert_eq!(upload.identity, "abc");
    assert_eq!(upload.path, "upload_files/p1/abc.jpg");
    assert_eq!(upload.bytes, vec![4, 5]);
}

#[test]
fn what_was_put_is_read_back() {
    let upload = put("p1", vec![7, 7, 7, 0]);
    let mut stored = std::collections::HashMap::new();
    stored.insert(upload.path.to_string(), upload.bytes.to_vec());
    let report = match get("p1", &upload.identity) {
        Action::LoadOriginal { path } => match stored.get(&path) {
            Some(bytes) => Event::Found { bytes: bytes.to_vec() },
            None => Event::Absent,
        },
        other => panic!("expected a read, got {:?}", other),
    };
    assert_eq!(fetched(report), Ok(vec![7, 7, 7, 0]));
}

#[test]
fn ingest_keeps_the_order_of_the_blobs() {
    let blobs = vec![vec![1], vec![2, 2], vec![], vec![4]];
    let uploads = ingest("p1", &blobs);
    assert_eq!(uploads.len(), 4);
    for i in 0..4 {
        assert_eq!(uploads[i].bytes, blobs[i]);
        assert!(looks_like_an_identity(&uploads[i].identity));
        assert_eq!(uploads[i].path, format!("upload_files/p1/{}.jpg", uploads[i].identity));
    }
    assert_ne!(uploads[0].identity, uploads[1].identity);
    assert!(ingest("p1", &Vec::new()).is_empty());
}

#[test]
fn an_upload_counts_only_as_a_whole() {
    let uploads = ingest("p1", &vec![vec![1], vec![2]]);
    let ids = vec![uploads[0].identity.to_string(), uploads[1].identity.to_string()];
    assert_eq!(ingested(&uploads, &vec![Event::Published, Event::Published]), Ok(ids));
    assert_eq!(
        ingested(&uploads, &vec![Event::Published, Event::Failed]),
        Err(Fault::StorageError)
    );
    assert_eq!(
        ingested(&uploads, &vec![Event::Failed, Event::Published]),
        Err(Fault::StorageError)
    );
    assert_eq!(ingested(&uploads, &vec![Event::Published]), Err(Fault::StorageError));
    assert_eq!(ingested(&Vec::new(), &Vec::new()), Ok(Vec::new()));
}

#[test]
fn get_names_the_original() {
    assert_eq!(get("p1", "abc"), Action::LoadOriginal { path: "upload_files/p1/abc.jpg".to_string() });
}

#[test]
fn fetched_tells_absence_from_failure() {
    assert_eq!(fetched(Event::Found { bytes: vec![1, 2] }), Ok(vec![1, 2]));
    assert_eq!(fetched(Event::Absent), Err(Fault::NotFound));
    assert_eq!(fetched(Event::Failed), Err(Fault::StorageError));
    assert_eq!(fetched(Event::Published), Err(Fault::StorageError));
}

#[test]
fn every_fault_has_a_message() {
    assert_eq!(Fault::NotFound.message(), "not found");
    assert_eq!(Fault::SourceMissing.message(), "source image missing");
    assert_eq!(Fault::DecodeError.message(), "stored data is malformed");
    assert_eq!(Fault::InvalidSize.message(), "width and height must be positive");
    assert_eq!(Fault::StorageError.message(), "storage failure");
}
