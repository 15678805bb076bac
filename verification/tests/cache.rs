use std::collections::HashMap;
use thumbstore::cache::{Action, Event, Phase, Request};
use thumbstore::fault::Fault;

fn sample_png(width: u32, height: u32) -> Vec<u8> {
    let img = image::RgbImage::from_fn(width, height, |x, y| {
        image::Rgb([(x * 5) as u8, (y * 3) as u8, 90])
    });
    let mut out = std::io::Cursor::new(Vec::new());
    image::DynamicImage::ImageRgb8(img)
        .write_to(&mut out, image::ImageFormat::Png)
        .unwrap();
    out.into_inner()
}

fn carry_out(stored: &mut HashMap<String, Vec<u8>>, action: &Action) -> Event {
    match action {
        Action::Lookup { path } | Action::LoadOriginal { path } => match stored.get(path) {
            Some(bytes) => Event::Found { bytes: bytes.to_vec() },
            None => Event::Absent,
        },
        Action::Publish { staging, target, bytes } => {
            assert_ne!(staging, target);
            stored.insert(target.to_string(), bytes.to_vec());
            Event::Published
        }
        Action::Done { .. } => Event::Failed,
    }
}

fn get_or_create(
    stored: &mut HashMap<String, Vec<u8>>,
    project: &str,
    identity: &str,
    width: u32,
    height: u32,
) -> Result<Vec<u8>, Fault> {
    let (mut req, mut action) =
        Request::begin(project.to_string(), identity.to_string(), width, height);
    loop {
        if let Action::Done { result } = action {
            assert_eq!(req.phase, Phase::Finished);
            return result;
        }
        let event = carry_out(stored, &action);
        action = req.advance(event);
    }
}

#[test]
fn a_zero_side_is_refused_before_anything_is_asked() {
    let (req, action) = Request::begin("p".to_string(), "id".to_string(), 0, 10);
    assert_eq!(action, Action::Done { result: Err(Fault::InvalidSize) });
    assert_eq!(req.phase, Phase::Finished);
    let (_, action) = Request::begin("p".to_string(), "id".to_string(), 10, 0);
    assert_eq!(action, Action::Done { result: Err(Fault::InvalidSize) });
    let mut stored = HashMap::new();
    stored.insert("upload_files/p/id.jpg".to_string(), sample_png(8, 8));
    assert_eq!(get_or_create(&mut stored, "p", "id", 0, 10), Err(Fault::InvalidSize));
    assert_eq!(stored.len(), 1);
}

#[test]
fn a_request_starts_with_a_lookup_of_the_derivative() {
    let (req, action) = Request::begin("p".to_string(), "id".to_string(), 64, 48);
    assert_eq!(action, Action::Lookup { path: "upload_thumbs/p/id-64x48".to_string() });
    assert_eq!(req.phase, Phase::Looking);
    assert!(req.rendered.is_empty());
}

#[test]
fn a_miss_renders_publishes_and_returns_the_encoding() {
    let (mut req, _) = Request::begin("p".to_string(), "id".to_string(), 6, 4);
    let load = req.advance(Event::Absent);
    assert_eq!(load, Action::LoadOriginal { path: "upload_files/p/id.jpg".to_string() });
    assert_eq!(req.phase, Phase::Loading);
    let publish = req.advance(Event::Found { bytes: sample_png(30, 20) });
    assert_eq!(req.phase, Phase::Publishing);
    let published = match publish {
        Action::Publish { staging, target, bytes } => {
            assert_eq!(target, "upload_thumbs/p/id-6x4");
            assert!(staging.starts_with("upload_thumbs/"));
            assert!(staging.ends_with(".jpg"));
            assert_eq!(staging.len(), "upload_thumbs/".len() + 36 + 4);
            assert_ne!(staging, target);
            bytes
        }
        other => panic!("expected a publish, got {:?}", other),
    };
    assert!(!published.is_empty());
    let img = image::load_from_memory(&published).unwrap();
    assert_eq!((img.width(), img.height()), (6, 4));
    let done = req.advance(Event::Published);
    assert_eq!(done, Action::Done { result: Ok(published) });
    assert_eq!(req.phase, Phase::Finished);
}

#[test]
fn a_second_request_returns_what_the_first_published() {
    let mut stored = HashMap::new();
    stored.insert("upload_files/p/id.jpg".to_string(), sample_png(30, 20));
    let first = get_or_create(&mut stored, "p", "id", 10, 5).unwrap();
    assert_eq!(stored.get("upload_thumbs/p/id-10x5"), Some(&first));
    stored.insert("upload_files/p/id.jpg".to_string(), b"broken".to_vec());
    let second = get_or_create(&mut stored, "p", "id", 10, 5).unwrap();
    assert_eq!(first, second);
    stored.remove("upload_files/p/id.jpg");
    let third = get_or_create(&mut stored, "p", "id", 10, 5).unwrap();
    assert_eq!(first, third);
}

#[test]
fn a_hit_returns_the_stored_bytes_as_they_are() {
    let (mut req, _) = Request::begin("p".to_string(), "id".to_string(), 6, 4);
    let done = req.advance(Event::Found { bytes: vec![1, 2, 3] });
    assert_eq!(done, Action::Done { result: Ok(vec![1, 2, 3]) });
    assert_eq!(req.phase, Phase::Finished);
}

#[test]
fn a_missing_original_is_source_missing() {
    let mut stored = HashMap::new();
    assert_eq!(get_or_create(&mut stored, "p", "nobody", 10, 5), Err(Fault::SourceMissing));
    assert!(stored.is_empty());
}

#[test]
fn an_original_that_is_no_image_is_a_decode_error() {
    let mut stored = HashMap::new();
    stored.insert("upload_files/p/id.jpg".to_string(), b"not an image".to_vec());
    assert_eq!(get_or_create(&mut stored, "p", "id", 10, 5), Err(Fault::DecodeError));
    assert_eq!(stored.len(), 1);
}

#[test]
fn a_failed_read_or_write_is_a_storage_error() {
    let (mut req, _) = Request::begin("p".to_string(), "id".to_string(), 6, 4);
    assert_eq!(req.advance(Event::Failed), Action::Done { result: Err(Fault::StorageError) });

    let (mut req, _) = Request::begin("p".to_string(), "id".to_string(), 6, 4);
    req.advance(Event::Absent);
    assert_eq!(req.advance(Event::Failed), Action::Done { result: Err(Fault::StorageError) });

    let (mut req, _) = Request::begin("p".to_string(), "id".to_string(), 6, 4);
    req.advance(Event::Absent);
    req.advance(Event::Found { bytes: sample_png(8, 8) });
    assert_eq!(req.advance(Event::Failed), Action::Done { result: Err(Fault::StorageError) });
    assert_eq!(req.phase, Phase::Finished);
}

#[test]
fn a_report_that_answers_nothing_ends_the_request() {
    let (mut req, _) = Request::begin("p".to_string(), "id".to_string(), 6, 4);
    assert_eq!(req.advance(Event::Published), Action::Done { result: Err(Fault::StorageError) });
    assert_eq!(req.advance(Event::Absent), Action::Done { result: Err(Fault::StorageError) });
    assert_eq!(req.phase, Phase::Finished);
}

#[test]
fn publish_keeps_the_encoding_and_names_the_staging_file() {
    let (mut req, _) = Request::begin("p".to_string(), "id".to_string(), 6, 4);
    req.advance(Event::Absent);
    let action = req.publish(Ok(vec![9, 8, 7]), "tok");
    assert_eq!(
        action,
        Action::Publish {
            staging: "upload_thumbs/tok.jpg".to_string(),
            target: "upload_thumbs/p/id-6x4".to_string(),
            bytes: vec![9, 8, 7],
        }
    );
    assert_eq!(req.rendered, vec![9, 8, 7]);
    assert_eq!(req.phase, Phase::Publishing);

    let (mut req, _) = Request::begin("p".to_string(), "id".to_string(), 6, 4);
    req.advance(Event::Absent);
    let action = req.publish(Err(Fault::DecodeError), "tok");
    assert_eq!(action, Action::Done { result: Err(Fault::DecodeError) });
    assert_eq!(req.phase, Phase::Finished);
}

#[test]
fn two_requests_for_one_key_both_get_whole_encodings() {
    let mut stored = HashMap::new();
    stored.insert("upload_files/p/id.jpg".to_string(), sample_png(30, 20));
    let (mut a, look_a) = Request::begin("p".to_string(), "id".to_string(), 10, 5);
    let (mut b, look_b) = Request::begin("p".to_string(), "id".to_string(), 10, 5);
    let ev_a = carry_out(&mut stored, &look_a);
    let ev_b = carry_out(&mut stored, &look_b);
    let load_a = a.advance(ev_a);
    let load_b = b.advance(ev_b);
    let ev_a = carry_out(&mut stored, &load_a);
    let ev_b = carry_out(&mut stored, &load_b);
    let pub_a = a.advance(ev_a);
    let pub_b = b.advance(ev_b);
    if let (Action::Publish { staging: sa, .. }, Action::Publish { staging: sb, .. }) =
        (&pub_a, &pub_b)
    {
        assert_ne!(sa, sb);
    } else {
        panic!("both requests should publish");
    }
    let ev_a = carry_out(&mut stored, &pub_a);
    let ev_b = carry_out(&mut stored, &pub_b);
    let done_a = a.advance(ev_a);
    let done_b = b.advance(ev_b);
    for done in [done_a, done_b] {
        match done {
            Action::Done { result: Ok(bytes) } => {
                let img = image::load_from_memory(&bytes).unwrap();
                assert_eq!((img.width(), img.height()), (10, 5));
            }
            other => panic!("expected bytes, got {:?}", other),
        }
    }
    let kept = stored.get("upload_thumbs/p/id-10x5").unwrap();
    assert!(image::load_from_memory(kept).is_ok());
}
