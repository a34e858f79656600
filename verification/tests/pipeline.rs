use image::ImageEncoder;
use image_processor::batch::process_batch;
use image_processor::batch::BatchReport;
use image_processor::batch::BatchStep;
use image_processor::codec::decode;
use image_processor::codec::ConversionError;
use image_processor::codec::DecodeError;
use image_processor::codec::EncodeError;
use image_processor::codec::EncodedPng;
use image_processor::config::Config;
use image_processor::record::begin;
use image_processor::record::FetchRequest;
use image_processor::record::NotificationRecord;
use image_processor::record::Outcome;
use image_processor::record::PendingFetch;
use image_processor::record::Skip;
use image_processor::record::Step;
use image_processor::record::StoreRequest;

const PNG_SIGNATURE: [u8; 8] = [0x89, b'P', b'N', b'G', 0x0d, 0x0a, 0x1a, 0x0a];

fn config() -> Config {
    Config::from_settings(
        Some("wiki".to_string()),
        Some("uploads".to_string()),
        Some("ap-northeast-1".to_string()),
        Some("true".to_string()),
    )
}

fn record(bucket: Option<&str>, key: Option<&str>) -> NotificationRecord {
    NotificationRecord { bucket: bucket.map(str::to_string), key: key.map(str::to_string) }
}

fn jpeg(width: u32, height: u32) -> Vec<u8> {
    let mut pixels = Vec::new();
    for y in 0..height {
        for x in 0..width {
            pixels.push((x * 20 % 256) as u8);
            pixels.push((y * 20 % 256) as u8);
            pixels.push(90);
        }
    }
    let mut bytes = Vec::new();
    image::codecs::jpeg::JpegEncoder::new(&mut bytes)
        .write_image(&pixels, width, height, image::ExtendedColorType::Rgb8)
        .unwrap();
    bytes
}

fn pending(key: &str) -> PendingFetch {
    match begin(&config(), &record(Some("named"), Some(key))) {
        Step::Fetch(pending) => pending,
        other => panic!("expected a fetch, got {:?}", other),
    }
}

struct Storage {
    objects: Vec<(String, Vec<u8>)>,
    refuse_store_of: Vec<String>,
    fetches: Vec<FetchRequest>,
    stores: Vec<StoreRequest>,
}

impl Storage {
    fn with(objects: Vec<(&str, Vec<u8>)>) -> Storage {
        Storage {
            objects: objects.into_iter().map(|(key, bytes)| (key.to_string(), bytes)).collect(),
            refuse_store_of: Vec::new(),
            fetches: Vec::new(),
            stores: Vec::new(),
        }
    }

    fn fetch(&mut self, request: &FetchRequest) -> Result<Vec<u8>, String> {
        self.fetches.push(request.clone());
        for (key, bytes) in &self.objects {
            if *key == request.key && request.bucket == "uploads" {
                return Ok(bytes.clone());
            }
        }
        Err(format!("no such key: {}", request.key))
    }

    fn store(&mut self, request: &StoreRequest) -> Result<(), String> {
        self.stores.push(request.clone());
        if self.refuse_store_of.contains(&request.key) {
            return Err(format!("access denied: {}", request.key));
        }
        Ok(())
    }

    fn run(&mut self, config: Config, records: Vec<NotificationRecord>) -> BatchReport {
        let mut step = process_batch(config, records);
        loop {
            step = match step {
                BatchStep::Fetch(stage) => {
                    let fetched = self.fetch(stage.request());
                    stage.resume(fetched)
                }
                BatchStep::Store(stage) => {
                    let stored = self.store(stage.request());
                    stage.resume(stored)
                }
                BatchStep::Finished(report) => return report,
            };
        }
    }
}

#[test]
fn record_without_bucket_is_skipped_at_once() {
    let step = begin(&config(), &record(None, Some("a/b")));
    assert!(matches!(step, Step::Done(Outcome::Skipped(Skip::MissingField))));
}

#[test]
fn record_without_key_is_skipped_at_once() {
    let step = begin(&config(), &record(Some("named"), None));
    assert!(matches!(step, Step::Done(Outcome::Skipped(Skip::MissingField))));
    let step = begin(&config(), &record(None, None));
    assert!(matches!(step, Step::Done(Outcome::Skipped(Skip::MissingField))));
}

#[test]
fn fetch_goes_to_the_source_bucket_not_to_the_named_one() {
    let pending = pending("user42/a1b2c3");
    assert_eq!(pending.request().bucket, "uploads");
    assert_eq!(pending.request().key, "user42/a1b2c3");
    assert_eq!(pending.named_bucket(), "named");
}

#[test]
fn failed_fetch_skips_the_record() {
    match pending("a/b").resume(Err("timed out".to_string())) {
        Step::Done(Outcome::Skipped(Skip::Fetch { message })) => assert_eq!(message, "timed out"),
        other => panic!("expected a skip, got {:?}", other),
    }
}

#[test]
fn object_that_is_no_image_skips_the_record() {
    match pending("a/b").resume(Ok(b"plain text".to_vec())) {
        Step::Done(Outcome::Skipped(Skip::Decode(error))) => assert!(!error.message.is_empty()),
        other => panic!("expected a skip, got {:?}", other),
    }
}

#[test]
fn failed_conversion_is_reported_by_its_kind() {
    let undecodable = ConversionError::Decode(DecodeError { message: "bad header".to_string() });
    match pending("a/b").resume_converted(Err(undecodable)) {
        Step::Done(Outcome::Skipped(Skip::Decode(error))) => {
            assert_eq!(error.message, "bad header")
        }
        other => panic!("expected a skip, got {:?}", other),
    }
    let misfit = ConversionError::Encode(EncodeError::InconsistentDimensions);
    assert!(matches!(
        pending("a/b").resume_converted(Err(misfit)),
        Step::Done(Outcome::Skipped(Skip::Encode(EncodeError::InconsistentDimensions)))
    ));
    let fault = ConversionError::Encode(EncodeError::Encoder { message: "disk".to_string() });
    assert!(matches!(
        pending("a/b").resume_converted(Err(fault)),
        Step::Done(Outcome::Skipped(Skip::Encode(EncodeError::Encoder { .. })))
    ));
}

#[test]
fn converted_object_is_stored_with_the_fixed_metadata() {
    let png = EncodedPng { width: 7, height: 9, bytes: vec![1, 2, 3] };
    let storing = match pending("tenant/object").resume_converted(Ok(png)) {
        Step::Store(storing) => storing,
        other => panic!("expected a store, got {:?}", other),
    };
    assert_eq!(storing.request().bucket, "wiki");
    assert_eq!(storing.request().key, "tenant/images/object");
    assert_eq!(storing.request().body, vec![1, 2, 3]);
    assert_eq!(storing.request().content_type, "image/png");
    assert_eq!(storing.request().cache_control, "public, max-age=31536000");
    assert_eq!((storing.width(), storing.height()), (7, 9));
}

#[test]
fn successful_store_ends_in_success() {
    let png = EncodedPng { width: 7, height: 9, bytes: vec![1, 2, 3] };
    let storing = match pending("flat").resume_converted(Ok(png)) {
        Step::Store(storing) => storing,
        other => panic!("expected a store, got {:?}", other),
    };
    match storing.resume(Ok(())) {
        Outcome::Succeeded { destination_key, width, height } => {
            assert_eq!(destination_key, "images/flat");
            assert_eq!((width, height), (7, 9));
        }
        other => panic!("expected success, got {:?}", other),
    }
}

#[test]
fn failed_store_skips_the_record() {
    let png = EncodedPng { width: 1, height: 1, bytes: vec![0] };
    let storing = match pending("a/b").resume_converted(Ok(png)) {
        Step::Store(storing) => storing,
        other => panic!("expected a store, got {:?}", other),
    };
    match storing.resume(Err("bucket is gone".to_string())) {
        Outcome::Skipped(Skip::Store { message }) => assert_eq!(message, "bucket is gone"),
        other => panic!("expected a skip, got {:?}", other),
    }
}

#[test]
fn jpeg_of_ten_by_ten_under_a_two_segment_key_is_stored_as_png() {
    let mut storage = Storage::with(vec![("user42/a1b2c3", jpeg(10, 10))]);
    let report = storage.run(config(), vec![record(Some("named"), Some("user42/a1b2c3"))]);
    assert_eq!(report.outcomes.len(), 1);
    match &report.outcomes[0] {
        Outcome::Succeeded { destination_key, width, height } => {
            assert_eq!(destination_key, "user42/images/a1b2c3");
            assert_eq!((*width, *height), (10, 10));
        }
        other => panic!("expected success, got {:?}", other),
    }
    assert_eq!(storage.fetches.len(), 1);
    assert_eq!(storage.fetches[0].bucket, "uploads");
    assert_eq!(storage.fetches[0].key, "user42/a1b2c3");
    assert_eq!(storage.stores.len(), 1);
    let stored = &storage.stores[0];
    assert_eq!(stored.bucket, "wiki");
    assert_eq!(stored.key, "user42/images/a1b2c3");
    assert_eq!(stored.content_type, "image/png");
    assert_eq!(stored.cache_control, "public, max-age=31536000");
    assert_eq!(stored.body[..8], PNG_SIGNATURE);
    let decoded = decode(&stored.body).unwrap();
    assert_eq!((decoded.width, decoded.height), (10, 10));
    assert_eq!(decoded.pixels, decode(&jpeg(10, 10)).unwrap().pixels);
}

#[test]
fn batch_goes_on_after_a_record_that_does_not_decode() {
    let mut storage =
        Storage::with(vec![("bad/one", b"not an image".to_vec()), ("good/one", jpeg(4, 6))]);
    let records = vec![record(Some("b"), Some("bad/one")), record(Some("b"), Some("good/one"))];
    let report = storage.run(config(), records);
    assert_eq!(report.outcomes.len(), 2);
    assert!(matches!(report.outcomes[0], Outcome::Skipped(Skip::Decode(_))));
    assert!(matches!(report.outcomes[1], Outcome::Succeeded { .. }));
    assert_eq!(storage.fetches.len(), 2);
    assert_eq!(storage.stores.len(), 1);
    assert_eq!(storage.stores[0].key, "good/images/one");
}

#[test]
fn records_with_a_missing_field_ask_storage_for_nothing() {
    let mut storage = Storage::with(vec![("a/b", jpeg(2, 2))]);
    let records = vec![record(None, Some("a/b")), record(Some("b"), None), record(None, None)];
    let report = storage.run(config(), records);
    assert_eq!(report.outcomes.len(), 3);
    for outcome in &report.outcomes {
        assert!(matches!(outcome, Outcome::Skipped(Skip::MissingField)));
    }
    assert!(storage.fetches.is_empty());
    assert!(storage.stores.is_empty());
}

#[test]
fn batch_of_incomplete_records_is_finished_at_once() {
    let records = vec![record(None, Some("a/b")), record(Some("b"), None)];
    match process_batch(config(), records) {
        BatchStep::Finished(report) => assert_eq!(report.outcomes.len(), 2),
        other => panic!("expected the report, got {:?}", other),
    }
}

#[test]
fn empty_batch_is_finished_at_once() {
    match process_batch(config(), Vec::new()) {
        BatchStep::Finished(report) => assert!(report.outcomes.is_empty()),
        other => panic!("expected the report, got {:?}", other),
    }
}

#[test]
fn every_record_gets_its_outcome_in_the_order_given() {
    let mut storage = Storage::with(vec![
        ("t/first", jpeg(3, 3)),
        ("garbage", vec![1, 2, 3]),
        ("refused", jpeg(2, 5)),
        ("t/last", jpeg(8, 1)),
    ]);
    storage.refuse_store_of.push("images/refused".to_string());
    let records = vec![
        record(Some("b"), Some("t/first")),
        record(None, Some("t/first")),
        record(Some("b"), Some("missing")),
        record(Some("b"), Some("garbage")),
        record(Some("b"), Some("refused")),
        record(Some("b"), Some("t/last")),
    ];
    let report = storage.run(config(), records);
    assert_eq!(report.outcomes.len(), 6);
    match &report.outcomes[0] {
        Outcome::Succeeded { destination_key, width, height } => {
            assert_eq!(destination_key, "t/images/first");
            assert_eq!((*width, *height), (3, 3));
        }
        other => panic!("expected success, got {:?}", other),
    }
    assert!(matches!(report.outcomes[1], Outcome::Skipped(Skip::MissingField)));
    match &report.outcomes[2] {
        Outcome::Skipped(Skip::Fetch { message }) => assert_eq!(message, "no such key: missing"),
        other => panic!("expected a skip, got {:?}", other),
    }
    assert!(matches!(report.outcomes[3], Outcome::Skipped(Skip::Decode(_))));
    match &report.outcomes[4] {
        Outcome::Skipped(Skip::Store { message }) => {
            assert_eq!(message, "access denied: images/refused")
        }
        other => panic!("expected a skip, got {:?}", other),
    }
    match &report.outcomes[5] {
        Outcome::Succeeded { destination_key, width, height } => {
            assert_eq!(destination_key, "t/images/last");
            assert_eq!((*width, *height), (8, 1));
        }
        other => panic!("expected success, got {:?}", other),
    }
    let fetched: Vec<&str> = storage.fetches.iter().map(|request| request.key.as_str()).collect();
    assert_eq!(fetched, vec!["t/first", "missing", "garbage", "refused", "t/last"]);
    let stored: Vec<&str> = storage.stores.iter().map(|request| request.key.as_str()).collect();
    assert_eq!(stored, vec!["t/images/first", "images/refused", "t/images/last"]);
}

#[test]
fn stages_show_the_outcomes_so_far() {
    let records = vec![record(None, None), record(Some("named"), Some("a/b"))];
    let stage = match process_batch(config(), records) {
        BatchStep::Fetch(stage) => stage,
        other => panic!("expected a fetch, got {:?}", other),
    };
    assert_eq!(stage.outcomes().len(), 1);
    assert!(matches!(stage.outcomes()[0], Outcome::Skipped(Skip::MissingField)));
    assert_eq!(stage.named_bucket(), "named");
    assert_eq!(stage.request().key, "a/b");
    let stage = match stage.resume(Ok(jpeg(2, 3))) {
        BatchStep::Store(stage) => stage,
        other => panic!("expected a store, got {:?}", other),
    };
    assert_eq!(stage.outcomes().len(), 1);
    assert_eq!((stage.width(), stage.height()), (2, 3));
    match stage.resume(Ok(())) {
        BatchStep::Finished(report) => assert_eq!(report.outcomes.len(), 2),
        other => panic!("expected the report, got {:?}", other),
    }
}

#[test]
fn handling_the_same_record_twice_stores_the_same_thing() {
    let mut first = Storage::with(vec![("user/pic", jpeg(6, 6))]);
    let mut second = Storage::with(vec![("user/pic", jpeg(6, 6))]);
    first.run(config(), vec![record(Some("one"), Some("user/pic"))]);
    second.run(config(), vec![record(Some("another"), Some("user/pic"))]);
    assert_eq!(first.stores.len(), 1);
    assert_eq!(second.stores.len(), 1);
    assert_eq!(first.stores[0].key, second.stores[0].key);
    assert_eq!(first.stores[0].body, second.stores[0].body);
    assert_eq!(first.stores[0].bucket, second.stores[0].bucket);
}

#[test]
fn unset_buckets_are_asked_for_by_their_placeholder() {
    let unset = Config::from_settings(None, None, None, None);
    let stage = match process_batch(unset, vec![record(Some("b"), Some("k"))]) {
        BatchStep::Fetch(stage) => stage,
        other => panic!("expected a fetch, got {:?}", other),
    };
    assert_eq!(stage.request().bucket, "(not set)");
    let stage = match stage.resume(Ok(jpeg(1, 1))) {
        BatchStep::Store(stage) => stage,
        other => panic!("expected a store, got {:?}", other),
    };
    assert_eq!(stage.request().bucket, "(not set)");
    assert_eq!(stage.request().key, "images/k");
}

fn red_pixel_bmp() -> Vec<u8> {
    vec![
        0x42, 0x4d, 0x3a, 0x00, 0x00, 0x00, 0x00, 0x00, 0x00, 0x00, 0x36, 0x00, 0x00, 0x00, 0x28,
        0x00, 0x00, 0x00, 0x01, 0x00, 0x00, 0x00, 0x01, 0x00, 0x00, 0x00, 0x01, 0x00, 0x18, 0x00,
        0x00, 0x00, 0x00, 0x00, 0x04, 0x00, 0x00, 0x00, 0x00, 0x00, 0x00, 0x00, 0x00, 0x00, 0x00,
        0x00, 0x00, 0x00, 0x00, 0x00, 0x00, 0x00, 0x00, 0x00, 0x00, 0x00, 0xff, 0x00,
    ]
}

#[test]
fn key_with_an_empty_second_segment_is_stored_under_images_whole() {
    let settings =
        Config::from_settings(Some("d".to_string()), Some("s".to_string()), None, None);
    let stage = match process_batch(settings, vec![record(Some("s"), Some("a/"))]) {
        BatchStep::Fetch(stage) => stage,
        other => panic!("expected a fetch, got {:?}", other),
    };
    assert_eq!(stage.request().bucket, "s");
    assert_eq!(stage.request().key, "a/");
    let stage = match stage.resume(Ok(red_pixel_bmp())) {
        BatchStep::Store(stage) => stage,
        other => panic!("expected a store, got {:?}", other),
    };
    assert_eq!(stage.request().bucket, "d");
    assert_eq!(stage.request().key, "images/a/");
    assert_eq!((stage.width(), stage.height()), (1, 1));
    let decoded = decode(&stage.request().body).unwrap();
    assert_eq!(decoded.pixels, vec![255, 0, 0, 255]);
    match stage.resume(Ok(())) {
        BatchStep::Finished(report) => {
            assert_eq!(report.outcomes.len(), 1);
            match &report.outcomes[0] {
                Outcome::Succeeded { destination_key, .. } => {
                    assert_eq!(destination_key, "images/a/")
                }
                other => panic!("expected success, got {:?}", other),
            }
        }
        other => panic!("expected the report, got {:?}", other),
    }
}

#[test]
fn key_with_an_empty_first_segment_is_stored_under_images_whole() {
    let mut storage = Storage::with(vec![("/b", red_pixel_bmp())]);
    let report = storage.run(config(), vec![record(Some("named"), Some("/b"))]);
    assert!(matches!(report.outcomes[0], Outcome::Succeeded { .. }));
    assert_eq!(storage.stores.len(), 1);
    assert_eq!(storage.stores[0].key, "images//b");
}
