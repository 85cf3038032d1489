use timegated::http::{answer, answer_rejection, BodyRejection, HttpReply};
use timegated::locator::{blob_file_name, public_locator};
use timegated::media::{
    declares_image, inspect, looks_like_image, read_declared, screen, starts_with, UploadError,
    MAX_UPLOAD_BYTES,
};
use timegated::record::PhotoRecord;
use timegated::retry::{RetryPolicy, Verdict};

#[test]
fn standard_policy_is_three_attempts_ten_milliseconds_apart() {
    let policy = RetryPolicy::standard();
    assert_eq!(policy, RetryPolicy { retries: 2, delay_ms: 10 });
    assert_eq!(policy.pause_before(0), 0);
    assert_eq!(policy.pause_before(1), 10);
    assert_eq!(policy.pause_before(2), 10);
}

#[test]
fn first_success_ends_the_call() {
    let policy = RetryPolicy::standard();
    assert_eq!(policy.judge(0, true), Verdict::Succeeded);
    assert_eq!(policy.judge(2, true), Verdict::Succeeded);
}

#[test]
fn failures_are_repeated_until_the_budget_is_spent() {
    let policy = RetryPolicy { retries: 2, delay_ms: 25 };
    assert_eq!(policy.judge(0, false), Verdict::RetryAfter { delay_ms: 25 });
    assert_eq!(policy.judge(1, false), Verdict::RetryAfter { delay_ms: 25 });
    assert_eq!(policy.judge(2, false), Verdict::Exhausted);
    assert_eq!(policy.judge(u32::MAX, false), Verdict::Exhausted);
    let single = RetryPolicy { retries: 0, delay_ms: 25 };
    assert_eq!(single.judge(0, false), Verdict::Exhausted);
    let patient = RetryPolicy { retries: u32::MAX, delay_ms: 0 };
    assert_eq!(patient.judge(u32::MAX - 1, false), Verdict::RetryAfter { delay_ms: 0 });
    assert_eq!(patient.judge(u32::MAX, false), Verdict::Exhausted);
}

#[test]
fn uuid_is_written_hyphenated_in_lower_case() {
    assert_eq!(
        blob_file_name(0x936d_a01f_9abd_4d9d_80c7_02af_85c8_22a8),
        "936da01f-9abd-4d9d-80c7-02af85c822a8.jpeg"
    );
    assert_eq!(blob_file_name(0), "00000000-0000-0000-0000-000000000000.jpeg");
    assert_eq!(blob_file_name(u128::MAX), "ffffffff-ffff-ffff-ffff-ffffffffffff.jpeg");
    assert_eq!(
        blob_file_name(0x0123_4567_89ab_cdef_0123_4567_89ab_cdef),
        "01234567-89ab-cdef-0123-456789abcdef.jpeg"
    );
    assert_eq!(blob_file_name(1), "00000000-0000-0000-0000-000000000001.jpeg");
    assert_eq!(blob_file_name(1 << 127), "80000000-0000-0000-0000-000000000000.jpeg");
}

#[test]
fn locator_is_the_file_name_under_img() {
    assert_eq!(
        public_locator(0x936d_a01f_9abd_4d9d_80c7_02af_85c8_22a8),
        "/img/936da01f-9abd-4d9d-80c7-02af85c822a8.jpeg"
    );
    assert_eq!(public_locator(0), "/img/00000000-0000-0000-0000-000000000000.jpeg");
    assert_ne!(public_locator(1), public_locator(2));
    assert_eq!(public_locator(77), format!("/img/{}", blob_file_name(77)));
}

#[test]
fn prefix_test_is_exact() {
    assert!(starts_with("image/png", "image"));
    assert!(starts_with("image", "image"));
    assert!(starts_with("anything", ""));
    assert!(starts_with("", ""));
    assert!(!starts_with("imag", "image"));
    assert!(!starts_with("", "image"));
    assert!(!starts_with("Image/png", "image"));
    assert!(!starts_with("an image", "image"));
    assert!(starts_with("bildé/x", "bildé"));
    assert!(!starts_with("bilde/x", "bildé"));
}

#[test]
fn image_category_is_the_word_image() {
    assert!(declares_image("image"));
    assert!(!declares_image("images"));
    assert!(!declares_image("imag"));
    assert!(!declares_image("text"));
    assert!(!declares_image(""));
    assert!(!declares_image("IMAGE"));
}

#[test]
fn sniffed_type_counts_by_its_prefix() {
    assert!(looks_like_image("image/jpeg"));
    assert!(looks_like_image("image/svg+xml"));
    assert!(looks_like_image("image"));
    assert!(!looks_like_image("text/plain"));
    assert!(!looks_like_image("application/octet-stream"));
    assert!(!looks_like_image(""));
}

#[test]
fn declared_type_is_read_in_lower_case() {
    assert_eq!(read_declared(Some("image/jpeg")), Some("image".to_string()));
    assert_eq!(read_declared(Some("IMAGE/PNG")), Some("image".to_string()));
    assert_eq!(read_declared(Some("image/")), Some("image".to_string()));
    assert_eq!(read_declared(Some("text/plain; charset=utf-8")), Some("text".to_string()));
    assert_eq!(read_declared(Some("application/json")), Some("application".to_string()));
    assert_eq!(read_declared(Some("image")), None);
    assert_eq!(read_declared(Some("")), None);
    assert_eq!(read_declared(Some("/jpeg")), None);
    assert_eq!(read_declared(None), None);
}

#[test]
fn checks_run_in_order_and_the_first_failure_decides() {
    let over = MAX_UPLOAD_BYTES + 1;
    assert_eq!(screen(over, None, "text/plain"), Err(UploadError::PayloadTooLarge));
    assert_eq!(screen(over, Some("image"), "image/png"), Err(UploadError::PayloadTooLarge));
    assert_eq!(screen(10, None, "text/plain"), Err(UploadError::BadRequest));
    assert_eq!(screen(10, None, "image/png"), Err(UploadError::BadRequest));
    assert_eq!(screen(10, Some("text"), "image/png"), Err(UploadError::UnsupportedMediaType));
    assert_eq!(screen(10, Some("image"), "text/plain"), Err(UploadError::UnsupportedMediaType));
    assert_eq!(screen(10, Some("image"), "image/png"), Ok(()));
    assert_eq!(screen(0, Some("image"), "image/png"), Ok(()));
    assert_eq!(screen(MAX_UPLOAD_BYTES, Some("image"), "image/gif"), Ok(()));
}

#[test]
fn size_limit_is_twenty_five_mebibytes() {
    assert_eq!(MAX_UPLOAD_BYTES, 26_214_400);
}

#[test]
fn inspection_judges_size_and_declaration_itself() {
    let small = b"hello".to_vec();
    assert_eq!(inspect(&small, None), Err(UploadError::BadRequest));
    assert_eq!(inspect(&small, Some("nonsense")), Err(UploadError::BadRequest));
    assert_eq!(inspect(&small, Some("text/plain")), Err(UploadError::UnsupportedMediaType));
    assert_eq!(inspect(&small, Some("image/png")), Err(UploadError::UnsupportedMediaType));
    let large = vec![0u8; MAX_UPLOAD_BYTES + 1];
    assert_eq!(inspect(&large, Some("image/png")), Err(UploadError::PayloadTooLarge));
}

#[test]
fn inspection_admits_what_looks_like_an_image() {
    let png = vec![
        0x89, b'P', b'N', b'G', 0x0d, 0x0a, 0x1a, 0x0a, 0x00, 0x00, 0x00, 0x0d, b'I', b'H', b'D',
        b'R', 0x00, 0x00, 0x00, 0x01, 0x00, 0x00, 0x00, 0x01, 0x08, 0x06, 0x00, 0x00, 0x00,
    ];
    assert_eq!(inspect(&png, Some("image/png")), Ok(()));
    assert_eq!(inspect(&png, Some("Image/PNG")), Ok(()));
    assert_eq!(inspect(&png, Some("application/octet-stream")), Err(UploadError::UnsupportedMediaType));
}

#[test]
fn every_error_has_its_status_and_message() {
    let cases = [
        (UploadError::PayloadTooLarge, 413, "File size must be smaller than 25 MBs."),
        (UploadError::BadRequest, 400, "Content type is empty."),
        (UploadError::UnsupportedMediaType, 415, "Content must be image."),
        (UploadError::MetadataWriteFailed, 500, "Error connecting to database."),
        (UploadError::BlobWriteFailed, 500, "Error writing to file."),
    ];
    for (error, status, message) in cases {
        assert_eq!(error.status(), status);
        assert_eq!(error.message(), message);
        assert_eq!(answer(Err(error)), HttpReply { status, body: message.to_string() });
    }
}

#[test]
fn stored_image_is_answered_with_its_locator() {
    let reply = answer(Ok("/img/x.jpeg".to_string()));
    assert_eq!(reply, HttpReply { status: 200, body: "/img/x.jpeg".to_string() });
}

#[test]
fn rejected_bodies_are_answered_by_kind() {
    assert_eq!(
        answer_rejection(BodyRejection::PayloadTooLarge),
        HttpReply { status: 413, body: "File size must be smaller than 25 MBs.".to_string() }
    );
    assert_eq!(
        answer_rejection(BodyRejection::LengthRequired),
        HttpReply { status: 411, body: "File length required.".to_string() }
    );
    assert_eq!(
        answer_rejection(BodyRejection::Malformed),
        HttpReply { status: 400, body: "Bad Request!".to_string() }
    );
}

#[test]
fn request_without_a_part_is_a_bad_request() {
    assert_eq!(
        answer_rejection(BodyRejection::MissingPart),
        HttpReply { status: 400, body: "File part required.".to_string() }
    );
}

#[test]
fn only_a_stored_image_is_answered_ok() {
    let errors = [
        UploadError::PayloadTooLarge,
        UploadError::BadRequest,
        UploadError::UnsupportedMediaType,
        UploadError::MetadataWriteFailed,
        UploadError::BlobWriteFailed,
    ];
    for error in errors {
        assert_ne!(answer(Err(error)).status, 200);
    }
    let rejections = [
        BodyRejection::PayloadTooLarge,
        BodyRejection::LengthRequired,
        BodyRejection::Malformed,
        BodyRejection::MissingPart,
    ];
    for rejection in rejections {
        assert_ne!(answer_rejection(rejection).status, 200);
    }
    let locator = public_locator(5);
    let reply = answer(Ok(locator.clone()));
    assert_eq!(reply.status, 200);
    assert_eq!(reply.body, locator);
}

#[test]
fn expiry_is_strict() {
    let record = PhotoRecord { id: 1, uploaded_at: 100 };
    assert!(record.is_expired(101));
    assert!(!record.is_expired(100));
    assert!(!record.is_expired(99));
    assert!(!PhotoRecord { id: 1, uploaded_at: i64::MIN }.is_expired(i64::MIN));
    assert!(PhotoRecord { id: 1, uploaded_at: i64::MIN }.is_expired(i64::MAX));
}
