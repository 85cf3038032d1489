use std::collections::HashMap;

use timegated::http::answer;
use timegated::locator::blob_file_name;
use timegated::media::{UploadError, MAX_UPLOAD_BYTES};
use timegated::record::PhotoRecord;
use timegated::retry::RetryPolicy;
use timegated::store::{Command, Reply, StoreCall};
use timegated::upload::Upload;

/// Both stores in memory, with a script of failures: each entry names a
/// kind of call and how many of the next calls of that kind fail.
struct Memory {
    records: HashMap<u128, i64>,
    blobs: HashMap<String, Vec<u8>>,
    failing_inserts: u32,
    failing_writes: u32,
    failing_finds: u32,
    failing_deletes: u32,
    calls: Vec<StoreCall>,
    waits: Vec<u64>,
}

impl Memory {
    fn new() -> Memory {
        Memory {
            records: HashMap::new(),
            blobs: HashMap::new(),
            failing_inserts: 0,
            failing_writes: 0,
            failing_finds: 0,
            failing_deletes: 0,
            calls: Vec::new(),
            waits: Vec::new(),
        }
    }

    fn perform(&mut self, command: Command, data: &[u8]) -> Reply {
        self.calls.push(command.call);
        self.waits.push(command.wait_ms);
        match command.call {
            StoreCall::InsertRecord { record } => {
                if self.failing_inserts > 0 {
                    self.failing_inserts -= 1;
                    return Reply::Failed;
                }
                self.records.insert(record.id, record.uploaded_at);
                Reply::Done
            }
            StoreCall::FindRecord { id } => {
                if self.failing_finds > 0 {
                    self.failing_finds -= 1;
                    return Reply::Failed;
                }
                if self.records.contains_key(&id) {
                    Reply::Done
                } else {
                    Reply::Missing
                }
            }
            StoreCall::DeleteRecord { id } => {
                if self.failing_deletes > 0 {
                    self.failing_deletes -= 1;
                    return Reply::Failed;
                }
                match self.records.remove(&id) {
                    Some(_) => Reply::Done,
                    None => Reply::Missing,
                }
            }
            StoreCall::WriteBlob { id } => {
                if self.failing_writes > 0 {
                    self.failing_writes -= 1;
                    return Reply::Failed;
                }
                self.blobs.insert(blob_file_name(id), data.to_vec());
                Reply::Done
            }
            StoreCall::DeleteBlob { id } => match self.blobs.remove(&blob_file_name(id)) {
                Some(_) => Reply::Done,
                None => Reply::Missing,
            },
        }
    }

    /// What a GET of `locator` returns: the file of that name under `/img/`.
    fn get(&self, locator: &str) -> Option<&Vec<u8>> {
        let name = locator.strip_prefix("/img/")?;
        self.blobs.get(name)
    }
}

fn drive(upload: &mut Upload, memory: &mut Memory) -> Result<String, UploadError> {
    while let Some(command) = upload.command() {
        let data = upload.data().clone();
        let reply = memory.perform(command, &data);
        upload.resume(reply);
    }
    upload.outcome().unwrap()
}

fn jpeg(len: usize) -> Vec<u8> {
    let mut data = vec![
        0xff, 0xd8, 0xff, 0xe0, 0x00, 0x10, b'J', b'F', b'I', b'F', 0x00, 0x01, 0x01, 0x00, 0x00,
        0x01, 0x00, 0x01, 0x00, 0x00,
    ];
    data.resize(len, 0x55);
    data
}

const ID: u128 = 0x936d_a01f_9abd_4d9d_80c7_02af_85c8_22a8;

fn admitted(data: Vec<u8>) -> Upload {
    Upload::begin(data, Some("image"), "image/jpeg", ID, 1_700_000_000, RetryPolicy::standard())
        .unwrap()
}

#[test]
fn upload_valid_file() {
    let mut memory = Memory::new();
    let admission = Upload::accept(jpeg(4096), Some("image/"), RetryPolicy::standard());
    let res = match admission {
        Ok(mut upload) => answer(drive(&mut upload, &mut memory)),
        Err(error) => answer(Err(error)),
    };
    let res_code = res.status;
    let res_body = res.body;
    println!("{}", res_body);
    assert_eq!(
        200, res_code,
        "Server returned: {}\nBody was: {}",
        res_code, res_body
    );
}

#[test]
fn one_mebibyte_jpeg_is_served_back() {
    let mut memory = Memory::new();
    let data = jpeg(1024 * 1024);
    let mut upload = Upload::accept(data.clone(), Some("image/jpeg"), RetryPolicy::standard())
        .expect("a JPEG under the limit is admitted");
    let id = upload.record().id;
    let reply = answer(drive(&mut upload, &mut memory));
    assert_eq!(reply.status, 200);
    assert_eq!(reply.body, format!("/img/{}", blob_file_name(id)));
    assert_eq!(reply.body.len(), "/img/".len() + 36 + ".jpeg".len());
    assert_eq!(memory.get(&reply.body), Some(&data));
    assert!(memory.records.contains_key(&id));
    assert_eq!(memory.calls.len(), 2);
}

#[test]
fn plain_text_is_unsupported_and_nothing_is_recorded() {
    let memory = Memory::new();
    let text = b"just some words, no picture\n".to_vec();
    let admission = Upload::accept(text, Some("text/plain"), RetryPolicy::standard());
    let error = admission.err().expect("plain text is turned away");
    assert_eq!(error, UploadError::UnsupportedMediaType);
    let reply = answer(Err(error));
    assert_eq!(reply.status, 415);
    assert_eq!(reply.body, "Content must be image.");
    assert!(memory.records.is_empty());
    assert!(memory.blobs.is_empty());
}

#[test]
fn spoofed_declaration_is_caught_by_the_content() {
    let text = b"just some words, no picture\n".to_vec();
    let admission = Upload::accept(text, Some("image/png"), RetryPolicy::standard());
    assert_eq!(admission.err(), Some(UploadError::UnsupportedMediaType));
}

#[test]
fn happy_path_writes_record_then_blob() {
    let mut memory = Memory::new();
    let data = jpeg(64);
    let mut upload = admitted(data.clone());
    let outcome = drive(&mut upload, &mut memory);
    assert_eq!(outcome, Ok("/img/936da01f-9abd-4d9d-80c7-02af85c822a8.jpeg".to_string()));
    assert_eq!(
        memory.calls,
        vec![
            StoreCall::InsertRecord { record: PhotoRecord { id: ID, uploaded_at: 1_700_000_000 } },
            StoreCall::WriteBlob { id: ID },
        ]
    );
    assert_eq!(memory.waits, vec![0, 0]);
    assert_eq!(memory.records.get(&ID), Some(&1_700_000_000));
    assert_eq!(memory.get("/img/936da01f-9abd-4d9d-80c7-02af85c822a8.jpeg"), Some(&data));
    assert_eq!(upload.leftover(), None);
}

#[test]
fn finished_upload_ignores_further_replies() {
    let mut memory = Memory::new();
    let mut upload = admitted(jpeg(64));
    let outcome = drive(&mut upload, &mut memory);
    upload.resume(Reply::Failed);
    upload.resume(Reply::Done);
    assert_eq!(upload.command(), None);
    assert_eq!(upload.outcome(), Some(outcome));
}

#[test]
fn record_write_is_tried_three_times_then_given_up() {
    let mut memory = Memory::new();
    memory.failing_inserts = 3;
    let mut upload = admitted(jpeg(64));
    let outcome = drive(&mut upload, &mut memory);
    assert_eq!(outcome, Err(UploadError::MetadataWriteFailed));
    assert_eq!(memory.calls.len(), 3);
    assert!(memory.calls.iter().all(|call| matches!(call, StoreCall::InsertRecord { .. })));
    assert_eq!(memory.waits, vec![0, 10, 10]);
    assert!(memory.records.is_empty());
    assert!(memory.blobs.is_empty());
    assert_eq!(answer(outcome).status, 500);
    assert_eq!(upload.leftover(), None);
}

#[test]
fn record_write_succeeds_on_the_third_attempt() {
    let mut memory = Memory::new();
    memory.failing_inserts = 2;
    let mut upload = admitted(jpeg(64));
    let outcome = drive(&mut upload, &mut memory);
    assert!(outcome.is_ok());
    assert_eq!(memory.calls.len(), 4);
    assert_eq!(memory.waits, vec![0, 10, 10, 0]);
}

#[test]
fn blob_write_succeeds_on_the_third_attempt() {
    let mut memory = Memory::new();
    memory.failing_writes = 2;
    let data = jpeg(64);
    let mut upload = admitted(data.clone());
    let outcome = drive(&mut upload, &mut memory);
    assert_eq!(outcome, Ok("/img/936da01f-9abd-4d9d-80c7-02af85c822a8.jpeg".to_string()));
    assert_eq!(memory.waits, vec![0, 0, 10, 10]);
    assert_eq!(memory.get(&outcome.unwrap()), Some(&data));
}

#[test]
fn failed_blob_write_takes_the_record_back() {
    let mut memory = Memory::new();
    memory.failing_writes = 3;
    let mut upload = admitted(jpeg(64));
    let outcome = drive(&mut upload, &mut memory);
    assert_eq!(outcome, Err(UploadError::BlobWriteFailed));
    assert_eq!(
        memory.calls,
        vec![
            StoreCall::InsertRecord { record: PhotoRecord { id: ID, uploaded_at: 1_700_000_000 } },
            StoreCall::WriteBlob { id: ID },
            StoreCall::WriteBlob { id: ID },
            StoreCall::WriteBlob { id: ID },
            StoreCall::FindRecord { id: ID },
            StoreCall::DeleteRecord { id: ID },
        ]
    );
    assert_eq!(memory.records.get(&ID), None);
    assert!(memory.blobs.is_empty());
    assert_eq!(upload.leftover(), None);
    let reply = answer(outcome);
    assert_eq!(reply.status, 500);
    assert_eq!(reply.body, "Error writing to file.");
}

#[test]
fn failed_compensating_delete_leaves_a_known_orphan() {
    let mut memory = Memory::new();
    memory.failing_writes = 3;
    memory.failing_deletes = 1;
    let mut upload = admitted(jpeg(64));
    let outcome = drive(&mut upload, &mut memory);
    assert_eq!(outcome, Err(UploadError::BlobWriteFailed));
    assert_eq!(memory.records.get(&ID), Some(&1_700_000_000));
    assert_eq!(upload.leftover(), Some(PhotoRecord { id: ID, uploaded_at: 1_700_000_000 }));
    assert_eq!(memory.calls.len(), 6);
}

#[test]
fn failed_lookup_leaves_a_known_orphan() {
    let mut memory = Memory::new();
    memory.failing_writes = 3;
    memory.failing_finds = 1;
    let mut upload = admitted(jpeg(64));
    let outcome = drive(&mut upload, &mut memory);
    assert_eq!(outcome, Err(UploadError::BlobWriteFailed));
    assert_eq!(memory.records.get(&ID), Some(&1_700_000_000));
    assert_eq!(upload.leftover(), Some(PhotoRecord { id: ID, uploaded_at: 1_700_000_000 }));
    assert_eq!(memory.calls.len(), 5);
}

#[test]
fn record_missing_at_lookup_needs_no_delete() {
    let mut upload = admitted(jpeg(64));
    upload.resume(Reply::Done);
    upload.resume(Reply::Failed);
    upload.resume(Reply::Failed);
    upload.resume(Reply::Failed);
    assert_eq!(
        upload.command(),
        Some(Command { wait_ms: 0, call: StoreCall::FindRecord { id: ID } })
    );
    upload.resume(Reply::Missing);
    assert_eq!(upload.command(), None);
    assert_eq!(upload.outcome(), Some(Err(UploadError::BlobWriteFailed)));
    assert_eq!(upload.leftover(), None);
}

#[test]
fn a_write_answered_missing_counts_as_failed() {
    let mut upload = admitted(jpeg(64));
    upload.resume(Reply::Missing);
    assert_eq!(
        upload.command(),
        Some(Command {
            wait_ms: 10,
            call: StoreCall::InsertRecord {
                record: PhotoRecord { id: ID, uploaded_at: 1_700_000_000 }
            }
        })
    );
}

#[test]
fn policy_without_repetitions_tries_once() {
    let mut memory = Memory::new();
    memory.failing_inserts = 1;
    let mut upload = Upload::begin(
        jpeg(64),
        Some("image"),
        "image/jpeg",
        ID,
        5,
        RetryPolicy { retries: 0, delay_ms: 10 },
    )
    .unwrap();
    assert_eq!(drive(&mut upload, &mut memory), Err(UploadError::MetadataWriteFailed));
    assert_eq!(memory.calls.len(), 1);
}

#[test]
fn oversized_upload_is_turned_away_before_any_store_call() {
    let data = vec![0u8; MAX_UPLOAD_BYTES + 1];
    let admission =
        Upload::begin(data, Some("image"), "image/jpeg", ID, 0, RetryPolicy::standard());
    let error = admission.err().expect("too large");
    assert_eq!(error, UploadError::PayloadTooLarge);
    let reply = answer(Err(error));
    assert_eq!(reply.status, 413);
    assert_eq!(reply.body, "File size must be smaller than 25 MBs.");
}

#[test]
fn oversized_upload_is_turned_away_whatever_it_declares() {
    let data = vec![0u8; MAX_UPLOAD_BYTES + 1];
    let admission = Upload::accept(data, None, RetryPolicy::standard());
    assert_eq!(admission.err(), Some(UploadError::PayloadTooLarge));
}

#[test]
fn upload_of_exactly_the_limit_is_admitted() {
    let data = jpeg(MAX_UPLOAD_BYTES);
    let admission =
        Upload::begin(data, Some("image"), "image/jpeg", ID, 0, RetryPolicy::standard());
    assert!(admission.is_ok());
}

#[test]
fn missing_content_type_is_a_bad_request() {
    let admission = Upload::accept(jpeg(64), None, RetryPolicy::standard());
    let error = admission.err().expect("no content type");
    assert_eq!(error, UploadError::BadRequest);
    let reply = answer(Err(error));
    assert_eq!(reply.status, 400);
    assert_eq!(reply.body, "Content type is empty.");
}

#[test]
fn unreadable_content_type_is_a_bad_request() {
    let admission = Upload::accept(jpeg(64), Some("no slash here"), RetryPolicy::standard());
    assert_eq!(admission.err(), Some(UploadError::BadRequest));
}

#[test]
fn accepted_upload_gets_a_random_uuid_and_the_time() {
    let first = Upload::accept(jpeg(64), Some("image/jpeg"), RetryPolicy::standard()).unwrap();
    let second = Upload::accept(jpeg(64), Some("image/jpeg"), RetryPolicy::standard()).unwrap();
    let id = first.record().id;
    assert_eq!((id >> 76) & 0xf, 4);
    assert_eq!((id >> 62) & 0x3, 2);
    assert_ne!(id, second.record().id);
    assert!(first.record().uploaded_at > 1_600_000_000);
    assert!(second.record().uploaded_at >= first.record().uploaded_at);
    assert_eq!(first.data(), &jpeg(64));
}
