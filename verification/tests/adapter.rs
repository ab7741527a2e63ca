use file_center_download::handle::{FileData, StoredFileHandle};
use file_center_download::response::{FileCenterDownloadResponse, ResponseBody};

fn handle_with(
    file_name: &str,
    mime_type: &str,
    file_size: u64,
    expiration_time: Option<i64>,
    file_data: FileData,
) -> StoredFileHandle {
    StoredFileHandle {
        file_name: file_name.as_bytes().to_vec(),
        mime_type: mime_type.as_bytes().to_vec(),
        file_size,
        expiration_time,
        file_data,
    }
}

#[test]
fn empty_override_and_empty_stored_name_give_plain_attachment() {
    let handle = handle_with("", "text/plain", 0, None, FileData::Buffer(Vec::new()));
    let response = FileCenterDownloadResponse::from_file_item(handle, Some(Vec::new()));
    let plan = response.respond();
    assert_eq!(plan.content_disposition, b"attachment".to_vec());
}

#[test]
fn no_override_and_empty_stored_name_give_plain_attachment() {
    let handle = handle_with("", "text/plain", 0, None, FileData::Buffer(Vec::new()));
    let response = FileCenterDownloadResponse::from_file_item(handle, None);
    let plan = response.respond();
    assert_eq!(plan.content_disposition, b"attachment".to_vec());
}

#[test]
fn non_empty_override_beats_stored_name() {
    let handle = handle_with("stored.bin", "text/plain", 1, None, FileData::Buffer(vec![0]));
    let response = FileCenterDownloadResponse::from_file_item(
        handle,
        Some(b"override.txt".to_vec()),
    );
    let plan = response.respond();
    assert_eq!(plan.content_disposition, b"attachment; filename*=UTF-8''override.txt".to_vec());
}

#[test]
fn empty_override_falls_back_to_stored_name() {
    let handle = handle_with("stored.bin", "text/plain", 1, None, FileData::Buffer(vec![0]));
    let response = FileCenterDownloadResponse::from_file_item(handle, Some(Vec::new()));
    let plan = response.respond();
    assert_eq!(plan.content_disposition, b"attachment; filename*=UTF-8''stored.bin".to_vec());
}

#[test]
fn buffered_payload_becomes_body_of_same_length() {
    let payload: Vec<u8> = vec![7u8; 1234];
    let handle = handle_with("a.bin", "application/octet-stream", 1234, None, FileData::Buffer(
        payload.clone(),
    ));
    let response = FileCenterDownloadResponse::from_file_item(handle, None);
    let plan = response.respond();
    match plan.body {
        ResponseBody::Buffered(body) => {
            assert_eq!(body.len(), 1234);
            assert_eq!(body, payload);
        },
        ResponseBody::Streamed { .. } => panic!("buffered payload must not be streamed"),
    }
}

#[test]
fn streamed_payload_carries_captured_file_size() {
    let handle = handle_with("big.iso", "application/octet-stream", 4096, None, FileData::Stream);
    let response = FileCenterDownloadResponse::from_file_item(handle, None);
    let plan = response.respond();
    match plan.body {
        ResponseBody::Streamed { content_length } => assert_eq!(content_length, 4096),
        ResponseBody::Buffered(_) => panic!("streamed payload must not be buffered"),
    }
}

#[test]
fn is_temporary_iff_expiration_present() {
    let temporary = FileCenterDownloadResponse::from_file_item(
        handle_with("t", "text/plain", 0, Some(1_700_000_000_000), FileData::Stream),
        None,
    );
    assert!(temporary.is_temporary());
    let perennial = FileCenterDownloadResponse::from_file_item(
        handle_with("p", "text/plain", 0, None, FileData::Stream),
        None,
    );
    assert!(!perennial.is_temporary());
}

#[test]
fn lookup_of_missing_file_yields_no_file_not_an_error() {
    let absent = FileCenterDownloadResponse::from_lookup(None, None);
    assert!(absent.is_none());
}

#[test]
fn lookup_of_found_file_yields_response() {
    let handle = handle_with("found.txt", "text/plain", 2, None, FileData::Buffer(vec![1, 2]));
    let wrapped = FileCenterDownloadResponse::from_lookup(Some(handle), Some(b"n".to_vec()));
    let response = wrapped.expect("a found file must yield a response");
    assert_eq!(response.file_name, Some(b"n".to_vec()));
    assert_eq!(response.file_item.file_name, b"found.txt".to_vec());
}

#[test]
fn example_scenario_image_cat_jpeg() {
    let payload: Vec<u8> = vec![0u8; 2048];
    let handle = handle_with("image(cat).jpg", "image/jpeg", 2048, None, FileData::Buffer(
        payload,
    ));
    let response = FileCenterDownloadResponse::from_file_item(handle, None);
    assert!(!response.is_temporary());
    let plan = response.respond();
    assert_eq!(
        plan.content_disposition,
        b"attachment; filename*=UTF-8''image%28cat%29.jpg".to_vec()
    );
    assert_eq!(plan.content_type, b"image/jpeg".to_vec());
    match plan.body {
        ResponseBody::Buffered(body) => assert_eq!(body.len(), 2048),
        ResponseBody::Streamed { .. } => panic!("resident bytes must be sent as a buffered body"),
    }
}
