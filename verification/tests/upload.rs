use api::upload::{step, MyError, UploadAction, UploadEvent, UploadState};
use bytes::Bytes;

fn chunk(bytes: &[u8]) -> UploadEvent {
    UploadEvent::Chunk { bytes: Bytes::copy_from_slice(bytes) }
}

fn reject(message: &str) -> UploadAction {
    UploadAction::Reject { error: MyError { message: message.to_string() } }
}

#[test]
fn an_upload_begins_by_asking_for_a_part() {
    let (state, action) = UploadState::begin();
    assert_eq!(state, UploadState::AwaitingPart);
    assert_eq!(action, UploadAction::NextPart);
    assert!(!state.is_finished());
}

#[test]
fn a_form_without_parts_is_refused() {
    let (state, _) = UploadState::begin();
    let (state, action) = step(state, UploadEvent::NoPart);
    assert!(state.is_finished());
    assert_eq!(action, reject("No image file found in form data"));
}

#[test]
fn a_broken_form_is_refused_with_its_reason() {
    let (state, _) = UploadState::begin();
    let (state, action) = step(state, UploadEvent::FormFailed { reason: "eof".to_string() });
    assert_eq!(state, UploadState::Finished);
    assert_eq!(action, reject("Error processing form  eof"));
}

#[test]
fn chunks_are_joined_and_stored_as_a_jpeg() {
    let (state, _) = UploadState::begin();
    let (state, action) = step(state, UploadEvent::PartFound);
    assert_eq!(state, UploadState::ReadingPart { image: vec![] });
    assert_eq!(action, UploadAction::NextChunk);
    let (state, action) = step(state, chunk(&[1, 2]));
    assert_eq!(action, UploadAction::NextChunk);
    let (state, _) = step(state, chunk(&[]));
    let (state, _) = step(state, chunk(&[3]));
    assert_eq!(state, UploadState::ReadingPart { image: vec![1, 2, 3] });
    let (state, action) = step(state, UploadEvent::PartEnded);
    assert_eq!(state, UploadState::Storing);
    assert_eq!(
        action,
        UploadAction::Store { image: vec![1, 2, 3], content_type: "image/jpeg".to_string() }
    );
    let (state, action) = step(state, UploadEvent::Stored);
    assert!(state.is_finished());
    assert_eq!(action, UploadAction::Reply { status: 200, body: "Image uploaded".to_string() });
}

#[test]
fn an_empty_part_is_stored_empty() {
    let (state, _) = UploadState::begin();
    let (state, _) = step(state, UploadEvent::PartFound);
    let (_, action) = step(state, UploadEvent::PartEnded);
    assert_eq!(
        action,
        UploadAction::Store { image: vec![], content_type: "image/jpeg".to_string() }
    );
}

#[test]
fn a_broken_chunk_is_refused_with_its_reason() {
    let (state, _) = UploadState::begin();
    let (state, _) = step(state, UploadEvent::PartFound);
    let (state, _) = step(state, chunk(&[9]));
    let (state, action) =
        step(state, UploadEvent::ChunkFailed { reason: "reset".to_string() });
    assert!(state.is_finished());
    assert_eq!(action, reject("Error reading image chunk: reset"));
}

#[test]
fn each_state_accepts_only_what_it_asked_for() {
    let chunk = chunk(&[1]);
    assert!(UploadState::AwaitingPart.accepts(&UploadEvent::PartFound));
    assert!(UploadState::AwaitingPart.accepts(&UploadEvent::NoPart));
    assert!(!UploadState::AwaitingPart.accepts(&chunk));
    assert!(!UploadState::AwaitingPart.accepts(&UploadEvent::Stored));
    let reading = UploadState::ReadingPart { image: vec![] };
    assert!(reading.accepts(&chunk));
    assert!(reading.accepts(&UploadEvent::PartEnded));
    assert!(!reading.accepts(&UploadEvent::PartFound));
    assert!(UploadState::Storing.accepts(&UploadEvent::Stored));
    assert!(!UploadState::Storing.accepts(&UploadEvent::PartEnded));
    assert!(!UploadState::Finished.accepts(&UploadEvent::Stored));
}
