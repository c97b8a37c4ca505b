//! The decisions of an image upload.
//!
//! An upload reads the first part of a form, gathers the chunks of that part
//! and stores them as one image. Reading and storing are the caller's work:
//! [`step`] takes what happened and says what comes next.

use vstd::prelude::*;

verus! {

/// A run of bytes as the form hands it out.
#[verifier::external_type_specification]
#[verifier::external_body]
pub struct ExBytes(bytes::Bytes);

/// The bytes that a chunk holds, in order.
pub uninterp spec fn chunk_bytes(chunk: bytes::Bytes) -> Seq<u8>;

/// The bytes of a chunk as a slice, by `Bytes::as_ref`. Believed, not proved:
/// the slice holds the bytes of the chunk, all of them and in their order.
#[verifier::external_body]
fn chunk_slice(chunk: &bytes::Bytes) -> (slice: &[u8])
    ensures
        slice@ == chunk_bytes(*chunk),
{
    chunk.as_ref()
}

/// Why an upload was refused.
#[derive(Debug, Clone, PartialEq, Eq)]
pub struct MyError {
    pub message: String,
}

/// How far an upload has come.
#[derive(Debug, Clone, PartialEq, Eq)]
pub enum UploadState {
    /// The first part of the form has been asked for.
    AwaitingPart,
    /// The part is being read; `image` holds the chunks so far.
    ReadingPart { image: Vec<u8> },
    /// The image has been handed over to be stored.
    Storing,
    /// The upload has been answered.
    Finished,
}

/// What the caller met when it did what it was told.
#[derive(Debug, PartialEq, Eq)]
pub enum UploadEvent {
    /// The form has a part.
    PartFound,
    /// The form has no part.
    NoPart,
    /// The form could not be read.
    FormFailed { reason: String },
    /// The part gave another chunk.
    Chunk { bytes: bytes::Bytes },
    /// The part could not be read further.
    ChunkFailed { reason: String },
    /// The part has ended.
    PartEnded,
    /// The image has been stored.
    Stored,
}

/// What the caller is to do next.
#[derive(Debug, Clone, PartialEq, Eq)]
pub enum UploadAction {
    /// Ask the form for its first part.
    NextPart,
    /// Ask the part for its next chunk.
    NextChunk,
    /// Store the image under the name of the upload.
    Store { image: Vec<u8>, content_type: String },
    /// Answer that the upload is done.
    Reply { status: u16, body: String },
    /// Refuse the upload.
    Reject { error: MyError },
}

/// The mathematical value of an [`UploadState`].
pub enum StateModel {
    AwaitingPart,
    ReadingPart { image: Seq<u8> },
    Storing,
    Finished,
}

/// The mathematical value of an [`UploadEvent`].
pub enum EventModel {
    PartFound,
    NoPart,
    FormFailed { reason: Seq<char> },
    Chunk { bytes: Seq<u8> },
    ChunkFailed { reason: Seq<char> },
    PartEnded,
    Stored,
}

/// The mathematical value of an [`UploadAction`].
pub enum ActionModel {
    NextPart,
    NextChunk,
    Store { image: Seq<u8>, content_type: Seq<char> },
    Reply { status: int, body: Seq<char> },
    Reject { message: Seq<char> },
}

impl View for UploadState {
    type V = StateModel;

    open spec fn view(&self) -> StateModel {
        match self {
            UploadState::AwaitingPart => StateModel::AwaitingPart,
            UploadState::ReadingPart { image } => StateModel::ReadingPart { image: image@ },
            UploadState::Storing => StateModel::Storing,
            UploadState::Finished => StateModel::Finished,
        }
    }
}

impl View for UploadEvent {
    type V = EventModel;

    open spec fn view(&self) -> EventModel {
        match self {
            UploadEvent::PartFound => EventModel::PartFound,
            UploadEvent::NoPart => EventModel::NoPart,
            UploadEvent::FormFailed { reason } => EventModel::FormFailed { reason: reason@ },
            UploadEvent::Chunk { bytes } => EventModel::Chunk { bytes: chunk_bytes(*bytes) },
            UploadEvent::ChunkFailed { reason } => EventModel::ChunkFailed { reason: reason@ },
            UploadEvent::PartEnded => EventModel::PartEnded,
            UploadEvent::Stored => EventModel::Stored,
        }
    }
}

impl View for UploadAction {
    type V = ActionModel;

    open spec fn view(&self) -> ActionModel {
        match self {
            UploadAction::NextPart => ActionModel::NextPart,
            UploadAction::NextChunk => ActionModel::NextChunk,
            UploadAction::Store { image, content_type } => ActionModel::Store {
                image: image@,
                content_type: content_type@,
            },
            UploadAction::Reply { status, body } => ActionModel::Reply {
                status: *status as int,
                body: body@,
            },
            UploadAction::Reject { error } => ActionModel::Reject { message: error.message@ },
        }
    }
}

/// The event is one that can follow what the state last asked for.
pub open spec fn accepts(state: StateModel, event: EventModel) -> bool {
    match state {
        StateModel::AwaitingPart => event is PartFound || event is NoPart || event is FormFailed,
        StateModel::ReadingPart { .. } => event is Chunk || event is ChunkFailed
            || event is PartEnded,
        StateModel::Storing => event is Stored,
        StateModel::Finished => false,
    }
}

/// The state and the action that follow an event.
pub open spec fn step_spec(state: StateModel, event: EventModel) -> (StateModel, ActionModel) {
    match (state, event) {
        (StateModel::AwaitingPart, EventModel::PartFound) => (
            StateModel::ReadingPart { image: Seq::empty() },
            ActionModel::NextChunk,
        ),
        (StateModel::AwaitingPart, EventModel::NoPart) => (
            StateModel::Finished,
            ActionModel::Reject { message: "No image file found in form data"@ },
        ),
        (StateModel::AwaitingPart, EventModel::FormFailed { reason }) => (
            StateModel::Finished,
            ActionModel::Reject { message: "Error processing form  "@ + reason },
        ),
        (StateModel::ReadingPart { image }, EventModel::Chunk { bytes }) => (
            StateModel::ReadingPart { image: image + bytes },
            ActionModel::NextChunk,
        ),
        (StateModel::ReadingPart { image }, EventModel::ChunkFailed { reason }) => (
            StateModel::Finished,
            ActionModel::Reject { message: "Error reading image chunk: "@ + reason },
        ),
        (StateModel::ReadingPart { image }, EventModel::PartEnded) => (
            StateModel::Storing,
            ActionModel::Store { image, content_type: "image/jpeg"@ },
        ),
        (StateModel::Storing, EventModel::Stored) => (
            StateModel::Finished,
            ActionModel::Reply { status: 200, body: "Image uploaded"@ },
        ),
        _ => (state, ActionModel::NextPart),
    }
}

/// The state after a part was found and `chunks` were read from it.
pub open spec fn after_chunks(chunks: Seq<Seq<u8>>) -> StateModel
    decreases chunks.len(),
{
    if chunks.len() == 0 {
        StateModel::ReadingPart { image: Seq::empty() }
    } else {
        step_spec(
            after_chunks(chunks.drop_last()),
            EventModel::Chunk { bytes: chunks.last() },
        ).0
    }
}

/// The chunks of a part are stored in the order in which they came, end to
/// end, with nothing between them and nothing left out.
pub proof fn lemma_chunks_are_joined(chunks: Seq<Seq<u8>>)
    ensures
        after_chunks(chunks) == (StateModel::ReadingPart { image: chunks.flatten() }),
        step_spec(after_chunks(chunks), EventModel::PartEnded) == (
            StateModel::Storing,
            ActionModel::Store { image: chunks.flatten(), content_type: "image/jpeg"@ },
        ),
    decreases chunks.len(),
{
    if chunks.len() == 0 {
        assert(chunks.flatten() =~= Seq::<u8>::empty());
    } else {
        lemma_chunks_are_joined(chunks.drop_last());
        chunks.lemma_flatten_and_flatten_alt_are_equivalent();
        chunks.drop_last().lemma_flatten_and_flatten_alt_are_equivalent();
    }
}

impl UploadState {
    /// The state in which an upload begins, and its first action.
    pub fn begin() -> (start: (UploadState, UploadAction))
        ensures
            start.0@ == StateModel::AwaitingPart,
            start.1@ == ActionModel::NextPart,
    {
        (UploadState::AwaitingPart, UploadAction::NextPart)
    }

    /// Whether the upload has been answered.
    pub fn is_finished(&self) -> (done: bool)
        ensures
            done == (self@ is Finished),
    {
        matches!(self, UploadState::Finished)
    }

    /// Whether `event` can follow what this state last asked for.
    pub fn accepts(&self, event: &UploadEvent) -> (ok: bool)
        ensures
            ok == accepts(self@, event@),
    {
        match self {
            UploadState::AwaitingPart => matches!(
                event,
                UploadEvent::PartFound | UploadEvent::NoPart | UploadEvent::FormFailed { .. }
            ),
            UploadState::ReadingPart { .. } => matches!(
                event,
                UploadEvent::Chunk { .. } | UploadEvent::ChunkFailed { .. } | UploadEvent::PartEnded
            ),
            UploadState::Storing => matches!(event, UploadEvent::Stored),
            UploadState::Finished => false,
        }
    }
}

/// A refusal with the message `lead` followed by `reason`.
fn refusal(lead: &str, reason: &String) -> (action: UploadAction)
    ensures
        action@ == (ActionModel::Reject { message: lead@ + reason@ }),
{
    let message = String::from_str(lead).concat(reason.as_str());
    UploadAction::Reject { error: MyError { message } }
}

/// Takes the upload one step on: the state and the action that follow
/// `event`.
pub fn step(state: UploadState, event: UploadEvent) -> (next: (UploadState, UploadAction))
    requires
        accepts(state@, event@),
    ensures
        (next.0@, next.1@) == step_spec(state@, event@),
{
    match state {
        UploadState::AwaitingPart => match event {
            UploadEvent::PartFound => (
                UploadState::ReadingPart { image: Vec::new() },
                UploadAction::NextChunk,
            ),
            UploadEvent::FormFailed { reason } => (
                UploadState::Finished,
                refusal("Error processing form  ", &reason),
            ),
            _ => (
                UploadState::Finished,
                UploadAction::Reject {
                    error: MyError {
                        message: String::from_str("No image file found in form data"),
                    },
                },
            ),
        },
        UploadState::ReadingPart { image } => match event {
            UploadEvent::Chunk { bytes } => {
                let mut joined = image;
                joined.extend_from_slice(chunk_slice(&bytes));
                assert(joined@ == image@ + chunk_bytes(bytes));
                (UploadState::ReadingPart { image: joined }, UploadAction::NextChunk)
            },
            UploadEvent::ChunkFailed { reason } => (
                UploadState::Finished,
                refusal("Error reading image chunk: ", &reason),
            ),
            _ => (
                UploadState::Storing,
                UploadAction::Store { image, content_type: String::from_str("image/jpeg") },
            ),
        },
        _ => (
            UploadState::Finished,
            UploadAction::Reply { status: 200, body: String::from_str("Image uploaded") },
        ),
    }
}

} // verus!
