//! The upload of one request, as a sequence of decisions. The handler never
//! touches the network or the disk: it says what is to be done next, the
//! service does it and reports what came of it, and the handler decides
//! again. Fields are taken one at a time, each checked and stored before the
//! next is looked at, so a request that fails at a later field leaves the
//! earlier ones stored.

use crate::auth::{authorization, check_credential, credential_header, credential_of, Config};
use crate::filename::{name_of_field, stored_name, validate, validation};
use crate::headers::{bytes_of, first_value};
use crate::reply::{message_reply, Failure, Reply, ReplyView, Status, StorageError};
use crate::storage::{Directory, Location, LocationView};
use axum::http::HeaderMap;
use vstd::prelude::*;
use vstd::string::*;

verus! {

/// What the service reports to the handler.
#[derive(Debug, PartialEq, Eq)]
pub enum Event {
    /// A request has come, with this credential or with none.
    Request { credential: Option<Vec<u8>> },
    /// The directory asked for is there.
    DirectoryReady,
    /// The directory asked for could not be made.
    DirectoryFailed,
    /// The request's next field, with the file name it declares, if any.
    Field { file_name: Option<String> },
    /// The request has no further field.
    EndOfFields,
    /// The whole body of the field at hand.
    Body { data: Vec<u8> },
    /// The file asked for is created, and empty.
    Created,
    /// The file asked for could not be created.
    CreateFailed,
    /// The bytes handed over are written.
    Written,
    /// The bytes handed over could not be written.
    WriteFailed,
}

/// What an `Event` stands for in contracts.
pub enum EventView {
    Request { credential: Option<Seq<u8>> },
    DirectoryReady,
    DirectoryFailed,
    Field { file_name: Option<Seq<char>> },
    EndOfFields,
    Body { data: Seq<u8> },
    Created,
    CreateFailed,
    Written,
    WriteFailed,
}

impl View for Event {
    type V = EventView;

    open spec fn view(&self) -> EventView {
        match self {
            Event::Request { credential: Some(bytes) } => EventView::Request {
                credential: Some(bytes@),
            },
            Event::Request { credential: None } => EventView::Request { credential: None },
            Event::DirectoryReady => EventView::DirectoryReady,
            Event::DirectoryFailed => EventView::DirectoryFailed,
            Event::Field { file_name: Some(name) } => EventView::Field { file_name: Some(name@) },
            Event::Field { file_name: None } => EventView::Field { file_name: None },
            Event::EndOfFields => EventView::EndOfFields,
            Event::Body { data } => EventView::Body { data: data@ },
            Event::Created => EventView::Created,
            Event::CreateFailed => EventView::CreateFailed,
            Event::Written => EventView::Written,
            Event::WriteFailed => EventView::WriteFailed,
        }
    }
}

/// What the handler asks the service to do.
#[derive(Debug, PartialEq, Eq)]
pub enum Action {
    /// Make sure that the directory exists, with the directories above it.
    PrepareDirectory { directory: Directory },
    /// Hand over the request's next field.
    NextField,
    /// Read the whole body of the field at hand.
    ReadBody,
    /// Create the file, or empty it where it exists.
    CreateFile { location: Location },
    /// Write the bytes to the file just created.
    WriteFile { location: Location, data: Vec<u8> },
    /// Answer the request. Nothing follows.
    Respond { reply: Reply },
}

/// What an `Action` stands for in contracts.
pub enum ActionView {
    PrepareDirectory { directory: Directory },
    NextField,
    ReadBody,
    CreateFile { location: LocationView },
    WriteFile { location: LocationView, data: Seq<u8> },
    Respond { reply: ReplyView },
}

impl View for Action {
    type V = ActionView;

    open spec fn view(&self) -> ActionView {
        match self {
            Action::PrepareDirectory { directory } => ActionView::PrepareDirectory {
                directory: *directory,
            },
            Action::NextField => ActionView::NextField,
            Action::ReadBody => ActionView::ReadBody,
            Action::CreateFile { location } => ActionView::CreateFile { location: location@ },
            Action::WriteFile { location, data } => ActionView::WriteFile {
                location: location@,
                data: data@,
            },
            Action::Respond { reply } => ActionView::Respond { reply: reply@ },
        }
    }
}

/// How far an upload has come: what the handler is waiting for.
pub enum State {
    /// Nothing has happened yet.
    AwaitingRequest,
    /// The credential was accepted; the upload directory is being prepared.
    AwaitingDirectory,
    /// The next field is being fetched.
    AwaitingField,
    /// The field's name was accepted; its body is being read.
    AwaitingBody { name: Seq<char> },
    /// The field's file is being created.
    AwaitingCreate { name: Seq<char>, data: Seq<u8> },
    /// The field's bytes are being written.
    AwaitingWrite { name: Seq<char> },
    /// The request is answered.
    Finished,
}

/// One decision: the state after it, what is to be done, and a line for the
/// service's log where there is something to tell.
pub struct TransitionView {
    pub state: State,
    pub action: ActionView,
    pub notice: Option<Seq<char>>,
}

/// The file that a field named `name` is stored in.
pub open spec fn upload_location(name: Seq<char>) -> LocationView {
    LocationView { directory: Directory::Upload, name }
}

/// The reply to a request whose fields are all stored.
pub open spec fn success_reply() -> ReplyView {
    message_reply(Status::Success, "File uploaded successfully!"@)
}

/// The line that tells of a stored file.
pub open spec fn upload_notice(name: Seq<char>) -> Seq<char> {
    "File Uploaded: "@ + name
}

/// The decision that goes on with `action`, silently.
pub open spec fn proceed(state: State, action: ActionView) -> TransitionView {
    TransitionView { state, action, notice: None }
}

/// The decision that ends the request with `reply`.
pub open spec fn conclude(reply: ReplyView) -> TransitionView {
    TransitionView { state: State::Finished, action: ActionView::Respond { reply }, notice: None }
}

/// What the handler decides in `state` when `event` is reported, with
/// `secret` as the configured secret's bytes. `None` where the event is not
/// an answer to what the state is waiting for: then nothing is decided.
///
/// The credential is checked once, before anything else. The directory is
/// prepared before any field is looked at. Each field is validated before
/// its body is read, and created before it is written. Every failure ends
/// the request at once; what was stored before stays.
pub open spec fn next(secret: Seq<u8>, state: State, event: EventView) -> Option<TransitionView> {
    match (state, event) {
        (State::AwaitingRequest, EventView::Request { credential }) => Some(
            match authorization(secret, credential) {
                Ok(_) => proceed(
                    State::AwaitingDirectory,
                    ActionView::PrepareDirectory { directory: Directory::Upload },
                ),
                Err(error) => conclude(Failure::Auth(error).spec_reply()),
            },
        ),
        (State::AwaitingDirectory, EventView::DirectoryReady) => Some(
            proceed(State::AwaitingField, ActionView::NextField),
        ),
        (State::AwaitingDirectory, EventView::DirectoryFailed) => Some(
            conclude(Failure::Storage(StorageError::Directory).spec_reply()),
        ),
        (State::AwaitingField, EventView::Field { file_name }) => Some(
            match validation(stored_name(file_name)) {
                Ok(_) => proceed(
                    State::AwaitingBody { name: stored_name(file_name) },
                    ActionView::ReadBody,
                ),
                Err(error) => conclude(Failure::Validation(error).spec_reply()),
            },
        ),
        (State::AwaitingField, EventView::EndOfFields) => Some(conclude(success_reply())),
        (State::AwaitingBody { name }, EventView::Body { data }) => Some(
            proceed(
                State::AwaitingCreate { name, data },
                ActionView::CreateFile { location: upload_location(name) },
            ),
        ),
        (State::AwaitingCreate { name, data }, EventView::Created) => Some(
            proceed(
                State::AwaitingWrite { name },
                ActionView::WriteFile { location: upload_location(name), data },
            ),
        ),
        (State::AwaitingCreate { .. }, EventView::CreateFailed) => Some(
            conclude(Failure::Storage(StorageError::Create).spec_reply()),
        ),
        (State::AwaitingWrite { name }, EventView::Written) => Some(
            TransitionView {
                state: State::AwaitingField,
                action: ActionView::NextField,
                notice: Some(upload_notice(name)),
            },
        ),
        (State::AwaitingWrite { .. }, EventView::WriteFailed) => Some(
            conclude(Failure::Storage(StorageError::Save).spec_reply()),
        ),
        _ => None,
    }
}

/// Whether `state` can come about: a field whose body is read, created or
/// written has a name that was accepted.
pub open spec fn admissible(state: State) -> bool {
    match state {
        State::AwaitingBody { name } => validation(name) is Ok,
        State::AwaitingCreate { name, .. } => validation(name) is Ok,
        State::AwaitingWrite { name } => validation(name) is Ok,
        _ => true,
    }
}

enum Phase {
    Request,
    Directory,
    Field,
    Body { name: String },
    Create { name: String, data: Vec<u8> },
    Write { name: String },
    Finished,
}

/// The handler of one upload request. It is made by [`Upload::new`] and moved
/// on by [`Upload::step`] only, so it is always in a state that can come
/// about.
pub struct Upload {
    phase: Phase,
}

/// One decision of the handler.
pub struct Transition {
    /// The handler after the decision.
    pub upload: Upload,
    /// What is to be done next.
    pub action: Action,
    /// A line for the service's log, where there is something to tell.
    pub notice: Option<String>,
}

impl View for Upload {
    type V = State;

    closed spec fn view(&self) -> State {
        match self.phase {
            Phase::Request => State::AwaitingRequest,
            Phase::Directory => State::AwaitingDirectory,
            Phase::Field => State::AwaitingField,
            Phase::Body { name } => State::AwaitingBody { name: name@ },
            Phase::Create { name, data } => State::AwaitingCreate { name: name@, data: data@ },
            Phase::Write { name } => State::AwaitingWrite { name: name@ },
            Phase::Finished => State::Finished,
        }
    }
}

impl View for Transition {
    type V = TransitionView;

    open spec fn view(&self) -> TransitionView {
        TransitionView {
            state: self.upload@,
            action: self.action@,
            notice: match self.notice {
                Some(line) => Some(line@),
                None => None,
            },
        }
    }
}

impl Upload {
    #[verifier::type_invariant]
    spec fn is_admissible(self) -> bool {
        admissible(self@)
    }

    /// The handler of a request of which nothing is known yet.
    pub fn new() -> (upload: Upload)
        ensures
            upload@ == State::AwaitingRequest,
    {
        Upload { phase: Phase::Request }
    }

    /// Whether the request is answered.
    pub fn is_finished(&self) -> (finished: bool)
        ensures
            finished == (self@ is Finished),
    {
        match self.phase {
            Phase::Finished => true,
            _ => false,
        }
    }

    /// The decision that goes on with `action`, silently.
    fn proceed(phase: Phase, action: Action) -> (decision: Transition)
        requires
            admissible((Upload { phase })@),
        ensures
            decision@ == proceed((Upload { phase })@, action@),
    {
        Transition { upload: Upload { phase }, action, notice: None }
    }

    /// The decision that ends the request with the report of `failure`.
    fn fail(failure: Failure) -> (decision: Transition)
        ensures
            decision@ == conclude(failure.spec_reply()),
    {
        Transition {
            upload: Upload { phase: Phase::Finished },
            action: Action::Respond { reply: failure.reply() },
            notice: None,
        }
    }

    /// The decision on a request that presents `credential`: the first of
    /// every upload.
    fn receive(config: &Config, credential: &Option<Vec<u8>>) -> (decision: Transition)
        ensures
            Some(decision@) == next(
                config.secret_bytes(),
                State::AwaitingRequest,
                EventView::Request { credential: bytes_of(*credential) },
            ),
    {
        match check_credential(config, credential) {
            Ok(_) => Upload::proceed(
                Phase::Directory,
                Action::PrepareDirectory { directory: Directory::Upload },
            ),
            Err(error) => Upload::fail(Failure::Auth(error)),
        }
    }

    /// Decides what is to be done now that `event` is reported, and moves
    /// the handler on. `None` where `event` is not an answer to what the
    /// handler is waiting for: then nothing is decided, and the handler is
    /// spent.
    pub fn step(self, config: &Config, event: Event) -> (decision: Option<Transition>)
        ensures
            decided(decision) == next(config.secret_bytes(), self@, event@),
            decision matches Some(transition) ==> admissible(transition.upload@),
    {
        proof {
            use_type_invariant(&self);
        }
        match (self.phase, event) {
            (Phase::Request, Event::Request { credential }) => Some(
                Upload::receive(config, &credential),
            ),
            (Phase::Directory, Event::DirectoryReady) => Some(
                Upload::proceed(Phase::Field, Action::NextField),
            ),
            (Phase::Directory, Event::DirectoryFailed) => Some(
                Upload::fail(Failure::Storage(StorageError::Directory)),
            ),
            (Phase::Field, Event::Field { file_name }) => {
                let name = name_of_field(file_name);
                Some(
                    match validate(name.as_str()) {
                        Ok(_) => Upload::proceed(Phase::Body { name }, Action::ReadBody),
                        Err(error) => Upload::fail(Failure::Validation(error)),
                    },
                )
            },
            (Phase::Field, Event::EndOfFields) => Some(
                Transition {
                    upload: Upload { phase: Phase::Finished },
                    action: Action::Respond {
                        reply: Reply::message(Status::Success, "File uploaded successfully!"),
                    },
                    notice: None,
                },
            ),
            (Phase::Body { name }, Event::Body { data }) => {
                let location = Location::uploaded(name.clone());
                Some(Upload::proceed(Phase::Create { name, data }, Action::CreateFile { location }))
            },
            (Phase::Create { name, data }, Event::Created) => {
                let location = Location::uploaded(name.clone());
                Some(Upload::proceed(Phase::Write { name }, Action::WriteFile { location, data }))
            },
            (Phase::Create { .. }, Event::CreateFailed) => Some(
                Upload::fail(Failure::Storage(StorageError::Create)),
            ),
            (Phase::Write { name }, Event::Written) => {
                let mut line = String::from_str("File Uploaded: ");
                line.append(name.as_str());
                Some(
                    Transition {
                        upload: Upload { phase: Phase::Field },
                        action: Action::NextField,
                        notice: Some(line),
                    },
                )
            },
            (Phase::Write { .. }, Event::WriteFailed) => Some(
                Upload::fail(Failure::Storage(StorageError::Save)),
            ),
            _ => None,
        }
    }
}

/// What a decision stands for in contracts, where there is one.
pub open spec fn decided(decision: Option<Transition>) -> Option<TransitionView> {
    match decision {
        Some(transition) => Some(transition@),
        None => None,
    }
}

/// Takes up a request with the headers `headers`: checks the credential that
/// they carry and decides what is to be done first.
pub fn begin(config: &Config, headers: &HeaderMap) -> (decision: Transition)
    ensures
        Some(decision@) == next(
            config.secret_bytes(),
            State::AwaitingRequest,
            EventView::Request { credential: first_value(*headers, credential_header()) },
        ),
{
    let credential = credential_of(headers);
    Upload::receive(config, &credential)
}

} // verus!
