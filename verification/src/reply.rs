//! What a request is answered: a status, headers and a body, and the ways a
//! request can fail.

use vstd::prelude::*;
use vstd::string::*;

verus! {

/// The status of a reply.
#[derive(Clone, Copy, Debug, PartialEq, Eq, Structural)]
pub enum Status {
    Success,
    BadRequest,
    Unauthorized,
    NotFound,
    InternalServerError,
}

impl Status {
    /// The status as a number.
    pub open spec fn spec_code(self) -> u16 {
        match self {
            Status::Success => 200,
            Status::BadRequest => 400,
            Status::Unauthorized => 401,
            Status::NotFound => 404,
            Status::InternalServerError => 500,
        }
    }

    /// The status as a number.
    #[verifier::when_used_as_spec(spec_code)]
    pub fn code(self) -> (code: u16)
        ensures
            code == self.spec_code(),
    {
        match self {
            Status::Success => 200,
            Status::BadRequest => 400,
            Status::Unauthorized => 401,
            Status::NotFound => 404,
            Status::InternalServerError => 500,
        }
    }
}

/// One header of a reply.
#[derive(Clone, Debug, PartialEq, Eq)]
pub struct Header {
    pub name: String,
    pub value: String,
}

/// What a `Header` stands for in contracts.
pub struct HeaderView {
    pub name: Seq<char>,
    pub value: Seq<char>,
}

impl View for Header {
    type V = HeaderView;

    open spec fn view(&self) -> HeaderView {
        HeaderView { name: self.name@, value: self.value@ }
    }
}

/// The body of a reply: a short message for the client, or a file's bytes.
#[derive(Clone, Debug, PartialEq, Eq)]
pub enum Body {
    Text(String),
    Bytes(Vec<u8>),
}

/// What a `Body` stands for in contracts.
pub enum BodyView {
    Text(Seq<char>),
    Bytes(Seq<u8>),
}

impl View for Body {
    type V = BodyView;

    open spec fn view(&self) -> BodyView {
        match self {
            Body::Text(text) => BodyView::Text(text@),
            Body::Bytes(bytes) => BodyView::Bytes(bytes@),
        }
    }
}

/// The answer to one request.
#[derive(Clone, Debug, PartialEq, Eq)]
pub struct Reply {
    pub status: Status,
    pub headers: Vec<Header>,
    pub body: Body,
}

/// What a `Reply` stands for in contracts.
pub struct ReplyView {
    pub status: Status,
    pub headers: Seq<HeaderView>,
    pub body: BodyView,
}

impl View for Reply {
    type V = ReplyView;

    open spec fn view(&self) -> ReplyView {
        ReplyView {
            status: self.status,
            headers: Seq::new(self.headers@.len(), |i: int| self.headers@[i]@),
            body: self.body@,
        }
    }
}

/// The reply that carries nothing but a status and a message.
pub open spec fn message_reply(status: Status, text: Seq<char>) -> ReplyView {
    ReplyView { status, headers: Seq::empty(), body: BodyView::Text(text) }
}

/// The value of the header that has the client save the body under `name`.
/// The name is put between the quotes as it is.
pub open spec fn attachment_disposition(name: Seq<char>) -> Seq<char> {
    "attachment; filename=\""@ + name + "\""@
}

/// The reply that hands out the file `name` with the bytes `content`.
pub open spec fn attachment_reply(name: Seq<char>, content: Seq<u8>) -> ReplyView {
    ReplyView {
        status: Status::Success,
        headers: seq![
            HeaderView { name: "Content-Type"@, value: "application/octet-stream"@ },
            HeaderView { name: "Content-Disposition"@, value: attachment_disposition(name) },
        ],
        body: BodyView::Bytes(content),
    }
}

impl Reply {
    /// A reply of a status and a message, without headers.
    pub fn message(status: Status, text: &str) -> (reply: Reply)
        ensures
            reply@ == message_reply(status, text@),
    {
        let reply = Reply { status, headers: Vec::new(), body: Body::Text(String::from_str(text)) };
        assert(reply@.headers =~= Seq::empty());
        reply
    }

    /// The reply that hands out a file: its bytes as the body, marked as
    /// arbitrary bytes to be saved under the file's name.
    pub fn attachment(name: &str, content: Vec<u8>) -> (reply: Reply)
        ensures
            reply@ == attachment_reply(name@, content@),
    {
        let mut disposition = String::from_str("attachment; filename=\"");
        disposition.append(name);
        disposition.append("\"");
        let mut headers: Vec<Header> = Vec::new();
        headers.push(
            Header {
                name: String::from_str("Content-Type"),
                value: String::from_str("application/octet-stream"),
            },
        );
        headers.push(Header { name: String::from_str("Content-Disposition"), value: disposition });
        let reply = Reply { status: Status::Success, headers, body: Body::Bytes(content) };
        assert(reply@.headers =~= attachment_reply(name@, content@).headers);
        reply
    }
}

/// A credential that does not open the upload.
#[derive(Clone, Copy, Debug, PartialEq, Eq, Structural)]
pub enum AuthError {
    /// The request carries no credential.
    Missing,
    /// The request's credential is not the configured secret.
    Invalid,
}

/// A file name that is not accepted for upload.
#[derive(Clone, Copy, Debug, PartialEq, Eq, Structural)]
pub enum ValidationError {
    /// The name has no extension.
    NoExtension,
    /// The name's extension is not on the allow-list.
    TypeNotAllowed,
}

/// A step on the disk that failed.
#[derive(Clone, Copy, Debug, PartialEq, Eq, Structural)]
pub enum StorageError {
    /// The upload directory could not be made.
    Directory,
    /// A file could not be created.
    Create,
    /// A file's bytes could not be written.
    Save,
    /// A file's bytes could not be read.
    Read,
}

/// Every way a request can fail. A failure ends its request, and only that.
#[derive(Clone, Copy, Debug, PartialEq, Eq, Structural)]
pub enum Failure {
    Auth(AuthError),
    Validation(ValidationError),
    /// The file asked for is not there, or cannot be opened.
    NotFound,
    Storage(StorageError),
}

impl Failure {
    /// The status that a failure is reported with: its class decides.
    pub open spec fn spec_status(self) -> Status {
        match self {
            Failure::Auth(_) => Status::Unauthorized,
            Failure::Validation(_) => Status::BadRequest,
            Failure::NotFound => Status::NotFound,
            Failure::Storage(_) => Status::InternalServerError,
        }
    }

    /// The message that a failure is reported with. It never tells what the
    /// operating system said.
    pub open spec fn spec_message(self) -> Seq<char> {
        match self {
            Failure::Auth(AuthError::Missing) => "Missing Authorization header"@,
            Failure::Auth(AuthError::Invalid) => "Invalid API key"@,
            Failure::Validation(ValidationError::NoExtension) => "File has no extension"@,
            Failure::Validation(ValidationError::TypeNotAllowed) => "File type not allowed"@,
            Failure::NotFound => "File not found"@,
            Failure::Storage(StorageError::Directory) => "Server error"@,
            Failure::Storage(StorageError::Create) => "Failed to create file"@,
            Failure::Storage(StorageError::Save) => "Failed to save file"@,
            Failure::Storage(StorageError::Read) => "Failed to read file"@,
        }
    }

    /// The reply that reports a failure.
    pub open spec fn spec_reply(self) -> ReplyView {
        message_reply(self.spec_status(), self.spec_message())
    }

    /// The status that this failure is reported with.
    #[verifier::when_used_as_spec(spec_status)]
    pub fn status(self) -> (status: Status)
        ensures
            status == self.spec_status(),
    {
        match self {
            Failure::Auth(_) => Status::Unauthorized,
            Failure::Validation(_) => Status::BadRequest,
            Failure::NotFound => Status::NotFound,
            Failure::Storage(_) => Status::InternalServerError,
        }
    }

    /// The message that this failure is reported with.
    pub fn message(self) -> (text: &'static str)
        ensures
            text@ == self.spec_message(),
    {
        match self {
            Failure::Auth(AuthError::Missing) => "Missing Authorization header",
            Failure::Auth(AuthError::Invalid) => "Invalid API key",
            Failure::Validation(ValidationError::NoExtension) => "File has no extension",
            Failure::Validation(ValidationError::TypeNotAllowed) => "File type not allowed",
            Failure::NotFound => "File not found",
            Failure::Storage(StorageError::Directory) => "Server error",
            Failure::Storage(StorageError::Create) => "Failed to create file",
            Failure::Storage(StorageError::Save) => "Failed to save file",
            Failure::Storage(StorageError::Read) => "Failed to read file",
        }
    }

    /// The reply that reports this failure: its status and its message.
    pub fn reply(self) -> (reply: Reply)
        ensures
            reply@ == self.spec_reply(),
    {
        Reply::message(self.status(), self.message())
    }
}

} // verus!
