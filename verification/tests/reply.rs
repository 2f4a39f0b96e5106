use rustdrop::reply::{
    AuthError, Body, Failure, Header, Reply, Status, StorageError, ValidationError,
};

#[test]
fn status_codes() {
    assert_eq!(Status::Success.code(), 200);
    assert_eq!(Status::BadRequest.code(), 400);
    assert_eq!(Status::Unauthorized.code(), 401);
    assert_eq!(Status::NotFound.code(), 404);
    assert_eq!(Status::InternalServerError.code(), 500);
}

#[test]
fn message_reply_has_no_headers() {
    let reply = Reply::message(Status::NotFound, "File not found");
    assert_eq!(
        reply,
        Reply {
            status: Status::NotFound,
            headers: vec![],
            body: Body::Text("File not found".to_string()),
        }
    );
}

#[test]
fn attachment_reply_names_the_file() {
    let reply = Reply::attachment("report.pdf", vec![0x25, 0x50, 0x44, 0x46]);
    assert_eq!(reply.status, Status::Success);
    assert_eq!(
        reply.headers,
        vec![
            Header {
                name: "Content-Type".to_string(),
                value: "application/octet-stream".to_string(),
            },
            Header {
                name: "Content-Disposition".to_string(),
                value: "attachment; filename=\"report.pdf\"".to_string(),
            },
        ]
    );
    assert_eq!(reply.body, Body::Bytes(vec![0x25, 0x50, 0x44, 0x46]));
}

#[test]
fn attachment_name_is_not_escaped() {
    let reply = Reply::attachment("a\"b.txt", vec![]);
    assert_eq!(reply.headers[1].value, "attachment; filename=\"a\"b.txt\"");
    assert_eq!(reply.body, Body::Bytes(vec![]));
}

#[test]
fn failures_of_one_class_share_a_status() {
    assert_eq!(Failure::Auth(AuthError::Missing).status(), Status::Unauthorized);
    assert_eq!(Failure::Auth(AuthError::Invalid).status(), Status::Unauthorized);
    assert_eq!(Failure::Validation(ValidationError::NoExtension).status(), Status::BadRequest);
    assert_eq!(Failure::Validation(ValidationError::TypeNotAllowed).status(), Status::BadRequest);
    assert_eq!(Failure::NotFound.status(), Status::NotFound);
    for error in [
        StorageError::Directory,
        StorageError::Create,
        StorageError::Save,
        StorageError::Read,
    ] {
        assert_eq!(Failure::Storage(error).status(), Status::InternalServerError);
    }
}

#[test]
fn failure_messages() {
    assert_eq!(Failure::Auth(AuthError::Missing).message(), "Missing Authorization header");
    assert_eq!(Failure::Auth(AuthError::Invalid).message(), "Invalid API key");
    assert_eq!(
        Failure::Validation(ValidationError::NoExtension).message(),
        "File has no extension"
    );
    assert_eq!(
        Failure::Validation(ValidationError::TypeNotAllowed).message(),
        "File type not allowed"
    );
    assert_eq!(Failure::NotFound.message(), "File not found");
    assert_eq!(Failure::Storage(StorageError::Directory).message(), "Server error");
    assert_eq!(Failure::Storage(StorageError::Create).message(), "Failed to create file");
    assert_eq!(Failure::Storage(StorageError::Save).message(), "Failed to save file");
    assert_eq!(Failure::Storage(StorageError::Read).message(), "Failed to read file");
}

#[test]
fn failure_reply_is_status_and_message() {
    assert_eq!(
        Failure::Storage(StorageError::Save).reply(),
        Reply {
            status: Status::InternalServerError,
            headers: vec![],
            body: Body::Text("Failed to save file".to_string()),
        }
    );
    assert_eq!(
        Failure::Auth(AuthError::Invalid).reply(),
        Reply::message(Status::Unauthorized, "Invalid API key")
    );
}
