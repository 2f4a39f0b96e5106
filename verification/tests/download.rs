use rustdrop::download::{serve_file, source, ReadOutcome};
use rustdrop::reply::{Body, Header, Reply, Status};
use rustdrop::storage::{Directory, Location};

#[test]
fn download_reads_from_the_shared_directory() {
    assert_eq!(
        source("report.pdf"),
        Location { directory: Directory::Shared, name: "report.pdf".to_string() }
    );
}

#[test]
fn download_source_is_not_normalised() {
    assert_eq!(source("../upload/report.pdf").name, "../upload/report.pdf");
    assert_eq!(source("../upload/report.pdf").directory, Directory::Shared);
}

#[test]
fn missing_file_is_not_found() {
    assert_eq!(
        serve_file("nothing.txt", ReadOutcome::Unavailable),
        Reply {
            status: Status::NotFound,
            headers: vec![],
            body: Body::Text("File not found".to_string()),
        }
    );
}

#[test]
fn failed_read_is_a_server_error() {
    assert_eq!(
        serve_file("report.pdf", ReadOutcome::Failed),
        Reply {
            status: Status::InternalServerError,
            headers: vec![],
            body: Body::Text("Failed to read file".to_string()),
        }
    );
}

#[test]
fn download_of_report_pdf() {
    let reply = serve_file("report.pdf", ReadOutcome::Content(vec![0x25, 0x50, 0x44, 0x46]));
    assert_eq!(reply.status.code(), 200);
    assert_eq!(
        reply.headers,
        vec![
            Header {
                name: "Content-Type".to_string(),
                value: "application/octet-stream".to_string(),
            },
            Header {
                name: "Content-Disposition".to_string(),
                value: "attachment; filename=\"report.pdf\"".to_string(),
            },
        ]
    );
    assert_eq!(reply.body, Body::Bytes(vec![0x25, 0x50, 0x44, 0x46]));
}

#[test]
fn empty_file_is_served_empty() {
    let reply = serve_file("empty.txt", ReadOutcome::Content(vec![]));
    assert_eq!(reply.status, Status::Success);
    assert_eq!(reply.body, Body::Bytes(vec![]));
}

#[test]
fn name_goes_into_the_header_as_it_is() {
    let reply = serve_file("a b\".txt", ReadOutcome::Content(vec![1]));
    assert_eq!(reply.headers[1].value, "attachment; filename=\"a b\".txt\"");
}
