use rustdrop::auth::Config;
use rustdrop::download::{serve_file, source, ReadOutcome};
use rustdrop::reply::{Body, Status};
use rustdrop::storage::{Directory, Location};
use rustdrop::upload::{Action, Event, Upload};

/// Uploads one field and returns the files that were written, with their
/// bytes.
fn upload_one(name: &str, data: &[u8]) -> Vec<(Location, Vec<u8>)> {
    let config = Config::new("mysecretkey123".to_string());
    let events = vec![
        Event::DirectoryReady,
        Event::Field { file_name: Some(name.to_string()) },
        Event::Body { data: data.to_vec() },
        Event::Created,
        Event::Written,
        Event::EndOfFields,
    ];
    let request = Event::Request { credential: Some(b"mysecretkey123".to_vec()) };
    let mut transition = Upload::new().step(&config, request).unwrap();
    let mut written = vec![];
    for event in events {
        if let Action::WriteFile { location, data } = transition.action {
            written.push((location, data));
        }
        transition = transition.upload.step(&config, event).unwrap();
    }
    match transition.action {
        Action::Respond { reply } => assert_eq!(reply.status, Status::Success),
        other => panic!("the request is not answered: {:?}", other),
    }
    written
}

#[test]
fn uploaded_bytes_come_back_unchanged() {
    let contents: Vec<Vec<u8>> =
        vec![vec![], vec![0], vec![0x25, 0x50, 0x44, 0x46], (0..=255).collect()];
    for name in ["report.pdf", "photo.jpeg", "notes.txt", "a.b.png", "x.jpg"] {
        for content in &contents {
            let written = upload_one(name, content);
            assert_eq!(written.len(), 1);
            let (location, bytes) = &written[0];
            assert_eq!(location.directory, Directory::Upload);
            assert_eq!(location.name, name);

            // The file is offered for download under the same name.
            assert_eq!(source(name).name, location.name);
            let reply = serve_file(name, ReadOutcome::Content(bytes.clone()));
            assert_eq!(reply.status, Status::Success);
            assert_eq!(reply.body, Body::Bytes(content.clone()));
        }
    }
}

#[test]
fn upload_and_download_of_report_pdf() {
    let written = upload_one("report.pdf", &[0x25, 0x50, 0x44, 0x46]);
    assert_eq!(
        written,
        vec![(
            Location { directory: Directory::Upload, name: "report.pdf".to_string() },
            vec![0x25, 0x50, 0x44, 0x46]
        )]
    );
    let reply = serve_file("report.pdf", ReadOutcome::Content(written[0].1.clone()));
    assert_eq!(reply.status.code(), 200);
    assert_eq!(reply.headers[1].name, "Content-Disposition");
    assert_eq!(reply.headers[1].value, "attachment; filename=\"report.pdf\"");
    assert_eq!(reply.body, Body::Bytes(vec![0x25, 0x50, 0x44, 0x46]));
}
