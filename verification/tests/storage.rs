use rustdrop::storage::{Directory, Location};

#[test]
fn directories_have_their_own_names() {
    assert_eq!(Directory::Upload.path(), "upload");
    assert_eq!(Directory::Shared.path(), "shared");
    assert_ne!(Directory::Upload.path(), Directory::Shared.path());
}

#[test]
fn locations_keep_the_name_as_it_came() {
    assert_eq!(
        Location::uploaded("../report.pdf".to_string()),
        Location { directory: Directory::Upload, name: "../report.pdf".to_string() }
    );
    assert_eq!(
        Location::shared("a b/c.txt".to_string()),
        Location { directory: Directory::Shared, name: "a b/c.txt".to_string() }
    );
}
