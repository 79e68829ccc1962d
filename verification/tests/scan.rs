use wallrand::entries::collect_images;
use wallrand::entries::filter_images;
use wallrand::entries::DirEntry;
use wallrand::entries::EntryKind;
use wallrand::errors::RunError;

fn entry(name: &str, kind: EntryKind) -> DirEntry {
    DirEntry { name: String::from(name), kind }
}

#[test]
fn keeps_exactly_the_matching_files_in_order() {
    let entries = vec![
        entry("a.png", EntryKind::File),
        entry("b.txt", EntryKind::File),
        entry("sub.png", EntryKind::Directory),
        entry("c.jpg", EntryKind::File),
        entry("pipe.gif", EntryKind::Other),
        entry("d.jpeg", EntryKind::File),
    ];
    let images = filter_images(&entries);
    assert_eq!(images, vec!["a.png".to_string(), "c.jpg".to_string(), "d.jpeg".to_string()]);
}

#[test]
fn directories_named_like_images_are_excluded() {
    let entries = vec![entry("holiday.png", EntryKind::Directory)];
    assert!(filter_images(&entries).is_empty());
}

#[test]
fn empty_directory_yields_no_images() {
    let entries: Vec<DirEntry> = Vec::new();
    assert!(filter_images(&entries).is_empty());
}

#[test]
fn no_matching_file_is_an_input_error_naming_the_path() {
    let path = String::from("/home/me/pics");
    let entries = vec![entry("b.txt", EntryKind::File), entry("sub", EntryKind::Directory)];
    let r = collect_images(&path, &entries);
    match r {
        Err(e) => {
            assert!(matches!(e, RunError::NoImages(_)));
            assert_eq!(e.exit_code(), 66);
            assert_eq!(
                e.message().as_str(),
                "No supported images found in directory: /home/me/pics"
            );
        }
        Ok(_) => panic!("expected the no-images error"),
    }
}

#[test]
fn a_matching_file_yields_the_collection() {
    let path = String::from("/home/me/pics");
    let entries = vec![entry("b.txt", EntryKind::File), entry("a.png", EntryKind::File)];
    let r = collect_images(&path, &entries);
    match r {
        Ok(images) => assert_eq!(images, vec!["a.png".to_string()]),
        Err(_) => panic!("expected a collection"),
    }
}
