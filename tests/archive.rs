use std::io::{Cursor, Write};

use chromedriver_update::archive::{extract_driver, find_driver_entry, unpack_driver};
use chromedriver_update::error::DriverError;
use zip::write::SimpleFileOptions;

fn zip_of(entries: &[(&str, &[u8])]) -> Vec<u8> {
    let mut writer = zip::ZipWriter::new(Cursor::new(Vec::new()));
    for (name, data) in entries {
        writer.start_file(*name, SimpleFileOptions::default()).unwrap();
        writer.write_all(data).unwrap();
    }
    writer.finish().unwrap().into_inner()
}

#[test]
fn installs_exactly_the_matching_entry() {
    let bytes = zip_of(&[
        ("other/thing", b"not the driver"),
        ("chromedriver-mac-x64/chromedriver", b"\x7fELF driver bytes"),
    ]);
    let r = unpack_driver(bytes, "chromedriver-mac-x64/chromedriver");
    assert_eq!(r, Ok(b"\x7fELF driver bytes".to_vec()));
}

#[test]
fn missing_entry_is_reported() {
    let bytes = zip_of(&[
        ("other/thing", b"x"),
        ("chromedriver-mac-x64/chromedriver.bak", b"y"),
        ("chromedriver-mac-x64/", b""),
    ]);
    let r = unpack_driver(bytes, "chromedriver-mac-x64/chromedriver");
    assert_eq!(
        r,
        Err(DriverError::DriverEntryNotFound("chromedriver-mac-x64/chromedriver".to_string()))
    );
}

#[test]
fn bytes_that_are_no_archive_are_invalid() {
    let r = unpack_driver(b"<html>not found</html>".to_vec(), "chromedriver-linux64/chromedriver");
    assert_eq!(r, Err(DriverError::ArchiveInvalid));
    assert_eq!(unpack_driver(Vec::new(), "a"), Err(DriverError::ArchiveInvalid));
}

#[test]
fn empty_archive_has_no_driver() {
    let bytes = zip_of(&[]);
    assert_eq!(unpack_driver(bytes, "a/b"), Err(DriverError::DriverEntryNotFound("a/b".to_string())));
}

#[test]
fn finds_the_index_of_the_entry() {
    let bytes = zip_of(&[("a", b"1"), ("b/c", b"2"), ("b/c/d", b"3")]);
    let mut archive = zip::ZipArchive::new(Cursor::new(bytes)).unwrap();
    assert_eq!(find_driver_entry(&archive, "b/c"), Some(1));
    assert_eq!(find_driver_entry(&archive, "b"), None);
    assert_eq!(extract_driver(&mut archive, "b/c/d"), Ok(b"3".to_vec()));
    assert_eq!(extract_driver(&mut archive, "a"), Ok(b"1".to_vec()));
}

#[test]
fn fuzzy_names_are_rejected() {
    let bytes = zip_of(&[
        ("chromedriver-mac-x64/chromedriver.exe", b"1"),
        ("x/chromedriver-mac-x64/chromedriver", b"2"),
        ("chromedriver-mac-x64/", b""),
        ("Chromedriver-mac-x64/chromedriver", b"3"),
    ]);
    assert_eq!(
        unpack_driver(bytes, "chromedriver-mac-x64/chromedriver"),
        Err(DriverError::DriverEntryNotFound("chromedriver-mac-x64/chromedriver".to_string()))
    );
}
