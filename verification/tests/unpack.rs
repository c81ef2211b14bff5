use std::io::{Cursor, Write};

use gecko_driver::unpack::{is_plain, names_directory, stays_inside};
use gecko_driver::{
    plan_entries, plan_entry, read_entries, unpack_plan, Error, FsAction, HostFamily, ZipEntry,
};
use zip::write::FileOptions;
use zip::{CompressionMethod, ZipWriter};

fn path(parts: &[&str]) -> Vec<String> {
    parts.iter().map(|p| p.to_string()).collect()
}

fn stored() -> FileOptions {
    FileOptions::default().compression_method(CompressionMethod::Stored)
}

fn deflated() -> FileOptions {
    FileOptions::default().compression_method(CompressionMethod::Deflated)
}

fn archive_of(build: impl FnOnce(&mut ZipWriter<Cursor<Vec<u8>>>)) -> Vec<u8> {
    let mut writer = ZipWriter::new(Cursor::new(Vec::new()));
    build(&mut writer);
    writer.finish().unwrap().into_inner()
}

#[test]
fn file_entry_becomes_write_action() {
    let bytes = archive_of(|w| {
        w.start_file("geckodriver.exe", stored().unix_permissions(0o755))
            .unwrap();
        w.write_all(b"MZ driver").unwrap();
    });
    assert_eq!(
        unpack_plan(bytes, HostFamily::Unix),
        Ok(vec![FsAction::WriteFile {
            path: path(&["geckodriver.exe"]),
            data: b"MZ driver".to_vec(),
            mode: Some(0o100755),
        }])
    );
}

#[test]
fn windows_host_drops_permission_bits() {
    let bytes = archive_of(|w| {
        w.start_file("geckodriver.exe", stored().unix_permissions(0o755))
            .unwrap();
        w.write_all(b"MZ driver").unwrap();
    });
    assert_eq!(
        unpack_plan(bytes, HostFamily::Windows),
        Ok(vec![FsAction::WriteFile {
            path: path(&["geckodriver.exe"]),
            data: b"MZ driver".to_vec(),
            mode: None,
        }])
    );
}

#[test]
fn deflated_entry_is_decompressed() {
    let contents = vec![7u8; 5000];
    let bytes = archive_of(|w| {
        w.start_file("bin/driver", deflated()).unwrap();
        w.write_all(&contents).unwrap();
    });
    assert_eq!(
        unpack_plan(bytes, HostFamily::Unix),
        Ok(vec![FsAction::WriteFile {
            path: path(&["bin", "driver"]),
            data: contents.clone(),
            mode: Some(0o100644),
        }])
    );
}

#[test]
fn entries_keep_archive_order() {
    let bytes = archive_of(|w| {
        w.add_directory("bin/", stored()).unwrap();
        w.start_file("bin/b", stored()).unwrap();
        w.write_all(b"second").unwrap();
        w.start_file("a", stored()).unwrap();
        w.write_all(b"third").unwrap();
    });
    assert_eq!(
        unpack_plan(bytes, HostFamily::Unix),
        Ok(vec![
            FsAction::CreateDir {
                path: path(&["bin"]),
                mode: Some(0o40755),
            },
            FsAction::WriteFile {
                path: path(&["bin", "b"]),
                data: b"second".to_vec(),
                mode: Some(0o100644),
            },
            FsAction::WriteFile {
                path: path(&["a"]),
                data: b"third".to_vec(),
                mode: Some(0o100644),
            },
        ])
    );
}

#[test]
fn empty_archive_has_empty_plan() {
    let bytes = archive_of(|_| {});
    assert_eq!(unpack_plan(bytes, HostFamily::Unix), Ok(vec![]));
}

#[test]
fn garbage_is_an_archive_error() {
    assert_eq!(
        unpack_plan(b"this is no zip archive at all".to_vec(), HostFamily::Unix),
        Err(Error::Archive)
    );
    assert_eq!(unpack_plan(Vec::new(), HostFamily::Windows), Err(Error::Archive));
}

#[test]
fn truncated_archive_is_an_archive_error() {
    let mut bytes = archive_of(|w| {
        w.start_file("geckodriver", stored()).unwrap();
        w.write_all(&[1u8; 300]).unwrap();
    });
    bytes.truncate(bytes.len() / 2);
    assert_eq!(unpack_plan(bytes, HostFamily::Unix), Err(Error::Archive));
}

#[test]
fn corrupt_contents_are_an_archive_error() {
    let mut bytes = archive_of(|w| {
        w.start_file("geckodriver", stored()).unwrap();
        w.write_all(&[1u8; 300]).unwrap();
    });
    // Flip one byte of the stored contents: the checksum no longer matches.
    let at = bytes.iter().position(|b| *b == 1).unwrap() + 100;
    bytes[at] ^= 0xff;
    assert_eq!(unpack_plan(bytes, HostFamily::Unix), Err(Error::Archive));
}

#[test]
fn traversal_entries_stay_inside_the_install_directory() {
    let bytes = archive_of(|w| {
        w.start_file("../../etc/passwd", stored()).unwrap();
        w.write_all(b"root").unwrap();
        w.start_file("/abs/olute", stored()).unwrap();
        w.write_all(b"abs").unwrap();
        w.start_file("a/./b/../c", stored()).unwrap();
        w.write_all(b"c").unwrap();
    });
    let plan = unpack_plan(bytes, HostFamily::Unix).unwrap();
    assert_eq!(
        plan,
        vec![
            FsAction::WriteFile {
                path: path(&["etc", "passwd"]),
                data: b"root".to_vec(),
                mode: Some(0o100644),
            },
            FsAction::WriteFile {
                path: path(&["abs", "olute"]),
                data: b"abs".to_vec(),
                mode: Some(0o100644),
            },
            FsAction::WriteFile {
                path: path(&["a", "b", "c"]),
                data: b"c".to_vec(),
                mode: Some(0o100644),
            },
        ]
    );
    for action in &plan {
        let target = match action {
            FsAction::CreateDir { path, .. } => path,
            FsAction::WriteFile { path, .. } => path,
        };
        assert!(stays_inside(target, HostFamily::Unix));
        for part in target {
            assert_ne!(part, "..");
            assert!(!part.contains('/'));
        }
    }
}

#[test]
fn plan_entry_refuses_parent_component() {
    let entry = ZipEntry {
        name: "../evil".to_string(),
        path: path(&["..", "evil"]),
        unix_mode: None,
        data: b"x".to_vec(),
    };
    assert_eq!(plan_entry(entry, HostFamily::Unix), Err(Error::Archive));
}

#[test]
fn plan_entry_refuses_separator_inside_component() {
    let entry = ZipEntry {
        name: "x".to_string(),
        path: path(&["a/../../b"]),
        unix_mode: None,
        data: Vec::new(),
    };
    assert_eq!(plan_entry(entry, HostFamily::Unix), Err(Error::Archive));
}

#[test]
fn plan_entry_refuses_drive_prefix_on_windows_only() {
    let entry = || ZipEntry {
        name: "C:evil".to_string(),
        path: path(&["C:evil"]),
        unix_mode: Some(0o644),
        data: b"x".to_vec(),
    };
    assert_eq!(
        plan_entry(entry(), HostFamily::Windows),
        Err(Error::Archive)
    );
    assert_eq!(
        plan_entry(entry(), HostFamily::Unix),
        Ok(FsAction::WriteFile {
            path: path(&["C:evil"]),
            data: b"x".to_vec(),
            mode: Some(0o644),
        })
    );
}

#[test]
fn plan_entry_directory_by_trailing_slash() {
    let entry = ZipEntry {
        name: "bin/".to_string(),
        path: path(&["bin"]),
        unix_mode: Some(0o40755),
        data: Vec::new(),
    };
    assert_eq!(
        plan_entry(entry, HostFamily::Unix),
        Ok(FsAction::CreateDir {
            path: path(&["bin"]),
            mode: Some(0o40755),
        })
    );
}

#[test]
fn plan_entry_without_mode_sets_none() {
    let entry = ZipEntry {
        name: "driver".to_string(),
        path: path(&["driver"]),
        unix_mode: None,
        data: b"d".to_vec(),
    };
    assert_eq!(
        plan_entry(entry, HostFamily::Unix),
        Ok(FsAction::WriteFile {
            path: path(&["driver"]),
            data: b"d".to_vec(),
            mode: None,
        })
    );
}

#[test]
fn plan_entry_with_empty_path_targets_the_root() {
    let entry = ZipEntry {
        name: "/".to_string(),
        path: Vec::new(),
        unix_mode: None,
        data: Vec::new(),
    };
    assert_eq!(
        plan_entry(entry, HostFamily::Windows),
        Ok(FsAction::CreateDir {
            path: Vec::new(),
            mode: None,
        })
    );
}

#[test]
fn plain_components() {
    for family in [HostFamily::Unix, HostFamily::Windows] {
        assert!(is_plain("geckodriver.exe", family));
        assert!(is_plain("...", family));
        assert!(is_plain(".hidden", family));
        assert!(is_plain("ünïcödé", family));
        assert!(!is_plain("", family));
        assert!(!is_plain(".", family));
        assert!(!is_plain("..", family));
        assert!(!is_plain("a/b", family));
        assert!(!is_plain("a\0b", family));
    }
    assert!(is_plain("a\\b", HostFamily::Unix));
    assert!(is_plain("a:b", HostFamily::Unix));
    assert!(!is_plain("a\\b", HostFamily::Windows));
    assert!(!is_plain("a:b", HostFamily::Windows));
}

#[test]
fn directory_names() {
    assert!(names_directory("bin/"));
    assert!(names_directory("/"));
    assert!(!names_directory(""));
    assert!(!names_directory("bin"));
    assert!(!names_directory("bin/driver"));
    assert!(!names_directory("bin\\"));
}

// One stored file `a` that holds `x`, written out byte by byte.
fn hand_made_archive() -> Vec<u8> {
    vec![
        0x50, 0x4b, 0x03, 0x04, 0x14, 0x00, 0x00, 0x00, 0x00, 0x00, 0x00, 0x00,
        0x21, 0x00, 0x83, 0x16, 0xdc, 0x8c, 0x01, 0x00, 0x00, 0x00, 0x01, 0x00,
        0x00, 0x00, 0x01, 0x00, 0x00, 0x00, 0x61, 0x78, 0x50, 0x4b, 0x01, 0x02,
        0x1e, 0x03, 0x14, 0x00, 0x00, 0x00, 0x00, 0x00, 0x00, 0x00, 0x21, 0x00,
        0x83, 0x16, 0xdc, 0x8c, 0x01, 0x00, 0x00, 0x00, 0x01, 0x00, 0x00, 0x00,
        0x01, 0x00, 0x00, 0x00, 0x00, 0x00, 0x00, 0x00, 0x00, 0x00, 0x00, 0x00,
        0xa4, 0x81, 0x00, 0x00, 0x00, 0x00, 0x61, 0x50, 0x4b, 0x05, 0x06, 0x00,
        0x00, 0x00, 0x00, 0x01, 0x00, 0x01, 0x00, 0x2f, 0x00, 0x00, 0x00, 0x20,
        0x00, 0x00, 0x00, 0x00, 0x00,
    ]
}

fn archive_with_aes_field_but_no_encryption_flag() -> Vec<u8> {
    vec![
        0x50, 0x4b, 0x03, 0x04, 0x14, 0x00, 0x00, 0x00, 0x00, 0x00, 0x00, 0x00,
        0x21, 0x00, 0x83, 0x16, 0xdc, 0x8c, 0x01, 0x00, 0x00, 0x00, 0x01, 0x00,
        0x00, 0x00, 0x01, 0x00, 0x00, 0x00, 0x61, 0x78, 0x50, 0x4b, 0x01, 0x02,
        0x1e, 0x03, 0x14, 0x00, 0x00, 0x00, 0x00, 0x00, 0x00, 0x00, 0x21, 0x00,
        0x83, 0x16, 0xdc, 0x8c, 0x01, 0x00, 0x00, 0x00, 0x01, 0x00, 0x00, 0x00,
        0x01, 0x00, 0x0b, 0x00, 0x00, 0x00, 0x00, 0x00, 0x00, 0x00, 0x00, 0x00,
        0xa4, 0x81, 0x00, 0x00, 0x00, 0x00, 0x61, 0x01, 0x99, 0x07, 0x00, 0x02,
        0x00, 0x41, 0x45, 0x03, 0x00, 0x00, 0x50, 0x4b, 0x05, 0x06, 0x00, 0x00,
        0x00, 0x00, 0x01, 0x00, 0x01, 0x00, 0x3a, 0x00, 0x00, 0x00, 0x20, 0x00,
        0x00, 0x00, 0x00, 0x00,
    ]
}

fn archive_with_overflowing_header_offset() -> Vec<u8> {
    vec![
        0x00, 0x50, 0x4b, 0x03, 0x04, 0x14, 0x00, 0x00, 0x00, 0x00, 0x00, 0x00,
        0x00, 0x21, 0x00, 0x83, 0x16, 0xdc, 0x8c, 0x01, 0x00, 0x00, 0x00, 0x01,
        0x00, 0x00, 0x00, 0x01, 0x00, 0x00, 0x00, 0x61, 0x78, 0x50, 0x4b, 0x01,
        0x02, 0x1e, 0x03, 0x14, 0x00, 0x00, 0x00, 0x00, 0x00, 0x00, 0x00, 0x21,
        0x00, 0x83, 0x16, 0xdc, 0x8c, 0x01, 0x00, 0x00, 0x00, 0x01, 0x00, 0x00,
        0x00, 0x01, 0x00, 0x0c, 0x00, 0x00, 0x00, 0x00, 0x00, 0x00, 0x00, 0x00,
        0x00, 0xa4, 0x81, 0xff, 0xff, 0xff, 0xff, 0x61, 0x01, 0x00, 0x08, 0x00,
        0xff, 0xff, 0xff, 0xff, 0xff, 0xff, 0xff, 0xff, 0x50, 0x4b, 0x05, 0x06,
        0x00, 0x00, 0x00, 0x00, 0x01, 0x00, 0x01, 0x00, 0x3b, 0x00, 0x00, 0x00,
        0x20, 0x00, 0x00, 0x00, 0x00, 0x00,
    ]
}

#[test]
fn hand_made_archive_is_read() {
    assert_eq!(
        unpack_plan(hand_made_archive(), HostFamily::Windows),
        Ok(vec![FsAction::WriteFile {
            path: path(&["a"]),
            data: b"x".to_vec(),
            mode: None,
        }])
    );
}

#[test]
fn aes_field_without_encryption_flag_is_an_archive_error() {
    assert_eq!(
        unpack_plan(
            archive_with_aes_field_but_no_encryption_flag(),
            HostFamily::Unix
        ),
        Err(Error::Archive)
    );
}

#[test]
fn overflowing_header_offset_is_an_archive_error() {
    assert_eq!(
        unpack_plan(archive_with_overflowing_header_offset(), HostFamily::Unix),
        Err(Error::Archive)
    );
}

#[test]
fn read_entries_gives_name_path_mode_and_contents() {
    let bytes = archive_of(|w| {
        w.add_directory("bin", stored()).unwrap();
        w.start_file("bin\\tool/../driver", stored().unix_permissions(0o700))
            .unwrap();
        w.write_all(b"contents").unwrap();
    });
    assert_eq!(
        read_entries(bytes),
        Ok(vec![
            ZipEntry {
                name: "bin/".to_string(),
                path: path(&["bin"]),
                unix_mode: Some(0o40755),
                data: Vec::new(),
            },
            ZipEntry {
                name: "bin\\tool/../driver".to_string(),
                path: path(&["bin", "tool", "driver"]),
                unix_mode: Some(0o100700),
                data: b"contents".to_vec(),
            },
        ])
    );
}

#[test]
fn read_entries_of_garbage_is_an_archive_error() {
    assert_eq!(read_entries(vec![0u8; 64]), Err(Error::Archive));
}

#[test]
fn tame_names_split_at_both_separators() {
    let bytes = archive_of(|w| {
        for name in ["a//b", "./x/./y/", "\\lead", "..", "deep/../../up", "dots.../.../k"] {
            w.start_file(name, stored()).unwrap();
        }
    });
    let paths: Vec<Vec<String>> = read_entries(bytes)
        .unwrap()
        .into_iter()
        .map(|e| e.path)
        .collect();
    assert_eq!(
        paths,
        vec![
            path(&["a", "b"]),
            path(&["x", "y"]),
            path(&["lead"]),
            path(&[]),
            path(&["deep", "up"]),
            path(&["dots...", "...", "k"]),
        ]
    );
}

#[test]
fn plan_entries_keeps_the_order() {
    let entries = vec![
        ZipEntry {
            name: "one/".to_string(),
            path: path(&["one"]),
            unix_mode: None,
            data: Vec::new(),
        },
        ZipEntry {
            name: "one/two".to_string(),
            path: path(&["one", "two"]),
            unix_mode: Some(0o600),
            data: b"2".to_vec(),
        },
        ZipEntry {
            name: "three".to_string(),
            path: path(&["three"]),
            unix_mode: Some(0o644),
            data: b"3".to_vec(),
        },
    ];
    assert_eq!(
        plan_entries(entries, HostFamily::Unix),
        Ok(vec![
            FsAction::CreateDir {
                path: path(&["one"]),
                mode: None,
            },
            FsAction::WriteFile {
                path: path(&["one", "two"]),
                data: b"2".to_vec(),
                mode: Some(0o600),
            },
            FsAction::WriteFile {
                path: path(&["three"]),
                data: b"3".to_vec(),
                mode: Some(0o644),
            },
        ])
    );
}

#[test]
fn plan_entries_of_nothing_is_the_empty_plan() {
    assert_eq!(plan_entries(Vec::new(), HostFamily::Windows), Ok(vec![]));
}

#[test]
fn plan_entries_fails_on_one_escaping_entry() {
    let entry = |part: &str| ZipEntry {
        name: part.to_string(),
        path: path(&[part]),
        unix_mode: None,
        data: Vec::new(),
    };
    assert_eq!(
        plan_entries(vec![entry("a"), entry(".."), entry("b")], HostFamily::Unix),
        Err(Error::Archive)
    );
    assert_eq!(
        plan_entries(vec![entry("a"), entry("b"), entry("")], HostFamily::Unix),
        Err(Error::Archive)
    );
}
