use cat_launcher::archive::{
    archive_format, check_archive_paths, file_extension, file_stem, zip_directory_entry,
    ArchiveFormat, ArchivePathError,
};
use std::path::Path;

#[test]
fn formats_by_extension() {
    assert_eq!(archive_format(Some("cdda-windows.zip")), Some(ArchiveFormat::Zip));
    assert_eq!(archive_format(Some("cdda-linux.tar.gz")), Some(ArchiveFormat::TarGz));
    assert_eq!(archive_format(Some("cdda-osx.dmg")), None);
    assert_eq!(archive_format(Some("data.gz")), None);
    assert_eq!(archive_format(Some("data.tgz")), None);
    assert_eq!(archive_format(Some("data.TAR.gz")), None);
    assert_eq!(archive_format(Some("data.ZIP")), None);
    assert_eq!(archive_format(Some(".zip")), None);
    assert_eq!(archive_format(Some("zip")), None);
    assert_eq!(archive_format(Some(".tar.gz")), None);
    assert_eq!(archive_format(Some("a.tar.gz")), Some(ArchiveFormat::TarGz));
    assert_eq!(archive_format(None), None);
}

#[test]
fn extension_and_stem_match_std_path() {
    let names = [
        "a.zip", "a.tar.gz", ".bashrc", "..", "a.", "noext", ".a.b", "x..y", "...", "a.b.c",
    ];
    for name in names {
        let p = Path::new(name);
        assert_eq!(
            file_extension(name),
            p.extension().and_then(|s| s.to_str()),
            "extension of {:?}",
            name
        );
        if let Some(stem) = p.file_stem().and_then(|s| s.to_str()) {
            assert_eq!(file_stem(name), stem, "stem of {:?}", name);
        }
    }
}

#[test]
fn archive_path_checks() {
    assert_eq!(
        check_archive_paths(true, true),
        Err(ArchivePathError::DestinationIsDirectory)
    );
    assert_eq!(
        check_archive_paths(true, false),
        Err(ArchivePathError::DestinationIsDirectory)
    );
    assert_eq!(
        check_archive_paths(false, false),
        Err(ArchivePathError::InvalidOrNonExistentSourceDir)
    );
    assert_eq!(check_archive_paths(false, true), Ok(()));
}

#[test]
fn directory_entries() {
    assert_eq!(zip_directory_entry(""), None);
    assert_eq!(zip_directory_entry("save").as_deref(), Some("save/"));
    assert_eq!(zip_directory_entry("save/world").as_deref(), Some("save/world/"));
}
