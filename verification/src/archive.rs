use vstd::prelude::*;
use vstd::string::*;

use crate::text::str_eq;

verus! {

/// The archive formats that releases and backups come in.
#[derive(Debug, PartialEq, Eq, Structural, Clone, Copy)]
pub enum ArchiveFormat {
    /// A `.zip` archive.
    Zip,
    /// A gzip-compressed tarball, `.tar.gz`.
    TarGz,
}

/// The index of the last occurrence of `c` in `s`, if any.
pub open spec fn rfind_char(s: Seq<char>, c: char) -> Option<int>
    decreases s.len(),
{
    if s.len() == 0 {
        None
    } else if s.last() == c {
        Some(s.len() - 1)
    } else {
        rfind_char(s.drop_last(), c)
    }
}

proof fn lemma_rfind_char(s: Seq<char>, c: char)
    ensures
        match rfind_char(s, c) {
            Some(i) => 0 <= i < s.len() && s[i] == c && forall|k: int| i < k < s.len() ==> s[k]
                != c,
            None => forall|k: int| 0 <= k < s.len() ==> s[k] != c,
        },
    decreases s.len(),
{
    if s.len() > 0 && s.last() != c {
        lemma_rfind_char(s.drop_last(), c);
        assert forall|k: int| 0 <= k < s.len() - 1 implies s[k] == s.drop_last()[k] by {}
    }
}

fn rfind_char_index(s: &str, c: char) -> (res: Option<usize>)
    ensures
        match res {
            Some(i) => rfind_char(s@, c) == Some(i as int),
            None => rfind_char(s@, c) is None,
        },
{
    let n = s.unicode_len();
    let mut j: usize = n;
    assert(s@.subrange(0, n as int) =~= s@);
    while j > 0
        invariant
            n == s@.len(),
            j <= n,
            rfind_char(s@, c) == rfind_char(s@.subrange(0, j as int), c),
        decreases j,
    {
        let ghost sub = s@.subrange(0, j as int);
        if s.get_char(j - 1) == c {
            assert(sub.last() == c);
            return Some(j - 1);
        }
        assert(sub.drop_last() =~= s@.subrange(0, j - 1));
        j = j - 1;
    }
    None
}

/// The extension of a file name as `Path::extension` reads it: the text after
/// the last dot, unless that dot begins the name or the name is `..`.
pub open spec fn extension_of(name: Seq<char>) -> Option<Seq<char>> {
    if name == ".."@ {
        None
    } else {
        match rfind_char(name, '.') {
            None => None,
            Some(p) => if p == 0 {
                None
            } else {
                Some(name.subrange(p + 1, name.len() as int))
            },
        }
    }
}

/// The stem of a file name as `Path::file_stem` reads it: the text before the
/// last dot, or the whole name where `extension_of` finds no extension.
pub open spec fn stem_of(name: Seq<char>) -> Seq<char> {
    if name == ".."@ {
        name
    } else {
        match rfind_char(name, '.') {
            None => name,
            Some(p) => if p == 0 {
                name
            } else {
                name.subrange(0, p)
            },
        }
    }
}

/// The extension of a single path component, `None` for `.` and `..`, which
/// name no file.
pub open spec fn component_extension(name: Seq<char>) -> Option<Seq<char>> {
    if name == "."@ || name == ".."@ || name.len() == 0 {
        None
    } else {
        extension_of(name)
    }
}

/// The archive format a file name announces: `zip` as the extension, or `gz`
/// with `tar` as the extension of the stem.
pub open spec fn archive_format_of(file_name: Option<Seq<char>>) -> Option<ArchiveFormat> {
    match file_name {
        None => None,
        Some(name) => match extension_of(name) {
            Some(ext) => if ext == "zip"@ {
                Some(ArchiveFormat::Zip)
            } else if ext == "gz"@ {
                if component_extension(stem_of(name)) == Some("tar"@) {
                    Some(ArchiveFormat::TarGz)
                } else {
                    None
                }
            } else {
                None
            },
            None => None,
        },
    }
}

fn is_dot_dot(name: &str) -> (r: bool)
    ensures
        r == (name@ == ".."@),
{
    str_eq(name, "..")
}

/// `Path::extension` of a file name.
pub fn file_extension(name: &str) -> (ext: Option<&str>)
    ensures
        match extension_of(name@) {
            Some(e) => ext is Some && ext->Some_0@ == e,
            None => ext is None,
        },
{
    if is_dot_dot(name) {
        return None;
    }
    let n = name.unicode_len();
    proof {
        lemma_rfind_char(name@, '.');
    }
    match rfind_char_index(name, '.') {
        None => None,
        Some(p) => if p == 0 {
            None
        } else {
            Some(name.substring_char(p + 1, n))
        },
    }
}

/// `Path::file_stem` of a file name.
pub fn file_stem(name: &str) -> (stem: &str)
    ensures
        stem@ == stem_of(name@),
{
    if is_dot_dot(name) {
        return name;
    }
    proof {
        lemma_rfind_char(name@, '.');
    }
    match rfind_char_index(name, '.') {
        None => name,
        Some(p) => if p == 0 {
            name
        } else {
            name.substring_char(0, p)
        },
    }
}

/// The format of the archive with the given file name, or `None` when the
/// format is not supported (or the path names no file).
pub fn archive_format(file_name: Option<&str>) -> (fmt: Option<ArchiveFormat>)
    ensures
        fmt == archive_format_of(
            match file_name {
                Some(n) => Some(n@),
                None => None,
            },
        ),
{
    let name = match file_name {
        Some(n) => n,
        None => return None,
    };
    match file_extension(name) {
        None => None,
        Some(ext) => {
            if str_eq(ext, "zip") {
                Some(ArchiveFormat::Zip)
            } else if str_eq(ext, "gz") {
                let stem = file_stem(name);
                let stem_ext = if str_eq(stem, ".") || str_eq(stem, "..") || stem.unicode_len()
                    == 0 {
                    None
                } else {
                    file_extension(stem)
                };
                match stem_ext {
                    Some(e) => if str_eq(e, "tar") {
                        Some(ArchiveFormat::TarGz)
                    } else {
                        None
                    },
                    None => None,
                }
            } else {
                None
            }
        },
    }
}

/// Why a zip archive cannot be written.
#[derive(Debug, PartialEq, Eq, Structural, Clone, Copy)]
pub enum ArchivePathError {
    /// The destination path is a directory.
    DestinationIsDirectory,
    /// The source directory does not exist or is not a directory.
    InvalidOrNonExistentSourceDir,
}

/// Checks the paths of a zip archive to be created; the destination is checked
/// first.
pub fn check_archive_paths(destination_is_dir: bool, source_is_dir: bool) -> (res: Result<
    (),
    ArchivePathError,
>)
    ensures
        destination_is_dir ==> res == Err::<(), ArchivePathError>(
            ArchivePathError::DestinationIsDirectory,
        ),
        !destination_is_dir && !source_is_dir ==> res == Err::<(), ArchivePathError>(
            ArchivePathError::InvalidOrNonExistentSourceDir,
        ),
        !destination_is_dir && source_is_dir ==> res == Ok::<(), ArchivePathError>(()),
{
    if destination_is_dir {
        Err(ArchivePathError::DestinationIsDirectory)
    } else if !source_is_dir {
        Err(ArchivePathError::InvalidOrNonExistentSourceDir)
    } else {
        Ok(())
    }
}

/// The name of a directory's own entry in a zip archive: its path relative to
/// the archive's base with a trailing `/`; the base itself gets no entry.
pub fn zip_directory_entry(relative: &str) -> (entry: Option<String>)
    ensures
        relative@.len() == 0 ==> entry is None,
        relative@.len() > 0 ==> entry is Some && entry->Some_0@ == relative@ + "/"@,
{
    if relative.unicode_len() == 0 {
        None
    } else {
        Some(String::from_str(relative).concat("/"))
    }
}

} // verus!
