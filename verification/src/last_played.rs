use vstd::prelude::*;
use vstd::string::*;

verus! {

/// A failure of the store that records the version of each variant that was
/// played last, with the underlying message.
#[derive(Debug)]
pub enum LastPlayedVersionRepositoryError {
    Get(String),
    Record(String),
}

/// Reading or recording the last played version failed.
#[derive(Debug)]
pub enum LastPlayedError {
    Repository(LastPlayedVersionRepositoryError),
}

/// The directory of the last-played record could not be created.
#[derive(Debug)]
pub enum LastPlayedFileError {
    CreateDir(String),
}

impl LastPlayedVersionRepositoryError {
    /// The human-readable description of this error.
    pub fn message(&self) -> (s: String)
        ensures
            match self {
                LastPlayedVersionRepositoryError::Get(m) => s@ == "failed to get last played version: "@
                    + m@,
                LastPlayedVersionRepositoryError::Record(m) => s@ == "failed to set last played version: "@
                    + m@,
            },
    {
        match self {
            LastPlayedVersionRepositoryError::Get(m) => String::from_str(
                "failed to get last played version: ",
            ).concat(m.as_str()),
            LastPlayedVersionRepositoryError::Record(m) => String::from_str(
                "failed to set last played version: ",
            ).concat(m.as_str()),
        }
    }
}

impl LastPlayedError {
    /// The human-readable description of this error, wrapping the inner one.
    pub fn message(&self) -> (s: String)
        ensures
            match self {
                LastPlayedError::Repository(LastPlayedVersionRepositoryError::Get(m)) => s@
                    == "failed to access last played version: "@ + (
                "failed to get last played version: "@ + m@),
                LastPlayedError::Repository(LastPlayedVersionRepositoryError::Record(m)) => s@
                    == "failed to access last played version: "@ + (
                "failed to set last played version: "@ + m@),
            },
    {
        match self {
            LastPlayedError::Repository(e) => {
                let inner = e.message();
                String::from_str("failed to access last played version: ").concat(inner.as_str())
            },
        }
    }
}

impl LastPlayedFileError {
    /// The human-readable description of this error.
    pub fn message(&self) -> (s: String)
        ensures
            match self {
                LastPlayedFileError::CreateDir(m) => s@ == "failed to create directory: "@ + m@,
            },
    {
        match self {
            LastPlayedFileError::CreateDir(m) => String::from_str(
                "failed to create directory: ",
            ).concat(m.as_str()),
        }
    }
}

} // verus!
