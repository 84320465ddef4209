//! Errors of the tracker and the text shown for each of them.

use vstd::prelude::*;
use vstd::string::*;

verus! {

/// A file-system error: the path it happened on and the kind of I/O error,
/// as the operating system describes it.
pub struct FSIOError {
    pub path: String,
    pub kind: String,
}

impl FSIOError {
    pub fn new(path: String, kind: String) -> (res: FSIOError)
        ensures
            res.path@ == path@,
            res.kind@ == kind@,
    {
        FSIOError { path, kind }
    }

    pub open spec fn spec_message(&self) -> Seq<char> {
        self.path@ + ": I/O error: "@ + self.kind@
    }

    /// The text shown for this error.
    pub fn message(&self) -> (res: String)
        ensures
            res@ == self.spec_message(),
    {
        let mut s = self.path.clone();
        s.append(": I/O error: ");
        s.append(self.kind.as_str());
        s
    }

    pub fn clone_error(&self) -> (res: FSIOError)
        ensures
            res == *self,
    {
        FSIOError { path: self.path.clone(), kind: self.kind.clone() }
    }
}

/// Errors in reading, writing and parsing the file of a media.
pub enum MediaError {
    Serialize { name: String, source: String },
    Deserialize { path: String, source: String },
    FSIO(FSIOError),
}

impl MediaError {
    pub open spec fn spec_message(&self) -> Seq<char> {
        match self {
            MediaError::Serialize { name, source } => name@ + ": Serialize error: "@ + source@,
            MediaError::Deserialize { path, source } => path@ + ": file parsing error: "@ + source@,
            MediaError::FSIO(e) => e.spec_message(),
        }
    }

    /// The text shown for this error.
    pub fn message(&self) -> (res: String)
        ensures
            res@ == self.spec_message(),
    {
        match self {
            MediaError::Serialize { name, source } => {
                let mut s = name.clone();
                s.append(": Serialize error: ");
                s.append(source.as_str());
                s
            },
            MediaError::Deserialize { path, source } => {
                let mut s = path.clone();
                s.append(": file parsing error: ");
                s.append(source.as_str());
                s
            },
            MediaError::FSIO(e) => e.message(),
        }
    }

    pub fn clone_error(&self) -> (res: MediaError)
        ensures
            res == *self,
    {
        match self {
            MediaError::Serialize { name, source } => MediaError::Serialize {
                name: name.clone(),
                source: source.clone(),
            },
            MediaError::Deserialize { path, source } => MediaError::Deserialize {
                path: path.clone(),
                source: source.clone(),
            },
            MediaError::FSIO(e) => MediaError::FSIO(e.clone_error()),
        }
    }
}

/// What went wrong.
pub enum ErrorKind {
    FSIO { path: String, kind: String },
    UserDataDirNotFound,
    Open { path: String, kind: String },
    FailedToFindNextChapterPath,
    FontLoad,
    EpisodesDidNotFound,
    EpisodeMustBeAMediaFile,
    EpisodeNotFound,
    MediaNameIsUsed { name: String },
    OpenDialog { message: String },
    Media(MediaError),
    FSIOError(FSIOError),
}

impl ErrorKind {
    pub fn fsio(path: String, kind: String) -> (res: ErrorKind)
        ensures
            res == (ErrorKind::FSIO { path, kind }),
    {
        ErrorKind::FSIO { path, kind }
    }

    pub fn open(path: String, kind: String) -> (res: ErrorKind)
        ensures
            res == (ErrorKind::Open { path, kind }),
    {
        ErrorKind::Open { path, kind }
    }

    pub open spec fn spec_message(&self) -> Seq<char> {
        match self {
            ErrorKind::FSIO { path, kind } => path@ + ": I/O error: "@ + kind@,
            ErrorKind::UserDataDirNotFound => "Failed to found user's data directory"@,
            ErrorKind::Open { path, kind } => path@ + ": Falied to open default program: "@ + kind@,
            ErrorKind::FailedToFindNextChapterPath => "Failed to find next chapter path"@,
            ErrorKind::FontLoad => "Filed to load font"@,
            ErrorKind::EpisodesDidNotFound => "Episodes didn't found"@,
            ErrorKind::EpisodeMustBeAMediaFile => "Episode must be a media file"@,
            ErrorKind::EpisodeNotFound => "Eisode not found"@,
            ErrorKind::MediaNameIsUsed { name } => "Media name \""@ + name@ + "\" is used"@,
            ErrorKind::OpenDialog { message } => "Failed to open the file dialog: "@ + message@,
            ErrorKind::Media(e) => e.spec_message(),
            ErrorKind::FSIOError(e) => e.spec_message(),
        }
    }

    /// The text shown for this error.
    pub fn message(&self) -> (res: String)
        ensures
            res@ == self.spec_message(),
    {
        match self {
            ErrorKind::FSIO { path, kind } => {
                let mut s = path.clone();
                s.append(": I/O error: ");
                s.append(kind.as_str());
                s
            },
            ErrorKind::UserDataDirNotFound => String::from_str("Failed to found user's data directory"),
            ErrorKind::Open { path, kind } => {
                let mut s = path.clone();
                s.append(": Falied to open default program: ");
                s.append(kind.as_str());
                s
            },
            ErrorKind::FailedToFindNextChapterPath => String::from_str("Failed to find next chapter path"),
            ErrorKind::FontLoad => String::from_str("Filed to load font"),
            ErrorKind::EpisodesDidNotFound => String::from_str("Episodes didn't found"),
            ErrorKind::EpisodeMustBeAMediaFile => String::from_str("Episode must be a media file"),
            ErrorKind::EpisodeNotFound => String::from_str("Eisode not found"),
            ErrorKind::MediaNameIsUsed { name } => {
                let mut s = String::from_str("Media name \"");
                s.append(name.as_str());
                s.append("\" is used");
                s
            },
            ErrorKind::OpenDialog { message } => {
                let mut s = String::from_str("Failed to open the file dialog: ");
                s.append(message.as_str());
                s
            },
            ErrorKind::Media(e) => e.message(),
            ErrorKind::FSIOError(e) => e.message(),
        }
    }

    pub fn clone_error(&self) -> (res: ErrorKind)
        ensures
            res == *self,
    {
        match self {
            ErrorKind::FSIO { path, kind } => ErrorKind::FSIO { path: path.clone(), kind: kind.clone() },
            ErrorKind::UserDataDirNotFound => ErrorKind::UserDataDirNotFound,
            ErrorKind::Open { path, kind } => ErrorKind::Open { path: path.clone(), kind: kind.clone() },
            ErrorKind::FailedToFindNextChapterPath => ErrorKind::FailedToFindNextChapterPath,
            ErrorKind::FontLoad => ErrorKind::FontLoad,
            ErrorKind::EpisodesDidNotFound => ErrorKind::EpisodesDidNotFound,
            ErrorKind::EpisodeMustBeAMediaFile => ErrorKind::EpisodeMustBeAMediaFile,
            ErrorKind::EpisodeNotFound => ErrorKind::EpisodeNotFound,
            ErrorKind::MediaNameIsUsed { name } => ErrorKind::MediaNameIsUsed { name: name.clone() },
            ErrorKind::OpenDialog { message } => ErrorKind::OpenDialog { message: message.clone() },
            ErrorKind::Media(e) => ErrorKind::Media(e.clone_error()),
            ErrorKind::FSIOError(e) => ErrorKind::FSIOError(e.clone_error()),
        }
    }
}

/// An error together with whether the application can go on after it.
pub struct Error {
    pub kind: ErrorKind,
    pub critical: bool,
}

impl Error {
    /// An error after which the application closes.
    pub fn critical(kind: ErrorKind) -> (res: Error)
        ensures
            res == (Error { kind, critical: true }),
    {
        Error { kind, critical: true }
    }

    /// An error that is shown and then dismissed.
    pub fn common(kind: ErrorKind) -> (res: Error)
        ensures
            res == (Error { kind, critical: false }),
    {
        Error { kind, critical: false }
    }

    /// The text shown for this error.
    pub fn message(&self) -> (res: String)
        ensures
            res@ == self.kind.spec_message(),
    {
        self.kind.message()
    }
}

} // verus!
