//! Failures of the work done outside the library, and the text each is logged as.

use vstd::prelude::*;
use vstd::string::*;
use crate::strings::{
    ERROR_FAILED_CLIPBOARD_IMAGE_OTHER,
    ERROR_NO_HOME_DIRECTORY,
    ERROR_PREFIX_ACCESS_CLIPBOARD,
    ERROR_PREFIX_CLIPBOARD_IMAGE,
    ERROR_PREFIX_CONFIG_DIR_CREATE,
    ERROR_PREFIX_CONFIG_FILE_CREATE,
    ERROR_PREFIX_CONFIG_FILE_READ,
    ERROR_PREFIX_COPY_FILE,
    ERROR_PREFIX_COPY_TO_CLIPBOARD,
    ERROR_PREFIX_DECODE_IMAGE,
    ERROR_PREFIX_DIR_ENTRY,
    ERROR_PREFIX_DIR_READ,
    ERROR_PREFIX_DIR_TYPE,
    ERROR_PREFIX_FILE_STEM,
    ERROR_PREFIX_GET_METADATA,
    ERROR_PREFIX_GET_METADATA_SAVED,
    ERROR_PREFIX_GUESS_FORMAT,
    ERROR_PREFIX_INDEX_COLLECTION,
    ERROR_PREFIX_MEDIA_DIR,
    ERROR_PREFIX_OPEN_IMAGE,
    ERROR_PREFIX_OPEN_IMAGE_FILE,
    ERROR_PREFIX_READ_COLLECTION,
    ERROR_PREFIX_SAVE_IMAGE,
    QUOTE,
    QUOTE_THEN_CAUSE,
    QUOTE_TO_QUOTE,
    THEN_CAUSE,
};

verus! {

/// One failed step of outside work: which step it was, the path it was made on
/// where it had one, and the cause as the system reported it.
#[derive(Debug, Clone, PartialEq, Eq)]
pub enum Failure {
    /// The directory to index could not be listed.
    ReadDir { path: String, error: String },
    /// An entry of the directory to index could not be read.
    DirEntry { error: String },
    /// The kind of an entry could not be determined.
    DirType { path: String, error: String },
    /// A collection could not be indexed; `cause` is the text of what went wrong.
    IndexCollection { path: String, cause: String },
    /// A collection's directory could not be listed.
    ReadCollection { path: String, error: String },
    /// A collection's media folder could not be created.
    MediaDir { path: String, error: String },
    /// An entry has no file stem to name a rom by.
    FileStem { path: String },
    /// A box-art file that exists could not be measured.
    GetMetadata { path: String },
    /// Whether a box-art file exists could not be found out.
    ProbeMetadata { path: String, error: String },
    /// The clipboard could not be reached.
    AccessClipboard { error: String },
    /// The clipboard gave no image.
    ClipboardImage { error: String },
    /// The clipboard's image has dimensions that its pixels do not fill.
    ClipboardImageInvalid,
    /// An image could not be written.
    SaveImage { path: String, error: String },
    /// An image that was just written could not be measured.
    GetMetadataSaved { path: String, error: String },
    /// An image could not be opened to be copied.
    OpenImage { path: String, error: String },
    /// An image could not be decoded.
    DecodeImage { path: String, error: String },
    /// An image could not be put on the clipboard.
    CopyToClipboard { error: String },
    /// A file could not be copied.
    CopyFile { from: String, to: String, error: String },
    /// An image file could not be opened to be shown.
    OpenImageFile { path: String, error: String },
    /// The format of an image file could not be guessed.
    GuessFormat { path: String, error: String },
    /// The system names no home directory to keep the configuration under.
    NoHomeDirectory,
    /// The configuration's directory could not be created.
    ConfigDirCreate { error: String },
    /// The configuration could not be written.
    ConfigFileCreate { error: String },
    /// The configuration could not be read.
    ConfigFileRead { error: String },
}

/// `prefix`, a quoted path and the cause: the shape of most logged texts.
pub open spec fn quoted_text(prefix: Seq<char>, path: Seq<char>, error: Seq<char>) -> Seq<char> {
    prefix + path + QUOTE_THEN_CAUSE@ + error
}

/// `prefix` and the cause behind a colon.
pub open spec fn colon_text(prefix: Seq<char>, error: Seq<char>) -> Seq<char> {
    prefix + THEN_CAUSE@ + error
}

impl Failure {
    /// The text that this failure is logged as.
    pub open spec fn text(self) -> Seq<char> {
        match self {
            Failure::ReadDir { path, error } => quoted_text(ERROR_PREFIX_DIR_READ@, path@, error@),
            Failure::DirEntry { error } => ERROR_PREFIX_DIR_ENTRY@ + error@,
            Failure::DirType { path, error } => quoted_text(ERROR_PREFIX_DIR_TYPE@, path@, error@),
            Failure::IndexCollection { path, cause } => quoted_text(
                ERROR_PREFIX_INDEX_COLLECTION@,
                path@,
                cause@,
            ),
            Failure::ReadCollection { path, error } => quoted_text(
                ERROR_PREFIX_READ_COLLECTION@,
                path@,
                error@,
            ),
            Failure::MediaDir { path, error } => quoted_text(
                ERROR_PREFIX_MEDIA_DIR@,
                path@,
                error@,
            ),
            Failure::FileStem { path } => ERROR_PREFIX_FILE_STEM@ + path@,
            Failure::GetMetadata { path } => ERROR_PREFIX_GET_METADATA@ + path@ + QUOTE@,
            Failure::ProbeMetadata { path, error } => ERROR_PREFIX_GET_METADATA@ + path@
                + THEN_CAUSE@ + error@ + QUOTE@,
            Failure::AccessClipboard { error } => ERROR_PREFIX_ACCESS_CLIPBOARD@ + error@,
            Failure::ClipboardImage { error } => ERROR_PREFIX_CLIPBOARD_IMAGE@ + error@,
            Failure::ClipboardImageInvalid => ERROR_FAILED_CLIPBOARD_IMAGE_OTHER@,
            Failure::SaveImage { path, error } => quoted_text(
                ERROR_PREFIX_SAVE_IMAGE@,
                path@,
                error@,
            ),
            Failure::GetMetadataSaved { path, error } => quoted_text(
                ERROR_PREFIX_GET_METADATA_SAVED@,
                path@,
                error@,
            ),
            Failure::OpenImage { path, error } => quoted_text(
                ERROR_PREFIX_OPEN_IMAGE@,
                path@,
                error@,
            ),
            Failure::DecodeImage { path, error } => quoted_text(
                ERROR_PREFIX_DECODE_IMAGE@,
                path@,
                error@,
            ),
            Failure::CopyToClipboard { error } => ERROR_PREFIX_COPY_TO_CLIPBOARD@ + error@,
            Failure::CopyFile { from, to, error } => ERROR_PREFIX_COPY_FILE@ + from@
                + QUOTE_TO_QUOTE@ + to@ + QUOTE_THEN_CAUSE@ + error@,
            Failure::OpenImageFile { path, error } => quoted_text(
                ERROR_PREFIX_OPEN_IMAGE_FILE@,
                path@,
                error@,
            ),
            Failure::GuessFormat { path, error } => quoted_text(
                ERROR_PREFIX_GUESS_FORMAT@,
                path@,
                error@,
            ),
            Failure::NoHomeDirectory => ERROR_NO_HOME_DIRECTORY@,
            Failure::ConfigDirCreate { error } => colon_text(
                ERROR_PREFIX_CONFIG_DIR_CREATE@,
                error@,
            ),
            Failure::ConfigFileCreate { error } => colon_text(
                ERROR_PREFIX_CONFIG_FILE_CREATE@,
                error@,
            ),
            Failure::ConfigFileRead { error } => colon_text(ERROR_PREFIX_CONFIG_FILE_READ@, error@),
        }
    }

    /// Writes this failure out as the text that is logged and shown.
    pub fn describe(&self) -> (text: String)
        ensures
            text@ == self.text(),
    {
        match self {
            Failure::ReadDir { path, error } => quoted(ERROR_PREFIX_DIR_READ, path, error),
            Failure::DirEntry { error } => joined(ERROR_PREFIX_DIR_ENTRY, error),
            Failure::DirType { path, error } => quoted(ERROR_PREFIX_DIR_TYPE, path, error),
            Failure::IndexCollection { path, cause } => quoted(
                ERROR_PREFIX_INDEX_COLLECTION,
                path,
                cause,
            ),
            Failure::ReadCollection { path, error } => quoted(
                ERROR_PREFIX_READ_COLLECTION,
                path,
                error,
            ),
            Failure::MediaDir { path, error } => quoted(ERROR_PREFIX_MEDIA_DIR, path, error),
            Failure::FileStem { path } => joined(ERROR_PREFIX_FILE_STEM, path),
            Failure::GetMetadata { path } => {
                let mut text = joined(ERROR_PREFIX_GET_METADATA, path);
                text.append(QUOTE);
                text
            },
            Failure::ProbeMetadata { path, error } => {
                let mut text = joined(ERROR_PREFIX_GET_METADATA, path);
                text.append(THEN_CAUSE);
                text.append(error.as_str());
                text.append(QUOTE);
                text
            },
            Failure::AccessClipboard { error } => joined(ERROR_PREFIX_ACCESS_CLIPBOARD, error),
            Failure::ClipboardImage { error } => joined(ERROR_PREFIX_CLIPBOARD_IMAGE, error),
            Failure::ClipboardImageInvalid => String::from_str(ERROR_FAILED_CLIPBOARD_IMAGE_OTHER),
            Failure::SaveImage { path, error } => quoted(ERROR_PREFIX_SAVE_IMAGE, path, error),
            Failure::GetMetadataSaved { path, error } => quoted(
                ERROR_PREFIX_GET_METADATA_SAVED,
                path,
                error,
            ),
            Failure::OpenImage { path, error } => quoted(ERROR_PREFIX_OPEN_IMAGE, path, error),
            Failure::DecodeImage { path, error } => quoted(ERROR_PREFIX_DECODE_IMAGE, path, error),
            Failure::CopyToClipboard { error } => joined(ERROR_PREFIX_COPY_TO_CLIPBOARD, error),
            Failure::CopyFile { from, to, error } => {
                let mut text = joined(ERROR_PREFIX_COPY_FILE, from);
                text.append(QUOTE_TO_QUOTE);
                text.append(to.as_str());
                text.append(QUOTE_THEN_CAUSE);
                text.append(error.as_str());
                text
            },
            Failure::OpenImageFile { path, error } => quoted(
                ERROR_PREFIX_OPEN_IMAGE_FILE,
                path,
                error,
            ),
            Failure::GuessFormat { path, error } => quoted(ERROR_PREFIX_GUESS_FORMAT, path, error),
            Failure::NoHomeDirectory => String::from_str(ERROR_NO_HOME_DIRECTORY),
            Failure::ConfigDirCreate { error } => coloned(ERROR_PREFIX_CONFIG_DIR_CREATE, error),
            Failure::ConfigFileCreate { error } => coloned(ERROR_PREFIX_CONFIG_FILE_CREATE, error),
            Failure::ConfigFileRead { error } => coloned(ERROR_PREFIX_CONFIG_FILE_READ, error),
        }
    }
}

/// `prefix` followed by `rest`.
pub fn joined(prefix: &str, rest: &String) -> (text: String)
    ensures
        text@ == prefix@ + rest@,
{
    let mut text = String::from_str(prefix);
    text.append(rest.as_str());
    text
}

fn quoted(prefix: &str, path: &String, error: &String) -> (text: String)
    ensures
        text@ == quoted_text(prefix@, path@, error@),
{
    let mut text = joined(prefix, path);
    text.append(QUOTE_THEN_CAUSE);
    text.append(error.as_str());
    text
}

fn coloned(prefix: &str, error: &String) -> (text: String)
    ensures
        text@ == colon_text(prefix@, error@),
{
    let mut text = String::from_str(prefix);
    text.append(THEN_CAUSE);
    text.append(error.as_str());
    text
}

} // verus!
