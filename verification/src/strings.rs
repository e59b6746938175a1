//! The texts that the library writes into error logs, messages and labels.

use vstd::prelude::*;

verus! {

pub const ERROR_CANNOT_NAVIGATE: &'static str = "Cannot navigate: No state available";

pub const ERROR_NO_PATH: &'static str = "No path selected.";

pub const ERROR_CANNOT_NAVIGATE_COLLECTIONS: &'static str =
    "Cannot navigate to collections: Current view doesn't contain a valid state";

pub const ERROR_PREFIX_ACCESS_CLIPBOARD: &'static str = "Failed to access clipboard: ";

pub const ERROR_PREFIX_CLIPBOARD_IMAGE: &'static str = "Failed to get image from clipboard: ";

pub const ERROR_FAILED_CLIPBOARD_IMAGE_OTHER: &'static str =
    "Failed to create image from clipboard data: Invalid image dimensions or data.";

pub const ERROR_NO_HOME_DIRECTORY: &'static str =
    "Failed to retrieve home directory from operating system. Roms path will not be pre-filled on restart.";

pub const ERROR_PREFIX_CONFIG_DIR_CREATE: &'static str =
    "Failed to create config directory. Roms path will not be pre-filled on restart";

pub const ERROR_PREFIX_CONFIG_FILE_CREATE: &'static str =
    "Failed to create config file. Roms path will not be pre-filled on restart";

pub const ERROR_PREFIX_CONFIG_FILE_READ: &'static str = "Failed to read config file";

pub const ERROR_PREFIX_COPY_FILE: &'static str = "Failed to copy file from '";

pub const ERROR_PREFIX_DECODE_IMAGE: &'static str = "Failed to decode image '";

pub const ERROR_PREFIX_DIR_ENTRY: &'static str = "Failed to read directory entry: ";

pub const ERROR_PREFIX_DIR_READ: &'static str = "Failed to read directory '";

pub const ERROR_PREFIX_DIR_TYPE: &'static str = "Failed to determine file type for '";

pub const ERROR_PREFIX_FILE_STEM: &'static str = "Failed to extract file stem: ";

pub const ERROR_PREFIX_GET_METADATA: &'static str = "Failed to get metadata for '";

pub const ERROR_PREFIX_GET_METADATA_SAVED: &'static str =
    "Failed to get metadata for saved image '";

pub const ERROR_PREFIX_GUESS_FORMAT: &'static str = "Failed to guess format for '";

pub const ERROR_PREFIX_INDEX_COLLECTION: &'static str = "Failed to index collection '";

pub const ERROR_PREFIX_MEDIA_DIR: &'static str = "Failed to create media folder '";

pub const ERROR_PREFIX_OPEN_IMAGE: &'static str = "Failed to open image '";

pub const ERROR_PREFIX_OPEN_IMAGE_FILE: &'static str = "Failed to open image file '";

pub const ERROR_PREFIX_READ_COLLECTION: &'static str = "Failed to read collection directory '";

pub const ERROR_PREFIX_SAVE_IMAGE: &'static str = "Failed to save image to '";

pub const ERROR_PREFIX_COPY_TO_CLIPBOARD: &'static str = "Failed to copy image to clipboard: ";

/// Closes a quoted path and opens the cause that follows it.
pub const QUOTE_THEN_CAUSE: &'static str = "': ";

/// Opens a cause behind a text that names no path.
pub const THEN_CAUSE: &'static str = ": ";

/// Closes a quoted path.
pub const QUOTE: &'static str = "'";

/// Stands between the two quoted paths of a copy.
pub const QUOTE_TO_QUOTE: &'static str = "' to '";

/// Stands between a size and the label behind it.
pub const SPACE: &'static str = " ";

pub const LABEL_BOX_ART: &'static str = "Box Art";

pub const LABEL_NO_BOX_ART: &'static str = "No box art";

pub const UI_SETUP_INDEXING: &'static str = "Your collection is being indexed, please be patient.";

/// The directory, inside a collection's directory, that holds its box art.
pub const MEDIA_FOLDER: &'static str = ".media";

/// The extension of a box-art file, dot included.
pub const BOXART_EXTENSION: &'static str = ".png";

/// Stands between a directory and what lies in it.
pub const PATH_SEPARATOR: &'static str = "/";

} // verus!
