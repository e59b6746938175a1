//! The logic of a box-art manager for a collection of roms: the index of what
//! lies on disk, the machine that builds it from what a caller reads there, the
//! views of the application and the work each of them asks to have done.
//!
//! Nothing here touches the file system, the clipboard or the screen. A caller
//! does that, hands over what it found as plain values, and is told what to do
//! next.

pub mod disk;
pub mod disk_laws;
pub mod failure;
pub mod index;
pub mod message;
pub mod present;
pub mod rows;
pub mod scan;
pub mod scan_laws;
pub mod strings;
pub mod view;
pub mod view_laws;

pub use failure::Failure;
pub use index::{Collection, Index, Rom, State};
pub use message::{Message, Next, Outcome, Preview, Task};
pub use scan::{Entry, EntryKind, Scan, ScanReply, ScanRequest, Stage};
pub use view::NextArtView;
