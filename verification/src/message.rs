//! What is said to a view and what a view asks to have done.

use vstd::prelude::*;
use crate::failure::Failure;
use crate::index::{State, StateModel};

verus! {

/// A decoded image: its dimensions and its pixels, four bytes each, red, green,
/// blue and alpha.
#[derive(Debug, Clone, PartialEq, Eq)]
pub struct Preview {
    pub width: u32,
    pub height: u32,
    pub pixels: Vec<u8>,
}

/// What a `Preview` is, as contracts speak of it.
pub struct PreviewModel {
    pub width: u32,
    pub height: u32,
    pub pixels: Seq<u8>,
}

impl View for Preview {
    type V = PreviewModel;

    open spec fn view(&self) -> PreviewModel {
        PreviewModel { width: self.width, height: self.height, pixels: self.pixels@ }
    }
}

/// One event that a view takes in: what the user did, or what came of a task.
#[derive(Debug, Clone, PartialEq, Eq)]
pub enum Message {
    NoOp,
    OpenRomDirectoryPicker,
    /// Show the roms at these places of the index under this title.
    OpenRomList(String, Vec<usize>),
    /// Select the rom at this place of the index.
    SelectRom(usize),
    CompletedIndexing(State),
    RomDirectoryChosen(String),
    OpenCollectionList,
    OpenErrorList,
    /// Setup is over; index the directory at this path.
    SetupDone(String),
    SetClipboardText(String),
    /// Put the image at this path on the clipboard.
    SetClipboardImage(String),
    /// Write the clipboard's image to this path; it is the box art of the rom at
    /// this place.
    ReplacementImageFromClip(String, usize),
    ViewError(String),
    RecordError(String),
    /// The image to show for the selected rom: width, height and pixels.
    SetRomInfoImage(u32, u32, Vec<u8>),
    /// The rom at this place has new box art of this length.
    WroteNewImage(usize, u64),
    /// Let the user choose a file to copy to this path; it is the box art of the
    /// rom at this place.
    ChooseReplacementImage(String, usize),
    ResetState,
}

/// What a `Message` is, as contracts speak of it.
pub enum MessageModel {
    NoOp,
    OpenRomDirectoryPicker,
    OpenRomList(Seq<char>, Seq<usize>),
    SelectRom(usize),
    CompletedIndexing(StateModel),
    RomDirectoryChosen(Seq<char>),
    OpenCollectionList,
    OpenErrorList,
    SetupDone(Seq<char>),
    SetClipboardText(Seq<char>),
    SetClipboardImage(Seq<char>),
    ReplacementImageFromClip(Seq<char>, usize),
    ViewError(Seq<char>),
    RecordError(Seq<char>),
    SetRomInfoImage(u32, u32, Seq<u8>),
    WroteNewImage(usize, u64),
    ChooseReplacementImage(Seq<char>, usize),
    ResetState,
}

impl View for Message {
    type V = MessageModel;

    open spec fn view(&self) -> MessageModel {
        match self {
            Message::NoOp => MessageModel::NoOp,
            Message::OpenRomDirectoryPicker => MessageModel::OpenRomDirectoryPicker,
            Message::OpenRomList(title, rom_indices) => MessageModel::OpenRomList(
                title@,
                rom_indices@,
            ),
            Message::SelectRom(rom_index) => MessageModel::SelectRom(*rom_index),
            Message::CompletedIndexing(state) => MessageModel::CompletedIndexing(state@),
            Message::RomDirectoryChosen(path) => MessageModel::RomDirectoryChosen(path@),
            Message::OpenCollectionList => MessageModel::OpenCollectionList,
            Message::OpenErrorList => MessageModel::OpenErrorList,
            Message::SetupDone(path) => MessageModel::SetupDone(path@),
            Message::SetClipboardText(text) => MessageModel::SetClipboardText(text@),
            Message::SetClipboardImage(path) => MessageModel::SetClipboardImage(path@),
            Message::ReplacementImageFromClip(path, rom_index) => {
                MessageModel::ReplacementImageFromClip(path@, *rom_index)
            },
            Message::ViewError(text) => MessageModel::ViewError(text@),
            Message::RecordError(text) => MessageModel::RecordError(text@),
            Message::SetRomInfoImage(width, height, pixels) => MessageModel::SetRomInfoImage(
                *width,
                *height,
                pixels@,
            ),
            Message::WroteNewImage(rom_index, size) => MessageModel::WroteNewImage(
                *rom_index,
                *size,
            ),
            Message::ChooseReplacementImage(path, rom_index) => {
                MessageModel::ChooseReplacementImage(path@, *rom_index)
            },
            Message::ResetState => MessageModel::ResetState,
        }
    }
}

/// Work that a view asks to have done outside the library. Each task ends in
/// one message to the view, some after a second task.
#[derive(Debug, Clone, PartialEq, Eq)]
pub enum Task {
    /// Nothing.
    Idle,
    /// Hand this text back as an error to record.
    Report(String),
    /// Write the clipboard's image to `boxart_path` as a PNG and measure the file.
    PasteImage { boxart_path: String, rom_index: usize },
    /// Decode the image at `image_path` and put it on the clipboard.
    CopyImage { image_path: String },
    /// Decode the image at `image_path` to show it.
    LoadImage { image_path: String },
    /// Put this text on the clipboard.
    CopyText(String),
    /// Let the user choose a PNG file to take the place of `boxart_path`.
    ChooseImage { boxart_path: String, rom_index: usize },
    /// Copy the file at `from` to `to`.
    CopyFile { from: String, to: String, rom_index: usize },
    /// Let the user choose the directory to index.
    PickFolder,
    /// Save the directory of this state as the configuration, then index it.
    Scan(State),
}

/// What a `Task` is, as contracts speak of it.
pub enum TaskModel {
    Idle,
    Report(Seq<char>),
    PasteImage { boxart_path: Seq<char>, rom_index: usize },
    CopyImage { image_path: Seq<char> },
    LoadImage { image_path: Seq<char> },
    CopyText(Seq<char>),
    ChooseImage { boxart_path: Seq<char>, rom_index: usize },
    CopyFile { from: Seq<char>, to: Seq<char>, rom_index: usize },
    PickFolder,
    Scan(StateModel),
}

impl View for Task {
    type V = TaskModel;

    open spec fn view(&self) -> TaskModel {
        match self {
            Task::Idle => TaskModel::Idle,
            Task::Report(text) => TaskModel::Report(text@),
            Task::PasteImage { boxart_path, rom_index } => TaskModel::PasteImage {
                boxart_path: boxart_path@,
                rom_index: *rom_index,
            },
            Task::CopyImage { image_path } => TaskModel::CopyImage { image_path: image_path@ },
            Task::LoadImage { image_path } => TaskModel::LoadImage { image_path: image_path@ },
            Task::CopyText(text) => TaskModel::CopyText(text@),
            Task::ChooseImage { boxart_path, rom_index } => TaskModel::ChooseImage {
                boxart_path: boxart_path@,
                rom_index: *rom_index,
            },
            Task::CopyFile { from, to, rom_index } => TaskModel::CopyFile {
                from: from@,
                to: to@,
                rom_index: *rom_index,
            },
            Task::PickFolder => TaskModel::PickFolder,
            Task::Scan(state) => TaskModel::Scan(state@),
        }
    }
}

/// What came of a task.
#[derive(Debug, PartialEq, Eq)]
pub enum Outcome {
    /// The task is done and there is nothing to tell.
    Nothing,
    /// An image file was written; this is its length in bytes.
    Wrote(Result<u64, Failure>),
    /// An image was put on the clipboard.
    Copied(Result<(), Failure>),
    /// An image was decoded.
    Loaded(Result<Preview, Failure>),
    /// The user chose this path, or none.
    Picked(Option<String>),
    /// The directory was indexed; this is the state after it.
    Indexed(State),
}

/// What an `Outcome` is, as contracts speak of it: a failure is the text that it
/// is logged as.
pub enum OutcomeModel {
    Nothing,
    Wrote(Result<u64, Seq<char>>),
    Copied(Result<(), Seq<char>>),
    Loaded(Result<PreviewModel, Seq<char>>),
    Picked(Option<Seq<char>>),
    Indexed(StateModel),
}

impl View for Outcome {
    type V = OutcomeModel;

    open spec fn view(&self) -> OutcomeModel {
        match self {
            Outcome::Nothing => OutcomeModel::Nothing,
            Outcome::Wrote(Ok(size)) => OutcomeModel::Wrote(Ok(*size)),
            Outcome::Wrote(Err(failure)) => OutcomeModel::Wrote(Err(failure.text())),
            Outcome::Copied(Ok(())) => OutcomeModel::Copied(Ok(())),
            Outcome::Copied(Err(failure)) => OutcomeModel::Copied(Err(failure.text())),
            Outcome::Loaded(Ok(preview)) => OutcomeModel::Loaded(Ok(preview@)),
            Outcome::Loaded(Err(failure)) => OutcomeModel::Loaded(Err(failure.text())),
            Outcome::Picked(Some(path)) => OutcomeModel::Picked(Some(path@)),
            Outcome::Picked(None) => OutcomeModel::Picked(None),
            Outcome::Indexed(state) => OutcomeModel::Indexed(state@),
        }
    }
}

/// What follows a task's outcome: a message for the view, or more work.
#[derive(Debug, Clone, PartialEq, Eq)]
pub enum Next {
    Deliver(Message),
    Continue(Task),
}

pub enum NextModel {
    Deliver(MessageModel),
    Continue(TaskModel),
}

impl View for Next {
    type V = NextModel;

    open spec fn view(&self) -> NextModel {
        match self {
            Next::Deliver(message) => NextModel::Deliver(message@),
            Next::Continue(task) => NextModel::Continue(task@),
        }
    }
}

/// What follows `outcome` of `task`. A written image is announced with the place
/// of its rom, a decoded one is handed over to be shown, a chosen directory is
/// handed over, a chosen file is copied next, an index is handed over. A failure
/// becomes an error to record. Where the user chose nothing, nothing happens, and
/// an outcome that does not belong to the task is dropped.
pub open spec fn task_next(task: TaskModel, outcome: OutcomeModel) -> NextModel {
    match (task, outcome) {
        (TaskModel::Report(text), _) => NextModel::Deliver(MessageModel::RecordError(text)),
        (
            TaskModel::PasteImage { boxart_path, rom_index },
            OutcomeModel::Wrote(Ok(size)),
        ) => NextModel::Deliver(MessageModel::WroteNewImage(rom_index, size)),
        (TaskModel::PasteImage { boxart_path, rom_index }, OutcomeModel::Wrote(Err(text))) => {
            NextModel::Deliver(MessageModel::RecordError(text))
        },
        (TaskModel::CopyFile { from, to, rom_index }, OutcomeModel::Wrote(Ok(size))) => {
            NextModel::Deliver(MessageModel::WroteNewImage(rom_index, size))
        },
        (TaskModel::CopyFile { from, to, rom_index }, OutcomeModel::Wrote(Err(text))) => {
            NextModel::Deliver(MessageModel::RecordError(text))
        },
        (TaskModel::CopyImage { image_path }, OutcomeModel::Copied(Err(text))) => {
            NextModel::Deliver(MessageModel::RecordError(text))
        },
        (TaskModel::LoadImage { image_path }, OutcomeModel::Loaded(Ok(preview))) => {
            NextModel::Deliver(
                MessageModel::SetRomInfoImage(preview.width, preview.height, preview.pixels),
            )
        },
        (TaskModel::LoadImage { image_path }, OutcomeModel::Loaded(Err(text))) => {
            NextModel::Deliver(MessageModel::RecordError(text))
        },
        (
            TaskModel::ChooseImage { boxart_path, rom_index },
            OutcomeModel::Picked(Some(path)),
        ) => NextModel::Continue(TaskModel::CopyFile { from: path, to: boxart_path, rom_index }),
        (TaskModel::PickFolder, OutcomeModel::Picked(Some(path))) => NextModel::Deliver(
            MessageModel::RomDirectoryChosen(path),
        ),
        (TaskModel::Scan(state), OutcomeModel::Indexed(indexed)) => NextModel::Deliver(
            MessageModel::CompletedIndexing(indexed),
        ),
        _ => NextModel::Deliver(MessageModel::NoOp),
    }
}

impl Task {
    /// What follows `outcome`, which is what came of the work that `self` names.
    pub fn resume(self, outcome: Outcome) -> (next: Next)
        ensures
            next@ == task_next(self@, outcome@),
    {
        match self {
            Task::Report(text) => Next::Deliver(Message::RecordError(text)),
            Task::PasteImage { boxart_path, rom_index } => match outcome {
                Outcome::Wrote(written) => Next::Deliver(wrote(rom_index, written)),
                _ => Next::Deliver(Message::NoOp),
            },
            Task::CopyFile { from, to, rom_index } => match outcome {
                Outcome::Wrote(written) => Next::Deliver(wrote(rom_index, written)),
                _ => Next::Deliver(Message::NoOp),
            },
            Task::CopyImage { image_path } => match outcome {
                Outcome::Copied(Err(failure)) => Next::Deliver(
                    Message::RecordError(failure.describe()),
                ),
                _ => Next::Deliver(Message::NoOp),
            },
            Task::LoadImage { image_path } => match outcome {
                Outcome::Loaded(Ok(preview)) => Next::Deliver(
                    Message::SetRomInfoImage(preview.width, preview.height, preview.pixels),
                ),
                Outcome::Loaded(Err(failure)) => Next::Deliver(
                    Message::RecordError(failure.describe()),
                ),
                _ => Next::Deliver(Message::NoOp),
            },
            Task::ChooseImage { boxart_path, rom_index } => match outcome {
                Outcome::Picked(Some(path)) => Next::Continue(
                    Task::CopyFile { from: path, to: boxart_path, rom_index },
                ),
                _ => Next::Deliver(Message::NoOp),
            },
            Task::PickFolder => match outcome {
                Outcome::Picked(Some(path)) => Next::Deliver(Message::RomDirectoryChosen(path)),
                _ => Next::Deliver(Message::NoOp),
            },
            Task::Scan(state) => match outcome {
                Outcome::Indexed(indexed) => Next::Deliver(Message::CompletedIndexing(indexed)),
                _ => Next::Deliver(Message::NoOp),
            },
            _ => Next::Deliver(Message::NoOp),
        }
    }
}

/// The message that follows an attempt to write the box art of the rom at
/// `rom_index`.
fn wrote(rom_index: usize, written: Result<u64, Failure>) -> (message: Message)
    ensures
        message@ == match written {
            Ok(size) => MessageModel::WroteNewImage(rom_index, size),
            Err(failure) => MessageModel::RecordError(failure.text()),
        },
{
    match written {
        Ok(size) => Message::WroteNewImage(rom_index, size),
        Err(failure) => Message::RecordError(failure.describe()),
    }
}

} // verus!
