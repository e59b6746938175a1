//! The views of the application and the one function that moves between them.

use vstd::prelude::*;
use vstd::string::*;
use crate::index::{rom_models, IndexModel, RomModel, State, StateModel};
use crate::message::{Message, MessageModel, Preview, PreviewModel, Task, TaskModel};
use crate::strings::{ERROR_CANNOT_NAVIGATE, ERROR_CANNOT_NAVIGATE_COLLECTIONS, UI_SETUP_INDEXING};
use crate::view_laws::lemma_transition_keeps_wf;

verus! {

/// The view that the application shows. Exactly one is active, and the state of
/// the session belongs to it alone: where the application moves from one view
/// with a state to another, the state moves with it.
#[derive(Debug, Clone, PartialEq, Eq)]
pub enum NextArtView {
    /// The user chooses the directory to index.
    Setup { chosen_path: Option<String>, error: Option<String> },
    /// The directory is being indexed.
    Loading { state: State, message: String },
    /// The collections of the index.
    CollectionList { state: State },
    /// The roms at `rom_indices`, with the selected one and its box art.
    RomList {
        state: State,
        title: String,
        selected_index: Option<usize>,
        selected_image: Option<Preview>,
        rom_indices: Vec<usize>,
    },
    /// The session cannot go on; only a reset leads away.
    FatalError { error_description: String },
    /// The errors met so far.
    ErrorList { state: State },
}

/// What a `NextArtView` is, as contracts speak of it.
pub enum ViewModel {
    Setup { chosen_path: Option<Seq<char>>, error: Option<Seq<char>> },
    Loading { state: StateModel, message: Seq<char> },
    CollectionList { state: StateModel },
    RomList {
        state: StateModel,
        title: Seq<char>,
        selected_index: Option<usize>,
        selected_image: Option<PreviewModel>,
        rom_indices: Seq<usize>,
    },
    FatalError { error_description: Seq<char> },
    ErrorList { state: StateModel },
}

/// The contents of a text that may be missing.
pub open spec fn text_if_any(text: Option<String>) -> Option<Seq<char>> {
    match text {
        Some(text) => Some(text@),
        None => None,
    }
}

impl View for NextArtView {
    type V = ViewModel;

    open spec fn view(&self) -> ViewModel {
        match self {
            NextArtView::Setup { chosen_path, error } => ViewModel::Setup {
                chosen_path: text_if_any(*chosen_path),
                error: text_if_any(*error),
            },
            NextArtView::Loading { state, message } => ViewModel::Loading {
                state: state@,
                message: message@,
            },
            NextArtView::CollectionList { state } => ViewModel::CollectionList { state: state@ },
            NextArtView::RomList {
                state,
                title,
                selected_index,
                selected_image,
                rom_indices,
            } => ViewModel::RomList {
                state: state@,
                title: title@,
                selected_index: *selected_index,
                selected_image: match selected_image {
                    Some(preview) => Some(preview@),
                    None => None,
                },
                rom_indices: rom_indices@,
            },
            NextArtView::FatalError { error_description } => ViewModel::FatalError {
                error_description: error_description@,
            },
            NextArtView::ErrorList { state } => ViewModel::ErrorList { state: state@ },
        }
    }
}

impl StateModel {
    /// This state with `size` as the length of the box art of the rom at `rom_index`.
    pub open spec fn resized(self, rom_index: int, size: u64) -> StateModel {
        StateModel {
            index: IndexModel {
                roms: self.index.roms.update(
                    rom_index,
                    RomModel { boxart_size: size, ..self.index.roms[rom_index] },
                ),
                ..self.index
            },
            ..self
        }
    }
}

impl ViewModel {
    /// The view that a session starts in, and that a reset leads to.
    pub open spec fn start() -> ViewModel {
        ViewModel::Setup { chosen_path: None, error: None }
    }

    /// The state that belongs to this view, if one does.
    pub open spec fn owned(self) -> Option<StateModel> {
        match self {
            ViewModel::Loading { state, .. } => Some(state),
            ViewModel::CollectionList { state } => Some(state),
            ViewModel::RomList { state, .. } => Some(state),
            ViewModel::ErrorList { state } => Some(state),
            _ => None,
        }
    }

    /// This view with `state` in the place of its own. A view without a state
    /// stays as it is.
    pub open spec fn holding(self, state: StateModel) -> ViewModel {
        match self {
            ViewModel::Loading { message, .. } => ViewModel::Loading { state, message },
            ViewModel::CollectionList { .. } => ViewModel::CollectionList { state },
            ViewModel::RomList { title, selected_index, selected_image, rom_indices, .. } => {
                ViewModel::RomList { state, title, selected_index, selected_image, rom_indices }
            },
            ViewModel::ErrorList { .. } => ViewModel::ErrorList { state },
            _ => self,
        }
    }

    /// The index of the view's state is valid, and what is selected is a rom of it.
    pub open spec fn wf(self) -> bool {
        &&& self.owned() matches Some(state) ==> state.index.wf()
        &&& self matches ViewModel::RomList { state, selected_index: Some(rom_index), .. }
            ==> rom_index < state.index.roms.len()
    }
}

impl MessageModel {
    /// A state that the message brings has a valid index.
    pub open spec fn wf(self) -> bool {
        self matches MessageModel::CompletedIndexing(state) ==> state.index.wf()
    }
}

/// The view after `message`, and the task that the message sets off.
///
/// Moving to another list takes the state along; from a view that may not make
/// the move, the view stays and the refusal is reported as an error to record.
/// An error is recorded in the state of the view that has one and dropped by the
/// others. What concerns a rom reaches the list of roms only, and only for a rom
/// of the index; anywhere else it is dropped.
pub open spec fn transition(view: ViewModel, message: MessageModel) -> (ViewModel, TaskModel) {
    match message {
        MessageModel::NoOp => (view, TaskModel::Idle),
        MessageModel::OpenRomDirectoryPicker => (view, TaskModel::PickFolder),
        MessageModel::OpenRomList(title, rom_indices) => match view {
            ViewModel::CollectionList { state } | ViewModel::ErrorList { state } => (
                ViewModel::RomList {
                    state,
                    title,
                    selected_index: None,
                    selected_image: None,
                    rom_indices,
                },
                TaskModel::Idle,
            ),
            _ => (view, TaskModel::Report(ERROR_CANNOT_NAVIGATE@)),
        },
        MessageModel::SelectRom(rom_index) => match view {
            ViewModel::RomList { state, title, selected_index, selected_image, rom_indices } => {
                if rom_index < state.index.roms.len() {
                    (
                        ViewModel::RomList {
                            state,
                            title,
                            selected_index: Some(rom_index),
                            selected_image,
                            rom_indices,
                        },
                        if state.index.roms[rom_index as int].boxart_size != 0 {
                            TaskModel::LoadImage {
                                image_path: state.index.roms[rom_index as int].boxart_path,
                            }
                        } else {
                            TaskModel::Idle
                        },
                    )
                } else {
                    (view, TaskModel::Idle)
                }
            },
            _ => (view, TaskModel::Idle),
        },
        MessageModel::CompletedIndexing(state) => (
            ViewModel::CollectionList { state },
            TaskModel::Idle,
        ),
        MessageModel::RomDirectoryChosen(path) => match view {
            ViewModel::Setup { chosen_path, error } => (
                ViewModel::Setup { chosen_path: Some(path), error },
                TaskModel::Idle,
            ),
            _ => (view, TaskModel::Idle),
        },
        MessageModel::OpenCollectionList => match view {
            ViewModel::RomList { state, .. } | ViewModel::ErrorList { state } => (
                ViewModel::CollectionList { state },
                TaskModel::Idle,
            ),
            _ => (view, TaskModel::Report(ERROR_CANNOT_NAVIGATE@)),
        },
        MessageModel::OpenErrorList => match view {
            ViewModel::RomList { state, .. } | ViewModel::CollectionList { state } => (
                ViewModel::ErrorList { state },
                TaskModel::Idle,
            ),
            _ => (view, TaskModel::Report(ERROR_CANNOT_NAVIGATE_COLLECTIONS@)),
        },
        MessageModel::SetupDone(path) => (
            ViewModel::Loading { state: StateModel::fresh(path), message: UI_SETUP_INDEXING@ },
            TaskModel::Scan(StateModel::fresh(path)),
        ),
        MessageModel::SetClipboardText(text) => (view, TaskModel::CopyText(text)),
        MessageModel::SetClipboardImage(image_path) => (view, TaskModel::CopyImage { image_path }),
        MessageModel::ReplacementImageFromClip(boxart_path, rom_index) => (
            view,
            TaskModel::PasteImage { boxart_path, rom_index },
        ),
        MessageModel::ViewError(error_description) => (
            ViewModel::FatalError { error_description },
            TaskModel::Idle,
        ),
        MessageModel::RecordError(error) => match view.owned() {
            Some(state) => (view.holding(state.logged(error)), TaskModel::Idle),
            None => (view, TaskModel::Idle),
        },
        MessageModel::SetRomInfoImage(width, height, pixels) => match view {
            ViewModel::RomList { state, title, selected_index, selected_image, rom_indices } => (
                ViewModel::RomList {
                    state,
                    title,
                    selected_index,
                    selected_image: Some(PreviewModel { width, height, pixels }),
                    rom_indices,
                },
                TaskModel::Idle,
            ),
            _ => (view, TaskModel::Idle),
        },
        MessageModel::WroteNewImage(rom_index, size) => match view {
            ViewModel::RomList { state, title, selected_index, selected_image, rom_indices } => {
                if rom_index < state.index.roms.len() {
                    (
                        ViewModel::RomList {
                            state: state.resized(rom_index as int, size),
                            title,
                            selected_index,
                            selected_image: None,
                            rom_indices,
                        },
                        TaskModel::LoadImage {
                            image_path: state.index.roms[rom_index as int].boxart_path,
                        },
                    )
                } else {
                    (view, TaskModel::Idle)
                }
            },
            _ => (view, TaskModel::Idle),
        },
        MessageModel::ChooseReplacementImage(boxart_path, rom_index) => (
            view,
            TaskModel::ChooseImage { boxart_path, rom_index },
        ),
        MessageModel::ResetState => (ViewModel::start(), TaskModel::Idle),
    }
}

impl Default for NextArtView {
    fn default() -> (view: NextArtView)
        ensures
            view@ == ViewModel::start(),
    {
        NextArtView::Setup { chosen_path: None, error: None }
    }
}

impl NextArtView {
    /// Takes in one message: moves to the view that follows it and returns the
    /// task that it sets off.
    ///
    /// The view never fails: a message that it has no use for leaves it as it
    /// is. A valid view stays valid.
    pub fn update(&mut self, message: Message) -> (task: Task)
        ensures
            (final(self)@, task@) == transition(old(self)@, message@),
            old(self)@.wf() && message@.wf() ==> final(self)@.wf(),
    {
        proof {
            if old(self)@.wf() && message@.wf() {
                lemma_transition_keeps_wf(old(self)@, message@);
            }
        }
        match message {
            Message::NoOp => Task::Idle,
            Message::OpenRomDirectoryPicker => Task::PickFolder,
            Message::OpenRomList(title, rom_indices) => {
                let mut taken = NextArtView::default();
                std::mem::swap(self, &mut taken);
                match taken {
                    NextArtView::CollectionList { state } | NextArtView::ErrorList { state } => {
                        *self =
                        NextArtView::RomList {
                            state,
                            title,
                            selected_index: None,
                            selected_image: None,
                            rom_indices,
                        };
                        Task::Idle
                    },
                    other => {
                        *self = other;
                        Task::Report(String::from_str(ERROR_CANNOT_NAVIGATE))
                    },
                }
            },
            Message::SelectRom(rom_index) => {
                if let NextArtView::RomList { state, selected_index, .. } = self {
                    if rom_index < state.index.roms.len() {
                        *selected_index = Some(rom_index);
                        if state.index.roms[rom_index].boxart_size != 0 {
                            return Task::LoadImage {
                                image_path: state.index.roms[rom_index].boxart_path.clone(),
                            };
                        }
                    }
                }
                Task::Idle
            },
            Message::CompletedIndexing(state) => {
                *self = NextArtView::CollectionList { state };
                Task::Idle
            },
            Message::RomDirectoryChosen(path) => {
                if let NextArtView::Setup { chosen_path, .. } = self {
                    *chosen_path = Some(path);
                }
                Task::Idle
            },
            Message::OpenCollectionList => {
                let mut taken = NextArtView::default();
                std::mem::swap(self, &mut taken);
                match taken {
                    NextArtView::RomList { state, .. } | NextArtView::ErrorList { state } => {
                        *self = NextArtView::CollectionList { state };
                        Task::Idle
                    },
                    other => {
                        *self = other;
                        Task::Report(String::from_str(ERROR_CANNOT_NAVIGATE))
                    },
                }
            },
            Message::OpenErrorList => {
                let mut taken = NextArtView::default();
                std::mem::swap(self, &mut taken);
                match taken {
                    NextArtView::RomList { state, .. } | NextArtView::CollectionList { state } => {
                        *self = NextArtView::ErrorList { state };
                        Task::Idle
                    },
                    other => {
                        *self = other;
                        Task::Report(String::from_str(ERROR_CANNOT_NAVIGATE_COLLECTIONS))
                    },
                }
            },
            Message::SetupDone(path) => {
                let state = State::new(path.clone());
                *self =
                NextArtView::Loading { state, message: String::from_str(UI_SETUP_INDEXING) };
                Task::Scan(State::new(path))
            },
            Message::SetClipboardText(text) => Task::CopyText(text),
            Message::SetClipboardImage(image_path) => Task::CopyImage { image_path },
            Message::ReplacementImageFromClip(boxart_path, rom_index) => Task::PasteImage {
                boxart_path,
                rom_index,
            },
            Message::ViewError(error_description) => {
                *self = NextArtView::FatalError { error_description };
                Task::Idle
            },
            Message::RecordError(error) => {
                match self {
                    NextArtView::Loading { state, .. } => state.record(error),
                    NextArtView::CollectionList { state } => state.record(error),
                    NextArtView::RomList { state, .. } => state.record(error),
                    NextArtView::ErrorList { state } => state.record(error),
                    _ => {},
                }
                Task::Idle
            },
            Message::SetRomInfoImage(width, height, pixels) => {
                if let NextArtView::RomList { selected_image, .. } = self {
                    *selected_image = Some(Preview { width, height, pixels });
                }
                Task::Idle
            },
            Message::WroteNewImage(rom_index, size) => {
                if let NextArtView::RomList { state, selected_image, .. } = self {
                    if rom_index < state.index.roms.len() {
                        let ghost before = state.index.roms@;
                        state.index.roms[rom_index].boxart_size = size;
                        *selected_image = None;
                        assert(rom_models(state.index.roms@) =~= rom_models(before).update(
                            rom_index as int,
                            RomModel { boxart_size: size, ..before[rom_index as int]@ },
                        ));
                        return Task::LoadImage {
                            image_path: state.index.roms[rom_index].boxart_path.clone(),
                        };
                    }
                }
                Task::Idle
            },
            Message::ChooseReplacementImage(boxart_path, rom_index) => Task::ChooseImage {
                boxart_path,
                rom_index,
            },
            Message::ResetState => {
                *self = NextArtView::Setup { chosen_path: None, error: None };
                Task::Idle
            },
        }
    }
}

} // verus!
