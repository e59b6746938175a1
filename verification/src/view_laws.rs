//! What holds of every view and every message.

use vstd::prelude::*;
use crate::message::{
    task_next,
    MessageModel,
    NextModel,
    OutcomeModel,
    PreviewModel,
    TaskModel,
};
use crate::view::{transition, ViewModel};

verus! {

/// Whether `message` asks to move to one of the lists.
pub open spec fn navigates(message: MessageModel) -> bool {
    message is OpenRomList || message is OpenCollectionList || message is OpenErrorList
}

/// Whether `view` may make the move that `message` asks for: the list of roms
/// is reached from the collections and the errors, the collections from the roms
/// and the errors, the errors from the roms and the collections.
pub open spec fn may_navigate(view: ViewModel, message: MessageModel) -> bool {
    match message {
        MessageModel::OpenRomList(..) => view is CollectionList || view is ErrorList,
        MessageModel::OpenCollectionList => view is RomList || view is ErrorList,
        MessageModel::OpenErrorList => view is RomList || view is CollectionList,
        _ => false,
    }
}

/// Whether two views are of the same kind, whatever they hold.
pub open spec fn same_kind(first: ViewModel, second: ViewModel) -> bool {
    match first {
        ViewModel::Setup { .. } => second is Setup,
        ViewModel::Loading { .. } => second is Loading,
        ViewModel::CollectionList { .. } => second is CollectionList,
        ViewModel::RomList { .. } => second is RomList,
        ViewModel::FatalError { .. } => second is FatalError,
        ViewModel::ErrorList { .. } => second is ErrorList,
    }
}

/// Whether `message` speaks of one rom of the list of roms: that it was
/// selected, that its image was decoded, that its box art was written.
pub open spec fn concerns_rom(message: MessageModel) -> bool {
    message is SelectRom || message is SetRomInfoImage || message is WroteNewImage
}

/// A view that has no state may make no move to a list.
pub proof fn lemma_navigation_needs_state(view: ViewModel, message: MessageModel)
    requires
        view.owned() is None,
    ensures
        !may_navigate(view, message),
{
}

/// A move to a list from a view that may not make it changes nothing: the view
/// stays as it is and the refusal comes back as an error to record. When that
/// error then arrives, the view is still of the same kind, and a view without a
/// state has not changed at all.
pub proof fn lemma_refused_navigation_keeps_view(view: ViewModel, message: MessageModel)
    requires
        navigates(message),
        !may_navigate(view, message),
    ensures
        transition(view, message).0 == view,
        transition(view, message).1 is Report,
        ({
            let report = task_next(transition(view, message).1, OutcomeModel::Nothing);
            &&& report is Deliver
            &&& report->Deliver_0 is RecordError
            &&& same_kind(transition(view, report->Deliver_0).0, view)
            &&& transition(view, report->Deliver_0).1 is Idle
            &&& view.owned() is None ==> transition(view, report->Deliver_0).0 == view
        }),
{
}

/// A move to a list that the view may make takes the state along as it is, and
/// sets off no task.
pub proof fn lemma_navigation_moves_state(view: ViewModel, message: MessageModel)
    requires
        navigates(message),
        may_navigate(view, message),
    ensures
        transition(view, message).0.owned() == view.owned(),
        transition(view, message).1 is Idle,
        match message {
            MessageModel::OpenRomList(title, rom_indices) => transition(view, message).0
                == (ViewModel::RomList {
                state: view.owned()->Some_0,
                title,
                selected_index: None,
                selected_image: None,
                rom_indices,
            }),
            MessageModel::OpenCollectionList => transition(view, message).0 is CollectionList,
            _ => transition(view, message).0 is ErrorList,
        },
{
}

/// Box art that was just written is read again: in the list of roms, the news
/// that the rom at `rom_index` has new box art of `size` bytes sets the rom's
/// `boxart_size` to `size`, takes the shown image away and sets off the loading of
/// the file at the rom's `boxart_path`; the image that this loading gives is then
/// the one shown. Nothing else changes. The same holds where the news comes from
/// pasting the clipboard's image or from copying a chosen file.
pub proof fn lemma_written_image_is_reloaded(
    view: ViewModel,
    rom_index: usize,
    size: u64,
    preview: PreviewModel,
)
    requires
        view is RomList,
        rom_index < view->RomList_state.index.roms.len(),
    ensures
        ({
            let state = view->RomList_state;
            let rom = state.index.roms[rom_index as int];
            let (written, reload) = transition(view, MessageModel::WroteNewImage(rom_index, size));
            let loaded = task_next(reload, OutcomeModel::Loaded(Ok(preview)));
            &&& written is RomList
            &&& written->RomList_state == state.resized(rom_index as int, size)
            &&& written->RomList_state.index.roms[rom_index as int].boxart_size == size
            &&& written->RomList_state.index.roms[rom_index as int].boxart_path == rom.boxart_path
            &&& written->RomList_selected_image is None
            &&& written->RomList_selected_index == view->RomList_selected_index
            &&& reload == (TaskModel::LoadImage { image_path: rom.boxart_path })
            &&& loaded is Deliver
            &&& transition(written, loaded->Deliver_0).0->RomList_selected_image == Some(preview)
            &&& transition(written, loaded->Deliver_0).0->RomList_state == written->RomList_state
        }),
        forall|boxart_path: Seq<char>|
            task_next(
                TaskModel::PasteImage { boxart_path, rom_index },
                OutcomeModel::Wrote(Ok(size)),
            ) == NextModel::Deliver(MessageModel::WroteNewImage(rom_index, size)),
        forall|from: Seq<char>, to: Seq<char>|
            task_next(TaskModel::CopyFile { from, to, rom_index }, OutcomeModel::Wrote(Ok(size)))
                == NextModel::Deliver(MessageModel::WroteNewImage(rom_index, size)),
{
}

/// What concerns a rom is dropped by every view but the list of roms: a reply
/// that arrives after the user has left that list changes nothing, sets off
/// nothing, and is not recorded as an error.
pub proof fn lemma_stale_reply_is_dropped(view: ViewModel, message: MessageModel)
    requires
        concerns_rom(message),
        !(view is RomList),
    ensures
        transition(view, message) == (view, TaskModel::Idle),
{
}

/// In the list of roms, what concerns a place that is no rom of the index is
/// dropped too.
pub proof fn lemma_unknown_rom_is_dropped(view: ViewModel, message: MessageModel)
    requires
        view is RomList,
        match message {
            MessageModel::SelectRom(rom_index) => rom_index >= view->RomList_state.index.roms.len(),
            MessageModel::WroteNewImage(rom_index, _) => rom_index
                >= view->RomList_state.index.roms.len(),
            _ => false,
        },
    ensures
        transition(view, message) == (view, TaskModel::Idle),
{
}

/// No message makes a valid view invalid: the index of the view's state stays
/// valid and what is selected stays a rom of it.
pub proof fn lemma_transition_keeps_wf(view: ViewModel, message: MessageModel)
    requires
        view.wf(),
        message.wf(),
    ensures
        transition(view, message).0.wf(),
{
    match (view, message) {
        (
            ViewModel::RomList { state, .. },
            MessageModel::WroteNewImage(rom_index, size),
        ) => {
            if rom_index < state.index.roms.len() {
                let resized = state.resized(rom_index as int, size);
                assert(resized.index.collections == state.index.collections);
                assert(resized.index.roms.len() == state.index.roms.len());
                assert forall|c: int| 0 <= c < resized.index.collections.len() implies (
                #[trigger] resized.index.collections[c]).within(resized.index.roms.len()) by {
                    assert(state.index.collections[c].within(state.index.roms.len()));
                }
            }
        },
        (ViewModel::Loading { state, .. }, MessageModel::RecordError(error)) => {
            assert(state.logged(error).index == state.index);
        },
        (ViewModel::CollectionList { state }, MessageModel::RecordError(error)) => {
            assert(state.logged(error).index == state.index);
        },
        (ViewModel::RomList { state, .. }, MessageModel::RecordError(error)) => {
            assert(state.logged(error).index == state.index);
        },
        (ViewModel::ErrorList { state }, MessageModel::RecordError(error)) => {
            assert(state.logged(error).index == state.index);
        },
        _ => {},
    }
}

/// Whether `message` brings a state of its own into the view: the start of a
/// scan, its end, or a reset.
pub open spec fn replaces_state(message: MessageModel) -> bool {
    message is SetupDone || message is CompletedIndexing || message is ResetState
        || message is ViewError
}

/// The state of a view is kept by every message that brings none of its own:
/// its directory stays, nothing leaves its error log or changes place in it, no
/// rom or collection is added, removed or moved, and of a rom only the length of
/// its box art may change.
pub proof fn lemma_state_is_kept(view: ViewModel, message: MessageModel)
    requires
        view.owned() is Some,
        !replaces_state(message),
    ensures
        ({
            let before = view.owned()->Some_0;
            let after = transition(view, message).0.owned();
            &&& after is Some
            &&& after->Some_0.roms_folder == before.roms_folder
            &&& before.errors.is_prefix_of(after->Some_0.errors)
            &&& after->Some_0.index.collections == before.index.collections
            &&& after->Some_0.index.roms.len() == before.index.roms.len()
            &&& forall|k: int|
                0 <= k < before.index.roms.len() ==> {
                    &&& (#[trigger] after->Some_0.index.roms[k]).name == before.index.roms[k].name
                    &&& after->Some_0.index.roms[k].boxart_path == before.index.roms[k].boxart_path
                }
        }),
{
}

/// An error to record is logged last in the state of the view that has one, and
/// changes nothing else; a view without a state drops it.
pub proof fn lemma_error_is_recorded(view: ViewModel, error: Seq<char>)
    ensures
        transition(view, MessageModel::RecordError(error)).1 is Idle,
        same_kind(transition(view, MessageModel::RecordError(error)).0, view),
        match view.owned() {
            Some(state) => transition(view, MessageModel::RecordError(error)).0 == view.holding(
                state.logged(error),
            ) && transition(view, MessageModel::RecordError(error)).0.owned() == Some(
                state.logged(error),
            ),
            None => transition(view, MessageModel::RecordError(error)).0 == view,
        },
{
}


/// Every piece of work ends in one message: what follows its outcome is a
/// message, or, where the user chose a file, the copying of that file, and what
/// follows the outcome of that is a message.
pub proof fn lemma_task_ends_in_a_message(
    task: TaskModel,
    outcome: OutcomeModel,
    second: OutcomeModel,
)
    ensures
        match task_next(task, outcome) {
            NextModel::Deliver(_) => true,
            NextModel::Continue(copy) => {
                &&& task is ChooseImage
                &&& outcome is Picked
                &&& copy == (TaskModel::CopyFile {
                    from: outcome->Picked_0->Some_0,
                    to: task->ChooseImage_boxart_path,
                    rom_index: task->ChooseImage_rom_index,
                })
                &&& task_next(copy, second) is Deliver
            },
        },
{
}

/// News of written box art may arrive in any order and more than once: for two
/// different roms the list of roms ends up the same whichever news comes first,
/// and for one rom the last news counts.
pub proof fn lemma_written_images_in_any_order(
    view: ViewModel,
    first: usize,
    first_size: u64,
    second: usize,
    second_size: u64,
)
    requires
        view is RomList,
    ensures
        ({
            let one = MessageModel::WroteNewImage(first, first_size);
            let other = MessageModel::WroteNewImage(second, second_size);
            let one_way = transition(transition(view, one).0, other).0;
            let other_way = transition(transition(view, other).0, one).0;
            &&& first != second ==> one_way == other_way
            &&& first == second ==> one_way == transition(view, other).0
        }),
{
    let state = view->RomList_state;
    let count = state.index.roms.len();
    if first < count && second < count {
        let one_way = state.resized(first as int, first_size).resized(second as int, second_size);
        let other_way = state.resized(second as int, second_size).resized(
            first as int,
            first_size,
        );
        if first != second {
            assert(one_way.index.roms =~= other_way.index.roms);
        } else {
            assert(one_way.index.roms =~= state.resized(second as int, second_size).index.roms);
        }
    }
}

} // verus!
