use nextart::{Failure, Message, Next, NextArtView, Outcome, Preview, State, Task};

fn s(text: &str) -> String {
    text.to_string()
}

#[test]
fn report_delivers_its_text_as_an_error() {
    assert_eq!(
        Task::Report(s("Cannot navigate: No state available")).resume(Outcome::Nothing),
        Next::Deliver(Message::RecordError(s("Cannot navigate: No state available")))
    );
}

#[test]
fn idle_and_copy_text_deliver_nothing() {
    assert_eq!(Task::Idle.resume(Outcome::Nothing), Next::Deliver(Message::NoOp));
    assert_eq!(Task::CopyText(s("text")).resume(Outcome::Nothing), Next::Deliver(Message::NoOp));
}

#[test]
fn pasted_image_announces_its_size() {
    let task = Task::PasteImage { boxart_path: s("/a/x.png"), rom_index: 4 };
    assert_eq!(task.resume(Outcome::Wrote(Ok(900))), Next::Deliver(Message::WroteNewImage(4, 900)));
}

#[test]
fn failed_paste_is_recorded() {
    let task = Task::PasteImage { boxart_path: s("/a/x.png"), rom_index: 4 };
    assert_eq!(
        task.resume(Outcome::Wrote(Err(Failure::ClipboardImageInvalid))),
        Next::Deliver(Message::RecordError(s(
            "Failed to create image from clipboard data: Invalid image dimensions or data."
        )))
    );
}

#[test]
fn copied_image_delivers_nothing() {
    let task = Task::CopyImage { image_path: s("/a/x.png") };
    assert_eq!(task.resume(Outcome::Copied(Ok(()))), Next::Deliver(Message::NoOp));
}

#[test]
fn failed_copy_to_clipboard_is_recorded() {
    let task = Task::CopyImage { image_path: s("/a/x.png") };
    assert_eq!(
        task.resume(Outcome::Copied(Err(Failure::CopyToClipboard { error: s("busy") }))),
        Next::Deliver(Message::RecordError(s("Failed to copy image to clipboard: busy")))
    );
}

#[test]
fn loaded_image_is_handed_over() {
    let task = Task::LoadImage { image_path: s("/a/x.png") };
    let preview = Preview { width: 2, height: 1, pixels: vec![1, 2, 3, 4, 5, 6, 7, 8] };
    assert_eq!(
        task.resume(Outcome::Loaded(Ok(preview))),
        Next::Deliver(Message::SetRomInfoImage(2, 1, vec![1, 2, 3, 4, 5, 6, 7, 8]))
    );
}

#[test]
fn failed_load_is_recorded() {
    let task = Task::LoadImage { image_path: s("/a/x.png") };
    assert_eq!(
        task.resume(Outcome::Loaded(Err(Failure::DecodeImage {
            path: s("/a/x.png"),
            error: s("bad magic"),
        }))),
        Next::Deliver(Message::RecordError(s("Failed to decode image '/a/x.png': bad magic")))
    );
}

#[test]
fn chosen_file_is_copied_next() {
    let task = Task::ChooseImage { boxart_path: s("/a/x.png"), rom_index: 2 };
    assert_eq!(
        task.resume(Outcome::Picked(Some(s("/home/me/new.png")))),
        Next::Continue(Task::CopyFile { from: s("/home/me/new.png"), to: s("/a/x.png"), rom_index: 2 })
    );
}

#[test]
fn no_chosen_file_is_no_error() {
    let task = Task::ChooseImage { boxart_path: s("/a/x.png"), rom_index: 2 };
    assert_eq!(task.resume(Outcome::Picked(None)), Next::Deliver(Message::NoOp));
}

#[test]
fn copied_file_announces_its_size() {
    let task = Task::CopyFile { from: s("/home/me/new.png"), to: s("/a/x.png"), rom_index: 2 };
    assert_eq!(task.resume(Outcome::Wrote(Ok(12))), Next::Deliver(Message::WroteNewImage(2, 12)));
}

#[test]
fn failed_file_copy_is_recorded() {
    let task = Task::CopyFile { from: s("/home/me/new.png"), to: s("/a/x.png"), rom_index: 2 };
    assert_eq!(
        task.resume(Outcome::Wrote(Err(Failure::CopyFile {
            from: s("/home/me/new.png"),
            to: s("/a/x.png"),
            error: s("full"),
        }))),
        Next::Deliver(Message::RecordError(s(
            "Failed to copy file from '/home/me/new.png' to '/a/x.png': full"
        )))
    );
}

#[test]
fn picked_folder_is_handed_over() {
    assert_eq!(
        Task::PickFolder.resume(Outcome::Picked(Some(s("/sd/roms")))),
        Next::Deliver(Message::RomDirectoryChosen(s("/sd/roms")))
    );
    assert_eq!(Task::PickFolder.resume(Outcome::Picked(None)), Next::Deliver(Message::NoOp));
}

#[test]
fn indexed_state_is_handed_over() {
    let mut indexed = State::new(s("/roms"));
    indexed.record(s("one bad entry"));
    assert_eq!(
        Task::Scan(State::new(s("/roms"))).resume(Outcome::Indexed(indexed.clone())),
        Next::Deliver(Message::CompletedIndexing(indexed))
    );
}

#[test]
fn outcome_of_another_task_is_dropped() {
    assert_eq!(Task::PickFolder.resume(Outcome::Wrote(Ok(3))), Next::Deliver(Message::NoOp));
    assert_eq!(
        Task::LoadImage { image_path: s("/a/x.png") }.resume(Outcome::Picked(Some(s("/x")))),
        Next::Deliver(Message::NoOp)
    );
    assert_eq!(
        Task::Scan(State::new(s("/roms"))).resume(Outcome::Nothing),
        Next::Deliver(Message::NoOp)
    );
}

#[test]
fn saved_configuration_logs_nothing() {
    let mut state = State::new(s("/roms"));
    state.config_saved(Ok(()));
    assert!(state.errors.is_empty());
}

#[test]
fn unsaved_configuration_is_logged() {
    let mut state = State::new(s("/roms"));
    state.config_saved(Err(Failure::NoHomeDirectory));
    state.config_saved(Err(Failure::ConfigDirCreate { error: s("denied") }));
    state.config_saved(Err(Failure::ConfigFileCreate { error: s("full") }));
    assert_eq!(
        state.errors,
        vec![
            s("Failed to retrieve home directory from operating system. Roms path will not be pre-filled on restart."),
            s("Failed to create config directory. Roms path will not be pre-filled on restart: denied"),
            s("Failed to create config file. Roms path will not be pre-filled on restart: full"),
        ]
    );
    assert_eq!(state.roms_folder, "/roms");
    assert!(state.index.roms.is_empty());
}

#[test]
fn paste_then_reload_shows_the_new_size() {
    let mut state = State::new(s("/roms"));
    state.index.roms.push(nextart::Rom {
        name: s("game"),
        boxart_path: s("/roms/A/.media/game.png"),
        boxart_size: 0,
    });
    state.index.collections.push(nextart::Collection { name: s("A"), rom_indices: vec![0] });
    let mut view = NextArtView::RomList {
        state,
        title: s("A"),
        selected_index: Some(0),
        selected_image: None,
        rom_indices: vec![0],
    };
    let paste = view.update(Message::ReplacementImageFromClip(s("/roms/A/.media/game.png"), 0));
    let wrote = match paste.resume(Outcome::Wrote(Ok(2500))) {
        Next::Deliver(message) => message,
        other => panic!("more work: {:?}", other),
    };
    let reload = view.update(wrote);
    assert_eq!(reload, Task::LoadImage { image_path: s("/roms/A/.media/game.png") });
    let loaded = match reload.resume(Outcome::Loaded(Ok(Preview {
        width: 1,
        height: 1,
        pixels: vec![255, 0, 0, 255],
    }))) {
        Next::Deliver(message) => message,
        other => panic!("more work: {:?}", other),
    };
    assert_eq!(view.update(loaded), Task::Idle);
    match view {
        NextArtView::RomList { state, selected_image, .. } => {
            assert_eq!(state.index.roms[0].boxart_size, 2500);
            assert_eq!(
                selected_image,
                Some(Preview { width: 1, height: 1, pixels: vec![255, 0, 0, 255] })
            );
        }
        other => panic!("left the list of roms: {:?}", other),
    }
}
