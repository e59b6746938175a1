use nextart::{Collection, Failure, Index, Message, NextArtView, Preview, Rom, State, Task};

fn s(text: &str) -> String {
    text.to_string()
}

fn sample_state() -> State {
    State {
        roms_folder: s("/roms"),
        index: Index {
            roms: vec![
                Rom { name: s("alpha"), boxart_path: s("/roms/A/.media/alpha.png"), boxart_size: 120 },
                Rom { name: s("beta"), boxart_path: s("/roms/A/.media/beta.png"), boxart_size: 0 },
            ],
            collections: vec![Collection { name: s("A"), rom_indices: vec![0, 1] }],
        },
        errors: vec![s("first")],
    }
}

fn rom_list() -> NextArtView {
    NextArtView::RomList {
        state: sample_state(),
        title: s("A"),
        selected_index: None,
        selected_image: None,
        rom_indices: vec![0, 1],
    }
}

fn every_view() -> Vec<NextArtView> {
    vec![
        NextArtView::Setup { chosen_path: Some(s("/roms")), error: None },
        NextArtView::Loading { state: sample_state(), message: s("wait") },
        NextArtView::CollectionList { state: sample_state() },
        rom_list(),
        NextArtView::FatalError { error_description: s("over") },
        NextArtView::ErrorList { state: sample_state() },
    ]
}

#[test]
fn default_view_is_empty_setup() {
    assert_eq!(NextArtView::default(), NextArtView::Setup { chosen_path: None, error: None });
}

#[test]
fn default_index_is_empty() {
    assert_eq!(Index::default(), Index { roms: vec![], collections: vec![] });
    assert_eq!(Index::new(), Index::default());
}

#[test]
fn no_op_changes_nothing() {
    for view in every_view() {
        let mut after = view.clone();
        assert_eq!(after.update(Message::NoOp), Task::Idle);
        assert_eq!(after, view);
    }
}

#[test]
fn setup_done_starts_loading_and_a_scan() {
    let mut view = NextArtView::Setup { chosen_path: Some(s("/roms")), error: None };
    let task = view.update(Message::SetupDone(s("/roms")));
    let fresh = State { roms_folder: s("/roms"), index: Index::new(), errors: vec![] };
    assert_eq!(
        view,
        NextArtView::Loading {
            state: fresh.clone(),
            message: s("Your collection is being indexed, please be patient."),
        }
    );
    assert_eq!(task, Task::Scan(fresh));
}

#[test]
fn done_with_a_path_sends_setup_done() {
    let view = NextArtView::Setup { chosen_path: Some(s("/roms")), error: Some(s("old")) };
    assert_eq!(view.done_message(), Message::SetupDone(s("/roms")));
}

#[test]
fn done_without_a_path_is_fatal() {
    let mut view = NextArtView::Setup { chosen_path: None, error: None };
    let message = view.done_message();
    assert_eq!(message, Message::ViewError(s("No path selected.")));
    assert_eq!(view.update(message), Task::Idle);
    assert_eq!(view, NextArtView::FatalError { error_description: s("No path selected.") });
}

#[test]
fn done_message_of_other_views_is_no_op() {
    assert_eq!(rom_list().done_message(), Message::NoOp);
    assert_eq!(NextArtView::FatalError { error_description: s("x") }.done_message(), Message::NoOp);
}

#[test]
fn completed_indexing_shows_the_collections() {
    let mut view = NextArtView::Loading { state: State::new(s("/roms")), message: s("wait") };
    let task = view.update(Message::CompletedIndexing(sample_state()));
    assert_eq!(task, Task::Idle);
    assert_eq!(view, NextArtView::CollectionList { state: sample_state() });
}

#[test]
fn open_rom_list_from_collections_moves_the_state() {
    let mut view = NextArtView::CollectionList { state: sample_state() };
    let task = view.update(Message::OpenRomList(s("A"), vec![0, 1]));
    assert_eq!(task, Task::Idle);
    assert_eq!(view, rom_list());
}

#[test]
fn open_rom_list_from_errors_moves_the_state() {
    let mut view = NextArtView::ErrorList { state: sample_state() };
    let task = view.update(Message::OpenRomList(s("A"), vec![0, 1]));
    assert_eq!(task, Task::Idle);
    assert_eq!(view, rom_list());
}

#[test]
fn open_collection_list_from_roms_and_errors() {
    let mut view = rom_list();
    assert_eq!(view.update(Message::OpenCollectionList), Task::Idle);
    assert_eq!(view, NextArtView::CollectionList { state: sample_state() });
    let mut view = NextArtView::ErrorList { state: sample_state() };
    assert_eq!(view.update(Message::OpenCollectionList), Task::Idle);
    assert_eq!(view, NextArtView::CollectionList { state: sample_state() });
}

#[test]
fn open_error_list_from_roms_and_collections() {
    let mut view = rom_list();
    assert_eq!(view.update(Message::OpenErrorList), Task::Idle);
    assert_eq!(view, NextArtView::ErrorList { state: sample_state() });
    let mut view = NextArtView::CollectionList { state: sample_state() };
    assert_eq!(view.update(Message::OpenErrorList), Task::Idle);
    assert_eq!(view, NextArtView::ErrorList { state: sample_state() });
}

#[test]
fn navigation_without_state_is_refused_and_reported() {
    let stateless = vec![
        NextArtView::Setup { chosen_path: None, error: None },
        NextArtView::FatalError { error_description: s("over") },
    ];
    for view in stateless {
        let mut after = view.clone();
        assert_eq!(
            after.update(Message::OpenRomList(s("A"), vec![0])),
            Task::Report(s("Cannot navigate: No state available"))
        );
        assert_eq!(after, view);
        assert_eq!(
            after.update(Message::OpenCollectionList),
            Task::Report(s("Cannot navigate: No state available"))
        );
        assert_eq!(after, view);
        assert_eq!(
            after.update(Message::OpenErrorList),
            Task::Report(s(
                "Cannot navigate to collections: Current view doesn't contain a valid state"
            ))
        );
        assert_eq!(after, view);
        assert_eq!(after.update(Message::RecordError(s("Cannot navigate: No state available"))), Task::Idle);
        assert_eq!(after, view);
    }
}

#[test]
fn navigation_from_the_wrong_list_is_refused() {
    let mut view = NextArtView::Loading { state: sample_state(), message: s("wait") };
    assert_eq!(
        view.update(Message::OpenCollectionList),
        Task::Report(s("Cannot navigate: No state available"))
    );
    assert_eq!(view, NextArtView::Loading { state: sample_state(), message: s("wait") });
    let mut view = NextArtView::CollectionList { state: sample_state() };
    assert_eq!(
        view.update(Message::OpenCollectionList),
        Task::Report(s("Cannot navigate: No state available"))
    );
    assert_eq!(view, NextArtView::CollectionList { state: sample_state() });
    let mut view = rom_list();
    assert_eq!(
        view.update(Message::OpenRomList(s("B"), vec![1])),
        Task::Report(s("Cannot navigate: No state available"))
    );
    assert_eq!(view, rom_list());
    let mut view = NextArtView::ErrorList { state: sample_state() };
    assert_eq!(
        view.update(Message::OpenErrorList),
        Task::Report(s("Cannot navigate to collections: Current view doesn't contain a valid state"))
    );
    assert_eq!(view, NextArtView::ErrorList { state: sample_state() });
}

#[test]
fn record_error_appends_in_every_view_with_a_state() {
    let mut logged = sample_state();
    logged.errors.push(s("second"));
    let mut view = NextArtView::Loading { state: sample_state(), message: s("wait") };
    assert_eq!(view.update(Message::RecordError(s("second"))), Task::Idle);
    assert_eq!(view, NextArtView::Loading { state: logged.clone(), message: s("wait") });
    let mut view = NextArtView::CollectionList { state: sample_state() };
    view.update(Message::RecordError(s("second")));
    assert_eq!(view, NextArtView::CollectionList { state: logged.clone() });
    let mut view = NextArtView::ErrorList { state: sample_state() };
    view.update(Message::RecordError(s("second")));
    assert_eq!(view, NextArtView::ErrorList { state: logged.clone() });
    let mut view = rom_list();
    view.update(Message::RecordError(s("second")));
    match view {
        NextArtView::RomList { state, title, selected_index, selected_image, rom_indices } => {
            assert_eq!(state, logged);
            assert_eq!(title, "A");
            assert_eq!(selected_index, None);
            assert_eq!(selected_image, None);
            assert_eq!(rom_indices, vec![0, 1]);
        }
        other => panic!("left the list of roms: {:?}", other),
    }
}

#[test]
fn record_error_is_dropped_without_a_state() {
    let mut view = NextArtView::Setup { chosen_path: None, error: None };
    assert_eq!(view.update(Message::RecordError(s("lost"))), Task::Idle);
    assert_eq!(view, NextArtView::Setup { chosen_path: None, error: None });
}

#[test]
fn view_error_is_fatal_from_anywhere() {
    for view in every_view() {
        let mut after = view;
        assert_eq!(after.update(Message::ViewError(s("broken"))), Task::Idle);
        assert_eq!(after, NextArtView::FatalError { error_description: s("broken") });
    }
}

#[test]
fn reset_leads_to_empty_setup_from_anywhere() {
    for view in every_view() {
        let mut after = view;
        assert_eq!(after.update(Message::ResetState), Task::Idle);
        assert_eq!(after, NextArtView::Setup { chosen_path: None, error: None });
    }
}

#[test]
fn chosen_directory_fills_setup_only() {
    let mut view = NextArtView::Setup { chosen_path: None, error: Some(s("old")) };
    assert_eq!(view.update(Message::RomDirectoryChosen(s("/sd/roms"))), Task::Idle);
    assert_eq!(view, NextArtView::Setup { chosen_path: Some(s("/sd/roms")), error: Some(s("old")) });
    let mut view = rom_list();
    assert_eq!(view.update(Message::RomDirectoryChosen(s("/sd/roms"))), Task::Idle);
    assert_eq!(view, rom_list());
}

#[test]
fn select_rom_with_box_art_loads_it() {
    let mut view = rom_list();
    let task = view.update(Message::SelectRom(0));
    assert_eq!(task, Task::LoadImage { image_path: s("/roms/A/.media/alpha.png") });
    match view {
        NextArtView::RomList { selected_index, selected_image, .. } => {
            assert_eq!(selected_index, Some(0));
            assert_eq!(selected_image, None);
        }
        other => panic!("left the list of roms: {:?}", other),
    }
}

#[test]
fn select_rom_without_box_art_loads_nothing() {
    let mut view = rom_list();
    let task = view.update(Message::SelectRom(1));
    assert_eq!(task, Task::Idle);
    match view {
        NextArtView::RomList { selected_index, selected_image, .. } => {
            assert_eq!(selected_index, Some(1));
            assert_eq!(selected_image, None);
        }
        other => panic!("left the list of roms: {:?}", other),
    }
}

#[test]
fn select_rom_outside_the_index_is_dropped() {
    let mut view = rom_list();
    assert_eq!(view.update(Message::SelectRom(2)), Task::Idle);
    assert_eq!(view, rom_list());
    assert_eq!(view.update(Message::SelectRom(usize::MAX)), Task::Idle);
    assert_eq!(view, rom_list());
}

#[test]
fn loaded_image_is_shown_in_the_rom_list() {
    let mut view = rom_list();
    view.update(Message::SelectRom(0));
    assert_eq!(view.update(Message::SetRomInfoImage(1, 1, vec![1, 2, 3, 4])), Task::Idle);
    match view {
        NextArtView::RomList { selected_image, selected_index, .. } => {
            assert_eq!(selected_image, Some(Preview { width: 1, height: 1, pixels: vec![1, 2, 3, 4] }));
            assert_eq!(selected_index, Some(0));
        }
        other => panic!("left the list of roms: {:?}", other),
    }
}

#[test]
fn stale_image_reply_is_dropped_silently() {
    let mut view = rom_list();
    assert_eq!(
        view.update(Message::SelectRom(0)),
        Task::LoadImage { image_path: s("/roms/A/.media/alpha.png") }
    );
    assert_eq!(view.update(Message::OpenCollectionList), Task::Idle);
    assert_eq!(view, NextArtView::CollectionList { state: sample_state() });
    assert_eq!(view.update(Message::SetRomInfoImage(1, 1, vec![9, 9, 9, 9])), Task::Idle);
    assert_eq!(view, NextArtView::CollectionList { state: sample_state() });
}

#[test]
fn stale_replies_are_dropped_by_every_other_view() {
    for view in every_view() {
        if matches!(view, NextArtView::RomList { .. }) {
            continue;
        }
        let mut after = view.clone();
        assert_eq!(after.update(Message::SetRomInfoImage(2, 2, vec![0; 16])), Task::Idle);
        assert_eq!(after, view);
        assert_eq!(after.update(Message::WroteNewImage(0, 55)), Task::Idle);
        assert_eq!(after, view);
        assert_eq!(after.update(Message::SelectRom(0)), Task::Idle);
        assert_eq!(after, view);
    }
}

#[test]
fn written_image_updates_size_and_reloads() {
    let mut view = NextArtView::RomList {
        state: sample_state(),
        title: s("A"),
        selected_index: Some(1),
        selected_image: Some(Preview { width: 1, height: 1, pixels: vec![0, 0, 0, 0] }),
        rom_indices: vec![0, 1],
    };
    let task = view.update(Message::WroteNewImage(1, 4321));
    assert_eq!(task, Task::LoadImage { image_path: s("/roms/A/.media/beta.png") });
    let mut written = sample_state();
    written.index.roms[1].boxart_size = 4321;
    assert_eq!(
        view,
        NextArtView::RomList {
            state: written,
            title: s("A"),
            selected_index: Some(1),
            selected_image: None,
            rom_indices: vec![0, 1],
        }
    );
}

#[test]
fn written_image_for_an_unknown_rom_is_dropped() {
    let mut view = rom_list();
    assert_eq!(view.update(Message::WroteNewImage(7, 4321)), Task::Idle);
    assert_eq!(view, rom_list());
}

#[test]
fn messages_that_only_ask_for_work_leave_the_view() {
    for view in every_view() {
        let mut after = view.clone();
        assert_eq!(after.update(Message::OpenRomDirectoryPicker), Task::PickFolder);
        assert_eq!(after.update(Message::SetClipboardText(s("text"))), Task::CopyText(s("text")));
        assert_eq!(
            after.update(Message::SetClipboardImage(s("/a/x.png"))),
            Task::CopyImage { image_path: s("/a/x.png") }
        );
        assert_eq!(
            after.update(Message::ReplacementImageFromClip(s("/a/x.png"), 3)),
            Task::PasteImage { boxart_path: s("/a/x.png"), rom_index: 3 }
        );
        assert_eq!(
            after.update(Message::ChooseReplacementImage(s("/a/x.png"), 3)),
            Task::ChooseImage { boxart_path: s("/a/x.png"), rom_index: 3 }
        );
        assert_eq!(after, view);
    }
}

#[test]
fn state_survives_a_round_through_the_lists() {
    let mut view = NextArtView::CollectionList { state: sample_state() };
    view.update(Message::OpenRomList(s("A"), vec![1]));
    view.update(Message::RecordError(s("second")));
    view.update(Message::OpenErrorList);
    view.update(Message::OpenCollectionList);
    let mut expected = sample_state();
    expected.errors.push(s("second"));
    assert_eq!(view, NextArtView::CollectionList { state: expected });
}

#[test]
fn startup_with_a_saved_path() {
    assert_eq!(
        NextArtView::startup(Ok(Some(s("/sd/roms")))),
        NextArtView::Setup { chosen_path: Some(s("/sd/roms")), error: None }
    );
}

#[test]
fn startup_without_a_configuration() {
    assert_eq!(NextArtView::startup(Ok(None)), NextArtView::Setup { chosen_path: None, error: None });
}

#[test]
fn startup_with_a_broken_configuration() {
    assert_eq!(
        NextArtView::startup(Err(Failure::ConfigFileRead { error: s("EOF while parsing") })),
        NextArtView::Setup {
            chosen_path: None,
            error: Some(s("Failed to read config file: EOF while parsing")),
        }
    );
}

#[test]
fn startup_without_a_home_directory() {
    assert_eq!(
        NextArtView::startup(Err(Failure::NoHomeDirectory)),
        NextArtView::Setup {
            chosen_path: None,
            error: Some(s(
                "Failed to retrieve home directory from operating system. Roms path will not be pre-filled on restart."
            )),
        }
    );
}
