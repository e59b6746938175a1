use nextart::scan::{boxart_file, media_folder};
use nextart::{Collection, Entry, EntryKind, Rom, Scan, ScanReply, ScanRequest, Stage, State};

/// A directory tree held in memory, and what each question about it is answered with.
struct Disk {
    listings: Vec<(String, Result<Vec<Result<Entry, String>>, String>)>,
    present: Vec<(String, Result<bool, String>)>,
    lengths: Vec<(String, Result<u64, String>)>,
    refused: Vec<(String, String)>,
    created: Vec<String>,
}

fn empty_disk() -> Disk {
    Disk {
        listings: Vec::new(),
        present: Vec::new(),
        lengths: Vec::new(),
        refused: Vec::new(),
        created: Vec::new(),
    }
}

fn dir(parent: &str, name: &str) -> Result<Entry, String> {
    Ok(Entry {
        path: format!("{}/{}", parent, name),
        name: name.to_string(),
        stem: Some(name.to_string()),
        kind: Ok(EntryKind::Directory),
    })
}

fn file(parent: &str, name: &str, stem: Option<&str>) -> Result<Entry, String> {
    Ok(Entry {
        path: format!("{}/{}", parent, name),
        name: name.to_string(),
        stem: stem.map(|s| s.to_string()),
        kind: Ok(EntryKind::File),
    })
}

fn answer(disk: &mut Disk, request: &ScanRequest) -> ScanReply {
    match request {
        ScanRequest::List(path) => {
            let found = disk.listings.iter().position(|(p, _)| p == path);
            match found {
                Some(at) => {
                    let (_, listing) = disk.listings.remove(at);
                    ScanReply::Listed(listing)
                }
                None => ScanReply::Listed(Err("No such file or directory (os error 2)".to_string())),
            }
        }
        ScanRequest::Exists(path) => {
            if disk.created.contains(path) {
                return ScanReply::Found(Ok(true));
            }
            match disk.present.iter().find(|(p, _)| p == path) {
                Some((_, Ok(found))) => ScanReply::Found(Ok(*found)),
                Some((_, Err(error))) => ScanReply::Found(Err(error.clone())),
                None => ScanReply::Found(Ok(false)),
            }
        }
        ScanRequest::CreateDir(path) => match disk.refused.iter().find(|(p, _)| p == path) {
            Some((_, error)) => ScanReply::Created(Err(error.clone())),
            None => {
                disk.created.push(path.clone());
                ScanReply::Created(Ok(()))
            }
        },
        ScanRequest::Measure(path) => match disk.lengths.iter().find(|(p, _)| p == path) {
            Some((_, Ok(length))) => ScanReply::Measured(Ok(*length)),
            Some((_, Err(error))) => ScanReply::Measured(Err(error.clone())),
            None => ScanReply::Measured(Err("No such file or directory (os error 2)".to_string())),
        },
        ScanRequest::Done(_) => unreachable!(),
    }
}

/// Runs a whole scan of `root` against `disk`; returns the state, how the scan
/// ended and every request that was made.
fn run(disk: &mut Disk, root: &str) -> (State, Result<(), String>, Vec<ScanRequest>) {
    let mut state = State::new(root.to_string());
    let mut scan = Scan::new();
    let mut asked = Vec::new();
    let mut request = state.scan_request(&scan);
    for _ in 0..1000 {
        if let ScanRequest::Done(ended) = request {
            assert_eq!(scan.stage(), Stage::Finished);
            return (state, ended, asked);
        }
        let reply = answer(disk, &request);
        asked.push(request);
        request = state.index_roms(&mut scan, reply);
    }
    panic!("the scan did not end");
}

fn check_index(state: &State) {
    for collection in &state.index.collections {
        assert!(!collection.rom_indices.is_empty());
        for place in &collection.rom_indices {
            assert!(*place < state.index.roms.len());
        }
    }
}

#[test]
fn first_request_lists_the_root() {
    let state = State::new("/roms".to_string());
    let scan = Scan::new();
    assert_eq!(scan.stage(), Stage::Root);
    assert_eq!(state.scan_request(&scan), ScanRequest::List("/roms".to_string()));
}

#[test]
fn fresh_state_is_empty() {
    let state = State::new("/roms".to_string());
    assert_eq!(state.roms_folder, "/roms");
    assert!(state.index.roms.is_empty());
    assert!(state.index.collections.is_empty());
    assert!(state.errors.is_empty());
}

#[test]
fn paths_of_media_folder_and_box_art() {
    assert_eq!(media_folder(&"/roms/A".to_string()), "/roms/A/.media");
    assert_eq!(boxart_file(&"/roms/A".to_string(), &"game".to_string()), "/roms/A/.media/game.png");
}

#[test]
fn empty_collection_is_pruned() {
    let mut disk = empty_disk();
    disk.listings.push((
        "/roms".to_string(),
        Ok(vec![dir("/roms", "CollectionA"), dir("/roms", "CollectionB")]),
    ));
    disk.listings.push((
        "/roms/CollectionA".to_string(),
        Ok(vec![file("/roms/CollectionA", "game.rom", Some("game"))]),
    ));
    disk.listings.push(("/roms/CollectionB".to_string(), Ok(vec![])));
    let (state, ended, asked) = run(&mut disk, "/roms");
    assert_eq!(ended, Ok(()));
    assert_eq!(
        state.index.collections,
        vec![Collection { name: "CollectionA".to_string(), rom_indices: vec![0] }]
    );
    assert_eq!(
        state.index.roms,
        vec![Rom {
            name: "game".to_string(),
            boxart_path: "/roms/CollectionA/.media/game.png".to_string(),
            boxart_size: 0,
        }]
    );
    assert!(state.errors.is_empty());
    assert_eq!(
        asked,
        vec![
            ScanRequest::List("/roms".to_string()),
            ScanRequest::List("/roms/CollectionA".to_string()),
            ScanRequest::Exists("/roms/CollectionA/.media".to_string()),
            ScanRequest::CreateDir("/roms/CollectionA/.media".to_string()),
            ScanRequest::Exists("/roms/CollectionA/.media/game.png".to_string()),
            ScanRequest::List("/roms/CollectionB".to_string()),
            ScanRequest::Exists("/roms/CollectionB/.media".to_string()),
            ScanRequest::CreateDir("/roms/CollectionB/.media".to_string()),
        ]
    );
    check_index(&state);
}

#[test]
fn box_art_present_gives_its_length() {
    let mut disk = empty_disk();
    disk.listings.push(("/roms".to_string(), Ok(vec![dir("/roms", "CollectionA")])));
    disk.listings.push((
        "/roms/CollectionA".to_string(),
        Ok(vec![
            file("/roms/CollectionA", "game.rom", Some("game")),
            dir("/roms/CollectionA", ".media"),
        ]),
    ));
    disk.present.push(("/roms/CollectionA/.media".to_string(), Ok(true)));
    disk.present.push(("/roms/CollectionA/.media/game.png".to_string(), Ok(true)));
    disk.lengths.push(("/roms/CollectionA/.media/game.png".to_string(), Ok(10)));
    let (state, ended, asked) = run(&mut disk, "/roms");
    assert_eq!(ended, Ok(()));
    assert_eq!(state.index.roms.len(), 1);
    assert_eq!(state.index.roms[0].name, "game");
    assert_eq!(state.index.roms[0].boxart_size, 10);
    assert_eq!(state.index.roms[0].boxart_path, "/roms/CollectionA/.media/game.png");
    assert_eq!(state.index.collections.len(), 1);
    assert_eq!(state.index.collections[0].rom_indices, vec![0]);
    assert!(state.errors.is_empty());
    assert!(disk.created.is_empty());
    assert_eq!(
        asked,
        vec![
            ScanRequest::List("/roms".to_string()),
            ScanRequest::List("/roms/CollectionA".to_string()),
            ScanRequest::Exists("/roms/CollectionA/.media".to_string()),
            ScanRequest::Exists("/roms/CollectionA/.media/game.png".to_string()),
            ScanRequest::Measure("/roms/CollectionA/.media/game.png".to_string()),
        ]
    );
}

#[test]
fn unreadable_collection_does_not_stop_the_scan() {
    let mut disk = empty_disk();
    disk.listings.push(("/roms".to_string(), Ok(vec![dir("/roms", "Bad"), dir("/roms", "Good")])));
    disk.listings
        .push(("/roms/Bad".to_string(), Err("Permission denied (os error 13)".to_string())));
    disk.listings.push((
        "/roms/Good".to_string(),
        Ok(vec![file("/roms/Good", "a.bin", Some("a")), file("/roms/Good", "b.bin", Some("b"))]),
    ));
    let (state, ended, _) = run(&mut disk, "/roms");
    assert_eq!(ended, Ok(()));
    assert_eq!(
        state.errors,
        vec![
            "Failed to index collection '/roms/Bad': Failed to read collection directory '/roms/Bad': Permission denied (os error 13)"
                .to_string()
        ]
    );
    assert!(state.errors[0].contains("/roms/Bad"));
    assert_eq!(
        state.index.collections,
        vec![Collection { name: "Good".to_string(), rom_indices: vec![0, 1] }]
    );
    assert_eq!(state.index.roms.len(), 2);
    assert_eq!(state.index.roms[0].name, "a");
    assert_eq!(state.index.roms[1].name, "b");
    check_index(&state);
}

#[test]
fn unreadable_root_is_fatal() {
    let mut disk = empty_disk();
    disk.listings.push(("/roms".to_string(), Err("Not a directory (os error 20)".to_string())));
    let (mut state, ended, asked) = run(&mut disk, "/roms");
    assert_eq!(
        ended,
        Err("Failed to read directory '/roms': Not a directory (os error 20)".to_string())
    );
    assert_eq!(asked, vec![ScanRequest::List("/roms".to_string())]);
    assert!(state.errors.is_empty());
    assert!(state.index.roms.is_empty());
    assert!(state.index.collections.is_empty());
    state.scan_ended(ended);
    assert_eq!(
        state.errors,
        vec!["Failed to read directory '/roms': Not a directory (os error 20)".to_string()]
    );
}

#[test]
fn scan_that_ends_well_logs_nothing_at_its_end() {
    let mut state = State::new("/roms".to_string());
    state.scan_ended(Ok(()));
    assert!(state.errors.is_empty());
}

#[test]
fn root_entries_that_are_no_directories_are_ignored() {
    let mut disk = empty_disk();
    disk.listings.push((
        "/roms".to_string(),
        Ok(vec![
            file("/roms", "readme.txt", Some("readme")),
            Ok(Entry {
                path: "/roms/link".to_string(),
                name: "link".to_string(),
                stem: Some("link".to_string()),
                kind: Ok(EntryKind::Other),
            }),
        ]),
    ));
    let (state, ended, asked) = run(&mut disk, "/roms");
    assert_eq!(ended, Ok(()));
    assert_eq!(asked.len(), 1);
    assert!(state.errors.is_empty());
    assert!(state.index.roms.is_empty());
    assert!(state.index.collections.is_empty());
}

#[test]
fn bad_root_entries_are_logged_in_order() {
    let mut disk = empty_disk();
    disk.listings.push((
        "/roms".to_string(),
        Ok(vec![
            Err("Input/output error (os error 5)".to_string()),
            Ok(Entry {
                path: "/roms/odd".to_string(),
                name: "odd".to_string(),
                stem: Some("odd".to_string()),
                kind: Err("Permission denied (os error 13)".to_string()),
            }),
            dir("/roms", "A"),
            Err("Stale file handle (os error 116)".to_string()),
        ]),
    ));
    disk.listings.push(("/roms/A".to_string(), Ok(vec![file("/roms/A", "x.rom", Some("x"))])));
    let (state, ended, _) = run(&mut disk, "/roms");
    assert_eq!(ended, Ok(()));
    assert_eq!(
        state.errors,
        vec![
            "Failed to read directory entry: Input/output error (os error 5)".to_string(),
            "Failed to determine file type for '/roms/odd': Permission denied (os error 13)"
                .to_string(),
            "Failed to read directory entry: Stale file handle (os error 116)".to_string(),
        ]
    );
    assert_eq!(state.index.collections.len(), 1);
    assert_eq!(state.index.collections[0].name, "A");
    check_index(&state);
}

#[test]
fn bad_collection_entries_are_logged_and_left_out() {
    let mut disk = empty_disk();
    disk.listings.push(("/roms".to_string(), Ok(vec![dir("/roms", "A")])));
    disk.listings.push((
        "/roms/A".to_string(),
        Ok(vec![
            file("/roms/A", "one.rom", Some("one")),
            Err("Input/output error (os error 5)".to_string()),
            Ok(Entry {
                path: "/roms/A/odd".to_string(),
                name: "odd".to_string(),
                stem: Some("odd".to_string()),
                kind: Err("Permission denied (os error 13)".to_string()),
            }),
            file("/roms/A", "..", None),
            dir("/roms/A", "sub"),
            file("/roms/A", "two.rom", Some("two")),
        ]),
    ));
    let (state, ended, _) = run(&mut disk, "/roms");
    assert_eq!(ended, Ok(()));
    assert_eq!(
        state.errors,
        vec![
            "Failed to read directory entry: Input/output error (os error 5)".to_string(),
            "Failed to determine file type for '/roms/A/odd': Permission denied (os error 13)"
                .to_string(),
            "Failed to extract file stem: /roms/A/..".to_string(),
        ]
    );
    assert_eq!(state.index.roms.len(), 2);
    assert_eq!(state.index.roms[0].name, "one");
    assert_eq!(state.index.roms[1].name, "two");
    assert_eq!(state.index.collections[0].rom_indices, vec![0, 1]);
    check_index(&state);
}

#[test]
fn media_folder_that_cannot_be_made_skips_the_collection() {
    let mut disk = empty_disk();
    disk.listings.push(("/roms".to_string(), Ok(vec![dir("/roms", "A"), dir("/roms", "B")])));
    disk.listings.push(("/roms/A".to_string(), Ok(vec![file("/roms/A", "x.rom", Some("x"))])));
    disk.listings.push(("/roms/B".to_string(), Ok(vec![file("/roms/B", "y.rom", Some("y"))])));
    disk.refused
        .push(("/roms/A/.media".to_string(), "Read-only file system (os error 30)".to_string()));
    let (state, ended, asked) = run(&mut disk, "/roms");
    assert_eq!(ended, Ok(()));
    assert_eq!(
        state.errors,
        vec![
            "Failed to index collection '/roms/A': Failed to create media folder '/roms/A/.media': Read-only file system (os error 30)"
                .to_string()
        ]
    );
    assert_eq!(
        state.index.collections,
        vec![Collection { name: "B".to_string(), rom_indices: vec![0] }]
    );
    assert_eq!(state.index.roms.len(), 1);
    assert_eq!(state.index.roms[0].name, "y");
    assert!(asked.contains(&ScanRequest::CreateDir("/roms/A/.media".to_string())));
    assert!(!asked.contains(&ScanRequest::Exists("/roms/A/.media/x.png".to_string())));
}

#[test]
fn media_folder_whose_presence_is_unknown_is_created() {
    let mut disk = empty_disk();
    disk.listings.push(("/roms".to_string(), Ok(vec![dir("/roms", "A")])));
    disk.listings.push(("/roms/A".to_string(), Ok(vec![])));
    disk.present
        .push(("/roms/A/.media".to_string(), Err("Permission denied (os error 13)".to_string())));
    let (state, ended, asked) = run(&mut disk, "/roms");
    assert_eq!(ended, Ok(()));
    assert!(state.errors.is_empty());
    assert_eq!(asked.last(), Some(&ScanRequest::CreateDir("/roms/A/.media".to_string())));
}

#[test]
fn box_art_that_cannot_be_probed_leaves_the_rom_out() {
    let mut disk = empty_disk();
    disk.listings.push(("/roms".to_string(), Ok(vec![dir("/roms", "A")])));
    disk.listings.push((
        "/roms/A".to_string(),
        Ok(vec![file("/roms/A", "x.rom", Some("x")), file("/roms/A", "y.rom", Some("y"))]),
    ));
    disk.present.push((
        "/roms/A/.media/x.png".to_string(),
        Err("Permission denied (os error 13)".to_string()),
    ));
    let (state, ended, _) = run(&mut disk, "/roms");
    assert_eq!(ended, Ok(()));
    assert_eq!(
        state.errors,
        vec![
            "Failed to get metadata for '/roms/A/.media/x.png: Permission denied (os error 13)'"
                .to_string()
        ]
    );
    assert_eq!(state.index.roms.len(), 1);
    assert_eq!(state.index.roms[0].name, "y");
    assert_eq!(state.index.collections[0].rom_indices, vec![0]);
}

#[test]
fn box_art_that_cannot_be_measured_leaves_the_rom_out() {
    let mut disk = empty_disk();
    disk.listings.push(("/roms".to_string(), Ok(vec![dir("/roms", "A")])));
    disk.listings.push(("/roms/A".to_string(), Ok(vec![file("/roms/A", "x.rom", Some("x"))])));
    disk.present.push(("/roms/A/.media/x.png".to_string(), Ok(true)));
    disk.lengths.push((
        "/roms/A/.media/x.png".to_string(),
        Err("Permission denied (os error 13)".to_string()),
    ));
    let (state, ended, _) = run(&mut disk, "/roms");
    assert_eq!(ended, Ok(()));
    assert_eq!(state.errors, vec!["Failed to get metadata for '/roms/A/.media/x.png'".to_string()]);
    assert!(state.index.roms.is_empty());
    assert!(state.index.collections.is_empty());
}

#[test]
fn size_is_zero_exactly_when_box_art_is_absent() {
    let mut disk = empty_disk();
    disk.listings.push(("/roms".to_string(), Ok(vec![dir("/roms", "A")])));
    disk.listings.push((
        "/roms/A".to_string(),
        Ok(vec![
            file("/roms/A", "with.rom", Some("with")),
            file("/roms/A", "without.rom", Some("without")),
        ]),
    ));
    disk.present.push(("/roms/A/.media/with.png".to_string(), Ok(true)));
    disk.lengths.push(("/roms/A/.media/with.png".to_string(), Ok(2048)));
    let (state, _, _) = run(&mut disk, "/roms");
    assert_eq!(state.index.roms.len(), 2);
    for rom in &state.index.roms {
        let there = rom.boxart_path == "/roms/A/.media/with.png";
        assert_eq!(rom.boxart_size == 0, !there);
    }
    assert_eq!(state.index.roms[0].boxart_size, 2048);
    assert_eq!(state.index.roms[1].boxart_size, 0);
}

#[test]
fn empty_box_art_file_has_size_zero() {
    let mut disk = empty_disk();
    disk.listings.push(("/roms".to_string(), Ok(vec![dir("/roms", "A")])));
    disk.listings.push(("/roms/A".to_string(), Ok(vec![file("/roms/A", "x.rom", Some("x"))])));
    disk.present.push(("/roms/A/.media/x.png".to_string(), Ok(true)));
    disk.lengths.push(("/roms/A/.media/x.png".to_string(), Ok(0)));
    let (state, _, _) = run(&mut disk, "/roms");
    assert_eq!(state.index.roms.len(), 1);
    assert_eq!(state.index.roms[0].boxart_size, 0);
}

fn sample_disk() -> Disk {
    let mut disk = empty_disk();
    disk.listings.push((
        "/roms".to_string(),
        Ok(vec![dir("/roms", "A"), file("/roms", "note", Some("note")), dir("/roms", "B")]),
    ));
    disk.listings.push((
        "/roms/A".to_string(),
        Ok(vec![file("/roms/A", "x.rom", Some("x")), file("/roms/A", "y.rom", Some("y"))]),
    ));
    disk.listings.push(("/roms/B".to_string(), Ok(vec![file("/roms/B", "z.rom", Some("z"))])));
    disk.present.push(("/roms/A/.media".to_string(), Ok(true)));
    disk.present.push(("/roms/B/.media".to_string(), Ok(true)));
    disk.present.push(("/roms/A/.media/y.png".to_string(), Ok(true)));
    disk.lengths.push(("/roms/A/.media/y.png".to_string(), Ok(77)));
    disk
}

#[test]
fn scanning_twice_gives_the_same_index() {
    let (first, first_ended, first_asked) = run(&mut sample_disk(), "/roms");
    let (second, second_ended, second_asked) = run(&mut sample_disk(), "/roms");
    assert_eq!(first.index, second.index);
    assert_eq!(first_ended, second_ended);
    assert_eq!(first_asked, second_asked);
    assert_eq!(first.index.roms.len(), 3);
    assert_eq!(first.index.roms[1].boxart_size, 77);
    assert_eq!(
        first.index.collections,
        vec![
            Collection { name: "A".to_string(), rom_indices: vec![0, 1] },
            Collection { name: "B".to_string(), rom_indices: vec![2] },
        ]
    );
}

#[test]
fn index_does_not_depend_on_what_was_logged_before() {
    let (plain, _, plain_asked) = run(&mut sample_disk(), "/roms");
    let mut disk = sample_disk();
    let mut state = State::new("/roms".to_string());
    state.record("earlier trouble".to_string());
    let mut scan = Scan::new();
    let mut asked = Vec::new();
    let mut request = state.scan_request(&scan);
    while !matches!(request, ScanRequest::Done(_)) {
        let reply = answer(&mut disk, &request);
        asked.push(request);
        request = state.index_roms(&mut scan, reply);
    }
    assert_eq!(state.index, plain.index);
    assert_eq!(asked, plain_asked);
    assert_eq!(state.errors, vec!["earlier trouble".to_string()]);
}

#[test]
fn reply_that_answers_nothing_changes_nothing() {
    let mut state = State::new("/roms".to_string());
    let mut scan = Scan::new();
    let request = state.index_roms(&mut scan, ScanReply::Found(Ok(true)));
    assert_eq!(request, ScanRequest::List("/roms".to_string()));
    assert_eq!(scan.stage(), Stage::Root);
    assert_eq!(state, State::new("/roms".to_string()));
    let request = state.index_roms(&mut scan, ScanReply::Measured(Ok(3)));
    assert_eq!(request, ScanRequest::List("/roms".to_string()));
    let request = state.index_roms(&mut scan, ScanReply::Created(Ok(())));
    assert_eq!(request, ScanRequest::List("/roms".to_string()));
}

#[test]
fn finished_scan_stays_finished() {
    let mut state = State::new("/roms".to_string());
    let mut scan = Scan::new();
    let request = state.index_roms(&mut scan, ScanReply::Listed(Ok(vec![])));
    assert_eq!(request, ScanRequest::Done(Ok(())));
    let request = state.index_roms(
        &mut scan,
        ScanReply::Listed(Ok(vec![dir("/roms", "A")])),
    );
    assert_eq!(request, ScanRequest::Done(Ok(())));
    assert_eq!(scan.stage(), Stage::Finished);
    assert!(state.index.collections.is_empty());
}

#[test]
fn stages_follow_the_requests() {
    let mut state = State::new("/r".to_string());
    let mut scan = Scan::new();
    let request = state.index_roms(&mut scan, ScanReply::Listed(Ok(vec![dir("/r", "A")])));
    assert_eq!(request, ScanRequest::List("/r/A".to_string()));
    assert_eq!(scan.stage(), Stage::Folder);
    let request = state.index_roms(
        &mut scan,
        ScanReply::Listed(Ok(vec![file("/r/A", "g.rom", Some("g"))])),
    );
    assert_eq!(request, ScanRequest::Exists("/r/A/.media".to_string()));
    assert_eq!(scan.stage(), Stage::Sidecar);
    let request = state.index_roms(&mut scan, ScanReply::Found(Ok(false)));
    assert_eq!(request, ScanRequest::CreateDir("/r/A/.media".to_string()));
    assert_eq!(scan.stage(), Stage::SidecarCreate);
    let request = state.index_roms(&mut scan, ScanReply::Created(Ok(())));
    assert_eq!(request, ScanRequest::Exists("/r/A/.media/g.png".to_string()));
    assert_eq!(scan.stage(), Stage::Boxart);
    let request = state.index_roms(&mut scan, ScanReply::Found(Ok(true)));
    assert_eq!(request, ScanRequest::Measure("/r/A/.media/g.png".to_string()));
    assert_eq!(scan.stage(), Stage::BoxartSize);
    assert!(state.index.roms.is_empty());
    let request = state.index_roms(&mut scan, ScanReply::Measured(Ok(5)));
    assert_eq!(request, ScanRequest::Done(Ok(())));
    assert_eq!(scan.stage(), Stage::Finished);
    assert_eq!(state.index.roms[0].boxart_size, 5);
    assert_eq!(state.index.collections[0].rom_indices, vec![0]);
}
