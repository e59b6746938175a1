use nextart::present::sized_label;
use nextart::{Collection, Index, Message, Rom, State};

fn s(text: &str) -> String {
    text.to_string()
}

fn rom(name: &str, size: u64) -> Rom {
    Rom { name: s(name), boxart_path: format!("/roms/A/.media/{}.png", name), boxart_size: size }
}

fn state_of(names: &[&str]) -> State {
    State {
        roms_folder: s("/roms"),
        index: Index {
            roms: names.iter().map(|name| rom(name, 0)).collect(),
            collections: vec![],
        },
        errors: vec![],
    }
}

#[test]
fn label_without_box_art() {
    assert_eq!(rom("game", 0).boxart_label(), "No box art");
}

#[test]
fn label_with_box_art_in_binary_units() {
    assert_eq!(rom("game", 1536).boxart_label(), "1.50 KiB Box Art");
    assert_eq!(rom("game", 1500000).boxart_label(), "1.43 MiB Box Art");
    assert_eq!(rom("game", 10).boxart_label(), "0.01 KiB Box Art");
    assert_eq!(rom("game", 1024 * 1024 * 1024).boxart_label(), "1.00 GiB Box Art");
}

#[test]
fn label_of_the_largest_size() {
    assert_eq!(rom("game", u64::MAX).boxart_label(), "16.00 EiB Box Art");
}

#[test]
fn sized_label_appends_the_words() {
    assert_eq!(sized_label("3.00 KiB"), "3.00 KiB Box Art");
    assert_eq!(sized_label(""), " Box Art");
}

#[test]
fn actions_of_a_rom_without_box_art() {
    let rom = rom("game", 0);
    assert_eq!(
        rom.actions(5),
        vec![
            Message::SetClipboardText(s("/roms/A/.media/game.png")),
            Message::ChooseReplacementImage(s("/roms/A/.media/game.png"), 5),
            Message::ReplacementImageFromClip(s("/roms/A/.media/game.png"), 5),
        ]
    );
}

#[test]
fn actions_of_a_rom_with_box_art() {
    let rom = rom("game", 77);
    assert_eq!(
        rom.actions(5),
        vec![
            Message::SetClipboardText(s("/roms/A/.media/game.png")),
            Message::ChooseReplacementImage(s("/roms/A/.media/game.png"), 5),
            Message::SetClipboardImage(s("/roms/A/.media/game.png")),
            Message::ReplacementImageFromClip(s("/roms/A/.media/game.png"), 5),
        ]
    );
}

#[test]
fn collection_opens_its_own_roms() {
    let collection = Collection { name: s("Arcade"), rom_indices: vec![4, 0, 2] };
    assert_eq!(collection.open_message(), Message::OpenRomList(s("Arcade"), vec![4, 0, 2]));
    let empty = Collection { name: s(""), rom_indices: vec![] };
    assert_eq!(empty.open_message(), Message::OpenRomList(s(""), vec![]));
}

#[test]
fn rows_are_sorted_by_name() {
    let state = state_of(&["pear", "apple", "zebra", "mango"]);
    assert_eq!(state.rom_rows(&vec![0, 1, 2, 3]), vec![1, 3, 0, 2]);
    assert_eq!(state.rom_rows(&vec![3, 2, 1, 0]), vec![1, 3, 0, 2]);
    assert_eq!(state.rom_rows(&vec![2, 0]), vec![0, 2]);
}

#[test]
fn rows_keep_the_order_of_equal_names() {
    let state = state_of(&["same", "other", "same", "same"]);
    assert_eq!(state.rom_rows(&vec![3, 0, 1, 2]), vec![1, 3, 0, 2]);
    assert_eq!(state.rom_rows(&vec![2, 3, 0]), vec![2, 3, 0]);
}

#[test]
fn rows_leave_out_unknown_places() {
    let state = state_of(&["b", "a"]);
    assert_eq!(state.rom_rows(&vec![7, 0, 2, 1, usize::MAX]), vec![1, 0]);
    assert_eq!(state.rom_rows(&vec![9]), Vec::<usize>::new());
    assert_eq!(state.rom_rows(&vec![]), Vec::<usize>::new());
}

#[test]
fn rows_repeat_a_place_that_is_asked_for_twice() {
    let state = state_of(&["b", "a"]);
    assert_eq!(state.rom_rows(&vec![0, 1, 0]), vec![1, 0, 0]);
}

#[test]
fn rows_order_by_code_point() {
    let state = state_of(&["b", "B", "a", "ab", "", "é", "z"]);
    assert_eq!(state.rom_rows(&vec![0, 1, 2, 3, 4, 5, 6]), vec![4, 1, 2, 3, 0, 6, 5]);
}

#[test]
fn rows_agree_with_the_standard_sort() {
    let names = ["delta", "Alpha", "charlie", "bravo", "alpha", "Bravo", "delt", "deltas"];
    let state = state_of(&names);
    let asked: Vec<usize> = (0..names.len()).collect();
    let mut expected = asked.clone();
    expected.sort_by_key(|place| names[*place]);
    assert_eq!(state.rom_rows(&asked), expected);
}
