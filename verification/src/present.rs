//! What a view offers: the messages behind its buttons and the texts of its rows.

use vstd::prelude::*;
use vstd::string::*;
use crate::failure::Failure;
use crate::index::{Collection, Rom, RomModel, State};
use crate::message::{Message, MessageModel};
use crate::strings::{ERROR_NO_PATH, LABEL_BOX_ART, LABEL_NO_BOX_ART, SPACE};
use crate::view::{NextArtView, ViewModel};

verus! {

/// A number of bytes written for a reader, in units of 1024: what
/// `bittenhumans::ByteSizeFormatter::format_auto` gives for it in the binary system.
pub uninterp spec fn binary_size_text(bytes: u64) -> Seq<char>;

/// Calls `bittenhumans::ByteSizeFormatter::format_auto` with `System::Binary`.
/// It picks the largest unit from KiB to EiB that `bytes` fills at least once
/// (KiB where it fills none), divides, and writes the quotient with two decimals,
/// a space and the unit. The contract only gives that text its name: it depends
/// on `bytes` alone. The call does not fail: the largest divisor is 1024 to the
/// sixth, which a `u64` holds.
#[verifier::external_body]
fn format_binary_size(bytes: u64) -> (text: String)
    ensures
        text@ == binary_size_text(bytes),
{
    bittenhumans::ByteSizeFormatter::format_auto(bytes, bittenhumans::consts::System::Binary)
}

/// The label of a rom that has box art, given its size as it is written out.
pub open spec fn sized_label_text(size: Seq<char>) -> Seq<char> {
    size + SPACE@ + LABEL_BOX_ART@
}

/// The label of a rom in a list: that it has no box art, or how large its box art is.
pub open spec fn boxart_label_text(rom: RomModel) -> Seq<char> {
    if rom.boxart_size == 0 {
        LABEL_NO_BOX_ART@
    } else {
        sized_label_text(binary_size_text(rom.boxart_size))
    }
}

/// The label of a rom that has box art of the size that `size` writes out.
pub fn sized_label(size: &str) -> (label: String)
    ensures
        label@ == sized_label_text(size@),
{
    let mut label = String::from_str(size);
    label.append(SPACE);
    label.append(LABEL_BOX_ART);
    label
}

/// What the setup view sends when the user is done: the chosen path to index,
/// or, with none chosen, the error that ends the session. No other view has
/// anything to send.
pub open spec fn done_message(view: ViewModel) -> MessageModel {
    match view {
        ViewModel::Setup { chosen_path: Some(path), .. } => MessageModel::SetupDone(path),
        ViewModel::Setup { chosen_path: None, .. } => MessageModel::ViewError(ERROR_NO_PATH@),
        _ => MessageModel::NoOp,
    }
}

/// What a rom offers to do with its box art, in the order shown: copy its path,
/// choose a file for it, copy the image where there is one, paste an image.
pub open spec fn rom_actions(rom: RomModel, rom_index: usize) -> Seq<MessageModel> {
    if rom.boxart_size == 0 {
        seq![
            MessageModel::SetClipboardText(rom.boxart_path),
            MessageModel::ChooseReplacementImage(rom.boxart_path, rom_index),
            MessageModel::ReplacementImageFromClip(rom.boxart_path, rom_index),
        ]
    } else {
        seq![
            MessageModel::SetClipboardText(rom.boxart_path),
            MessageModel::ChooseReplacementImage(rom.boxart_path, rom_index),
            MessageModel::SetClipboardImage(rom.boxart_path),
            MessageModel::ReplacementImageFromClip(rom.boxart_path, rom_index),
        ]
    }
}

pub open spec fn message_models(messages: Seq<Message>) -> Seq<MessageModel> {
    messages.map_values(|message: Message| message@)
}

/// The view that a session starts in, given what was found of the saved
/// configuration: its path fills the setup view; without a configuration the view
/// is empty; where it could not be looked for or read, the view says why.
pub open spec fn startup_view(loaded: Result<Option<Seq<char>>, Seq<char>>) -> ViewModel {
    match loaded {
        Ok(chosen_path) => ViewModel::Setup { chosen_path, error: None },
        Err(error) => ViewModel::Setup { chosen_path: None, error: Some(error) },
    }
}

impl Rom {
    /// The label of this rom in a list.
    pub fn boxart_label(&self) -> (label: String)
        ensures
            label@ == boxart_label_text(self@),
    {
        if self.boxart_size == 0 {
            String::from_str(LABEL_NO_BOX_ART)
        } else {
            let size = format_binary_size(self.boxart_size);
            sized_label(size.as_str())
        }
    }

    /// The messages behind the buttons of this rom, which stands at `rom_index`.
    pub fn actions(&self, rom_index: usize) -> (messages: Vec<Message>)
        ensures
            message_models(messages@) == rom_actions(self@, rom_index),
    {
        let mut messages: Vec<Message> = Vec::new();
        messages.push(Message::SetClipboardText(self.boxart_path.clone()));
        messages.push(Message::ChooseReplacementImage(self.boxart_path.clone(), rom_index));
        if self.boxart_size != 0 {
            messages.push(Message::SetClipboardImage(self.boxart_path.clone()));
        }
        messages.push(Message::ReplacementImageFromClip(self.boxart_path.clone(), rom_index));
        assert(message_models(messages@) =~= rom_actions(self@, rom_index));
        messages
    }
}

impl Collection {
    /// The message that opens the list of this collection's roms.
    pub fn open_message(&self) -> (message: Message)
        ensures
            message@ == MessageModel::OpenRomList(self@.name, self@.rom_indices),
    {
        let mut rom_indices: Vec<usize> = Vec::new();
        let mut at: usize = 0;
        while at < self.rom_indices.len()
            invariant
                at <= self.rom_indices.len(),
                rom_indices@ == self.rom_indices@.take(at as int),
            decreases self.rom_indices.len() - at,
        {
            rom_indices.push(self.rom_indices[at]);
            assert(rom_indices@ =~= self.rom_indices@.take(at + 1));
            at += 1;
        }
        assert(self.rom_indices@.take(at as int) =~= self.rom_indices@);
        Message::OpenRomList(self.name.clone(), rom_indices)
    }
}

impl State {
    /// Hears what came of saving the configuration: a failure is logged, and the
    /// session goes on either way.
    pub fn config_saved(&mut self, saved: Result<(), Failure>)
        ensures
            final(self)@ == match saved {
                Ok(()) => old(self)@,
                Err(failure) => old(self)@.logged(failure.text()),
            },
    {
        if let Err(failure) = saved {
            self.record(failure.describe());
        }
    }

    /// Hears how the scan ended: where it failed as a whole, why is logged.
    pub fn scan_ended(&mut self, ended: Result<(), String>)
        ensures
            final(self)@ == match ended {
                Ok(()) => old(self)@,
                Err(error) => old(self)@.logged(error@),
            },
    {
        if let Err(error) = ended {
            self.record(error);
        }
    }
}

impl NextArtView {
    /// The view that a session starts in. `loaded` is the path of the saved
    /// configuration, `None` where nothing was saved, or why it could not be had.
    pub fn startup(loaded: Result<Option<String>, Failure>) -> (view: NextArtView)
        ensures
            view@ == startup_view(
                match loaded {
                    Ok(Some(path)) => Ok(Some(path@)),
                    Ok(None) => Ok(None),
                    Err(failure) => Err(failure.text()),
                },
            ),
    {
        match loaded {
            Ok(chosen_path) => NextArtView::Setup { chosen_path, error: None },
            Err(failure) => NextArtView::Setup {
                chosen_path: None,
                error: Some(failure.describe()),
            },
        }
    }

    /// The message behind the button that ends the setup.
    pub fn done_message(&self) -> (message: Message)
        ensures
            message@ == done_message(self@),
    {
        match self {
            NextArtView::Setup { chosen_path: Some(path), .. } => Message::SetupDone(path.clone()),
            NextArtView::Setup { chosen_path: None, .. } => Message::ViewError(
                String::from_str(ERROR_NO_PATH),
            ),
            _ => Message::NoOp,
        }
    }
}

} // verus!
