use vstd::prelude::*;
use crate::view::{CurrentView, Directions};

verus! {

/// A key as the terminal reports it.
#[derive(Clone, Copy, Debug, PartialEq, Eq, Structural)]
pub enum Key {
    Char(char),
    Up,
    Down,
    Left,
    Right,
    Tab,
    Home,
    PageUp,
    PageDown,
    /// Any key that no command uses.
    Other,
}

/// The modifiers held with a key: `others` stands for any modifier other
/// than Shift and Control.
#[derive(Clone, Copy, Debug, PartialEq, Eq, Structural)]
pub struct KeyMods {
    pub shift: bool,
    pub control: bool,
    pub others: bool,
}

/// A key with its modifiers.
#[derive(Clone, Copy, Debug, PartialEq, Eq, Structural)]
pub struct KeyInput {
    pub code: Key,
    pub mods: KeyMods,
}

/// An event of the merged input and tick stream.
#[derive(Clone, Copy, Debug, PartialEq, Eq, Structural)]
pub enum Msg {
    Key(KeyInput),
    Tick,
    Quit,
}

/// What an event asks the session to do.
#[derive(Clone, Copy, Debug, PartialEq, Eq, Structural)]
pub enum Command {
    Quit,
    Move(Directions),
    NextTab,
    PrevTab,
    Library,
    Settings,
    Char(char),
    SearchLibrary,
    FindOnPage,
    Tick,
    /// The event is ignored.
    Nothing,
}

/// Keys pressed without a modifier.
pub open spec fn plain_command(code: Key) -> Command {
    match code {
        Key::Char('q') => Command::Quit,
        Key::Char('j') | Key::Down => Command::Move(Directions::Down),
        Key::Char('k') | Key::Up => Command::Move(Directions::Up),
        Key::Char('h') | Key::Left => Command::Move(Directions::Left),
        Key::Char('l') | Key::Right => Command::Move(Directions::Right),
        Key::Tab => Command::NextTab,
        Key::Home => Command::Library,
        Key::Char('s') => Command::Settings,
        Key::Char('n') | Key::PageDown => Command::NextTab,
        Key::Char('p') | Key::PageUp => Command::PrevTab,
        Key::Char(c) => Command::Char(c),
        _ => Command::Nothing,
    }
}

/// Keys pressed with Control; find searches the library in the Library
/// view and the page in a document view.
pub open spec fn control_command(code: Key, view: CurrentView) -> Command {
    match code {
        Key::Char('c') | Key::Down => Command::Quit,
        Key::Char('j') => Command::NextTab,
        Key::Char('k') | Key::Up => Command::PrevTab,
        Key::Char('f') => match view {
            CurrentView::Library => Command::SearchLibrary,
            CurrentView::File(_) => Command::FindOnPage,
            _ => Command::Nothing,
        },
        _ => Command::Nothing,
    }
}

/// Keys pressed with Shift (and not Control).
pub open spec fn shift_command(code: Key) -> Command {
    match code {
        Key::Char('j') | Key::Down => Command::NextTab,
        Key::Char('k') => Command::PrevTab,
        _ => Command::Nothing,
    }
}

/// The command for an event in a view. Exactly one modifier tier is
/// consulted: none held, else Control, else Shift; other modifiers alone
/// give nothing.
pub open spec fn command_of(view: CurrentView, msg: Msg) -> Command {
    match msg {
        Msg::Tick => Command::Tick,
        Msg::Quit => Command::Quit,
        Msg::Key(k) => if !k.mods.shift && !k.mods.control && !k.mods.others {
            plain_command(k.code)
        } else if k.mods.control {
            control_command(k.code, view)
        } else if k.mods.shift {
            shift_command(k.code)
        } else {
            Command::Nothing
        },
    }
}

fn plain_key_command(code: Key) -> (c: Command)
    ensures
        c == plain_command(code),
{
    match code {
        Key::Char('q') => Command::Quit,
        Key::Char('j') | Key::Down => Command::Move(Directions::Down),
        Key::Char('k') | Key::Up => Command::Move(Directions::Up),
        Key::Char('h') | Key::Left => Command::Move(Directions::Left),
        Key::Char('l') | Key::Right => Command::Move(Directions::Right),
        Key::Tab => Command::NextTab,
        Key::Home => Command::Library,
        Key::Char('s') => Command::Settings,
        Key::Char('n') | Key::PageDown => Command::NextTab,
        Key::Char('p') | Key::PageUp => Command::PrevTab,
        Key::Char(c) => Command::Char(c),
        _ => Command::Nothing,
    }
}

fn control_key_command(code: Key, view: CurrentView) -> (c: Command)
    ensures
        c == control_command(code, view),
{
    match code {
        Key::Char('c') | Key::Down => Command::Quit,
        Key::Char('j') => Command::NextTab,
        Key::Char('k') | Key::Up => Command::PrevTab,
        Key::Char('f') => match view {
            CurrentView::Library => Command::SearchLibrary,
            CurrentView::File(_) => Command::FindOnPage,
            _ => Command::Nothing,
        },
        _ => Command::Nothing,
    }
}

fn shift_key_command(code: Key) -> (c: Command)
    ensures
        c == shift_command(code),
{
    match code {
        Key::Char('j') | Key::Down => Command::NextTab,
        Key::Char('k') => Command::PrevTab,
        _ => Command::Nothing,
    }
}

/// Maps an event to the command it stands for in `view`.
pub fn command_for(view: CurrentView, msg: &Msg) -> (c: Command)
    ensures
        c == command_of(view, *msg),
{
    match msg {
        Msg::Tick => Command::Tick,
        Msg::Quit => Command::Quit,
        Msg::Key(k) => {
            if !k.mods.shift && !k.mods.control && !k.mods.others {
                plain_key_command(k.code)
            } else if k.mods.control {
                control_key_command(k.code, view)
            } else if k.mods.shift {
                shift_key_command(k.code)
            } else {
                Command::Nothing
            }
        },
    }
}

/// Control+f finds on the page in a document view and searches the
/// library in the Library view, whatever other modifiers are held.
pub proof fn lemma_find_follows_view(slot: u8, shift: bool, others: bool)
    ensures
        command_of(
            CurrentView::File(slot),
            Msg::Key(KeyInput { code: Key::Char('f'), mods: KeyMods { shift, control: true, others } }),
        ) == Command::FindOnPage,
        command_of(
            CurrentView::Library,
            Msg::Key(KeyInput { code: Key::Char('f'), mods: KeyMods { shift, control: true, others } }),
        ) == Command::SearchLibrary,
{
}

} // verus!
