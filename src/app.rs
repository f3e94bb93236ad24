use vstd::prelude::*;
use crate::input::{command_for, command_of, Command, Msg};
use crate::store::{offset_in, Store};
use crate::view::{advanced, retreated, view_ok, CurrentView, Directions};

verus! {

/// The abstract state of a session.
pub struct Session {
    pub current: CurrentView,
    /// The open documents, by slot.
    pub open: Seq<String>,
    pub history: Seq<String>,
    pub positions: Map<u8, u16>,
}

/// The session after one event.
pub open spec fn step(s: Session, msg: Msg) -> Session {
    match command_of(s.current, msg) {
        Command::NextTab => Session { current: advanced(s.current, s.open.len()), ..s },
        Command::PrevTab => Session { current: retreated(s.current, s.open.len()), ..s },
        Command::Library => Session { current: CurrentView::Library, ..s },
        Command::Settings => Session { current: CurrentView::Settings, ..s },
        _ => s,
    }
}

/// Whether an event ends the session.
pub open spec fn ends(s: Session, msg: Msg) -> bool {
    command_of(s.current, msg) == Command::Quit
}

/// The session after the events of `msgs`, taken in order.
pub open spec fn replay(s: Session, msgs: Seq<Msg>) -> Session
    decreases msgs.len(),
{
    if msgs.len() == 0 {
        s
    } else {
        step(replay(s, msgs.drop_last()), msgs.last())
    }
}

/// One session: the active view, the open documents and the position store.
pub struct App {
    current: CurrentView,
    open: Vec<String>,
    store: Store,
}

impl View for App {
    type V = Session;

    closed spec fn view(&self) -> Session {
        Session {
            current: self.current,
            open: self.open@,
            history: self.store.history@,
            positions: self.store.positions@,
        }
    }
}

impl App {
    /// At most 256 documents are open, and a document view names an open one.
    pub open spec fn wf(&self) -> bool {
        &&& self@.open.len() <= 256
        &&& view_ok(self@.current, self@.open.len())
    }

    /// A session in the Library view with nothing open.
    pub fn new() -> (a: App)
        ensures
            a.wf(),
            a@ == (Session {
                current: CurrentView::Library,
                open: Seq::empty(),
                history: Seq::empty(),
                positions: Map::empty(),
            }),
    {
        let a = App { current: CurrentView::Library, open: Vec::new(), store: Store::new() };
        assert(a@.open =~= Seq::empty());
        assert(a@.history =~= Seq::empty());
        a
    }

    pub fn current(&self) -> (v: CurrentView)
        ensures
            v == self@.current,
    {
        self.current
    }

    /// The open documents, by slot.
    pub fn open_documents(&self) -> (r: &Vec<String>)
        ensures
            r@ == self@.open,
    {
        &self.open
    }

    /// Opens a document in the next free slot and returns that slot; with
    /// all 256 slots taken nothing changes and `None` is returned.
    pub fn open_document(&mut self, path: String) -> (r: Option<u8>)
        requires
            old(self).wf(),
        ensures
            final(self).wf(),
            old(self)@.open.len() < 256 ==> r == Some(old(self)@.open.len() as u8),
            old(self)@.open.len() < 256 ==> final(self)@ == (Session {
                open: old(self)@.open.push(path),
                ..old(self)@
            }),
            old(self)@.open.len() >= 256 ==> r.is_none() && final(self)@ == old(self)@,
    {
        let n = self.open.len();
        if n < 256 {
            self.open.push(path);
            Some(n as u8)
        } else {
            Option::None
        }
    }

    /// Jumps to the Library view.
    pub fn library(&mut self)
        requires
            old(self).wf(),
        ensures
            final(self).wf(),
            final(self)@ == (Session { current: CurrentView::Library, ..old(self)@ }),
    {
        self.current = CurrentView::Library;
    }

    /// Jumps to the Settings view.
    pub fn settings(&mut self)
        requires
            old(self).wf(),
        ensures
            final(self).wf(),
            final(self)@ == (Session { current: CurrentView::Settings, ..old(self)@ }),
    {
        self.current = CurrentView::Settings;
    }

    /// Tab-forward; returns the view reached.
    pub fn next_tab(&mut self) -> (v: CurrentView)
        requires
            old(self).wf(),
        ensures
            final(self).wf(),
            v == advanced(old(self)@.current, old(self)@.open.len()),
            final(self)@ == (Session { current: v, ..old(self)@ }),
    {
        let n = self.open.len();
        let next = match self.current {
            CurrentView::Library => if n > 0 {
                CurrentView::File(0)
            } else {
                CurrentView::Library
            },
            CurrentView::File(i) => if (i as usize) + 1 < n {
                CurrentView::File(i + 1)
            } else {
                CurrentView::Library
            },
            _ => CurrentView::Library,
        };
        self.current = next;
        next
    }

    /// Tab-backward; returns the view reached.
    pub fn prev_tab(&mut self) -> (v: CurrentView)
        requires
            old(self).wf(),
        ensures
            final(self).wf(),
            v == retreated(old(self)@.current, old(self)@.open.len()),
            final(self)@ == (Session { current: v, ..old(self)@ }),
    {
        let n = self.open.len();
        let prev = match self.current {
            CurrentView::Library => CurrentView::Browse,
            CurrentView::File(i) => if i == 0 {
                CurrentView::Library
            } else {
                CurrentView::File(i - 1)
            },
            CurrentView::Browse => if n > 0 {
                CurrentView::File((n - 1) as u8)
            } else {
                CurrentView::Library
            },
            _ => CurrentView::Library,
        };
        self.current = prev;
        prev
    }

    /// Movement inside the active view. No view defines it yet, so it
    /// changes nothing.
    pub fn move_to(&mut self, dir: Directions)
        ensures
            final(self)@ == old(self)@,
    {
    }

    /// The periodic tick. Nothing depends on it yet.
    pub fn tick(&mut self)
        ensures
            final(self)@ == old(self)@,
    {
    }

    /// A typed character. No view takes text input yet.
    pub fn char(&mut self, ch: char)
        ensures
            final(self)@ == old(self)@,
    {
    }

    /// Search in the library. No search is defined yet.
    pub fn search_library(&self) {
    }

    /// Find in the open page. No search is defined yet.
    pub fn find_on_page(&self) {
    }

    /// Records the scroll offset of an open document; a slot that holds no
    /// open document is left alone.
    pub fn record_position(&mut self, slot: u8, offset: u16)
        requires
            old(self).wf(),
        ensures
            final(self).wf(),
            (slot as nat) < old(self)@.open.len() ==> final(self)@ == (Session {
                positions: old(self)@.positions.insert(slot, offset),
                ..old(self)@
            }),
            (slot as nat) >= old(self)@.open.len() ==> final(self)@ == old(self)@,
    {
        if (slot as usize) < self.open.len() {
            self.store.record_position(slot, offset);
        }
    }

    /// The last offset recorded for `slot`, 0 when none was.
    pub fn position_of(&self, slot: u8) -> (r: u16)
        ensures
            r == offset_in(self@.positions, slot),
    {
        self.store.position_of(slot)
    }

    /// Appends a document to the history, duplicates included.
    pub fn append_history(&mut self, path: String)
        requires
            old(self).wf(),
        ensures
            final(self).wf(),
            final(self)@ == (Session { history: old(self)@.history.push(path), ..old(self)@ }),
    {
        self.store.append_history(path);
    }

    /// The documents opened so far, oldest first.
    pub fn history(&self) -> (r: &Vec<String>)
        ensures
            r@ == self@.history,
    {
        self.store.history()
    }

    /// Applies one event; returns false when the event ends the session.
    pub fn handle(&mut self, msg: &Msg) -> (go_on: bool)
        requires
            old(self).wf(),
        ensures
            final(self).wf(),
            final(self)@ == step(old(self)@, *msg),
            go_on == !ends(old(self)@, *msg),
    {
        let cmd = command_for(self.current, msg);
        match cmd {
            Command::Quit => {
                return false;
            },
            Command::Move(dir) => self.move_to(dir),
            Command::NextTab => {
                self.next_tab();
            },
            Command::PrevTab => {
                self.prev_tab();
            },
            Command::Library => self.library(),
            Command::Settings => self.settings(),
            Command::Char(c) => self.char(c),
            Command::SearchLibrary => self.search_library(),
            Command::FindOnPage => self.find_on_page(),
            Command::Tick => self.tick(),
            Command::Nothing => {},
        }
        true
    }

    /// Applies events strictly in the order given, stopping after the
    /// first one that ends the session; returns how many were applied.
    pub fn handle_all(&mut self, msgs: &Vec<Msg>) -> (handled: usize)
        requires
            old(self).wf(),
        ensures
            final(self).wf(),
            handled <= msgs@.len(),
            final(self)@ == replay(old(self)@, msgs@.take(handled as int)),
            forall|j: int|
                0 <= j < handled - 1 ==> !ends(
                    #[trigger] replay(old(self)@, msgs@.take(j)),
                    msgs@[j],
                ),
            handled < msgs@.len() ==> handled > 0 && ends(
                replay(old(self)@, msgs@.take(handled - 1)),
                msgs@[handled - 1],
            ),
    {
        let ghost s0 = self@;
        let mut i: usize = 0;
        while i < msgs.len()
            invariant
                self.wf(),
                s0 == old(self)@,
                i <= msgs@.len(),
                self@ == replay(s0, msgs@.take(i as int)),
                forall|j: int| 0 <= j < i ==> !ends(#[trigger] replay(s0, msgs@.take(j)), msgs@[j]),
            decreases msgs.len() - i,
        {
            let ghost before = self@;
            let go_on = self.handle(&msgs[i]);
            assert(msgs@.take(i + 1).drop_last() =~= msgs@.take(i as int));
            assert(msgs@.take(i + 1).last() == msgs@[i as int]);
            assert(replay(s0, msgs@.take(i + 1)) == step(
                replay(s0, msgs@.take(i as int)),
                msgs@[i as int],
            ));
            assert(go_on == !ends(replay(s0, msgs@.take(i as int)), msgs@[i as int]));
            i = i + 1;
            if !go_on {
                return i;
            }
        }
        i
    }
}

} // verus!
