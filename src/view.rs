use vstd::prelude::*;

verus! {

/// The single active screen of a session.
#[derive(Clone, Copy, Debug, PartialEq, Eq, Structural)]
pub enum CurrentView {
    Library,
    /// The reader of the open document in this slot.
    File(u8),
    Settings,
    Browse,
    /// Not yet initialised.
    Unset,
}

/// Movement inside a view.
#[derive(Clone, Copy, Debug, PartialEq, Eq, Structural)]
pub enum Directions {
    Up,
    Down,
    Left,
    Right,
}

/// A view refers to no document beyond the `n` that are open.
pub open spec fn view_ok(v: CurrentView, n: nat) -> bool {
    match v {
        CurrentView::File(i) => (i as nat) < n,
        _ => true,
    }
}

/// Tab-forward: Library, then each open document in turn, then back to
/// Library. Settings, Browse and an unset view go to Library.
pub open spec fn advanced(v: CurrentView, n: nat) -> CurrentView {
    match v {
        CurrentView::Library => if n > 0 {
            CurrentView::File(0)
        } else {
            CurrentView::Library
        },
        CurrentView::File(i) => if (i as nat) + 1 < n {
            CurrentView::File((i + 1) as u8)
        } else {
            CurrentView::Library
        },
        _ => CurrentView::Library,
    }
}

/// Tab-backward: Library goes to Browse, Browse to the last open document
/// (Library when none is open), each document to the one before it and the
/// first document to Library. Settings and an unset view go to Library.
pub open spec fn retreated(v: CurrentView, n: nat) -> CurrentView {
    match v {
        CurrentView::Library => CurrentView::Browse,
        CurrentView::File(i) => if i == 0 {
            CurrentView::Library
        } else {
            CurrentView::File((i - 1) as u8)
        },
        CurrentView::Browse => if n > 0 {
            CurrentView::File((n - 1) as u8)
        } else {
            CurrentView::Library
        },
        _ => CurrentView::Library,
    }
}

/// The view reached from `v` after `k` tab-forward steps.
pub open spec fn advanced_times(v: CurrentView, n: nat, k: nat) -> CurrentView
    decreases k,
{
    if k == 0 {
        v
    } else {
        advanced(advanced_times(v, n, (k - 1) as nat), n)
    }
}

/// Both transitions keep a view within the open documents.
pub proof fn lemma_transitions_stay_valid(v: CurrentView, n: nat)
    requires
        n <= 256,
        view_ok(v, n),
    ensures
        view_ok(advanced(v, n), n),
        view_ok(retreated(v, n), n),
{
}

/// Starting from Library with `n` open documents, `k` tab-forward steps
/// (`1 <= k <= n`) land on the document in slot `k - 1`.
pub proof fn lemma_advance_walks_documents(n: nat, k: nat)
    requires
        n <= 256,
        1 <= k <= n,
    ensures
        advanced_times(CurrentView::Library, n, k) == CurrentView::File((k - 1) as u8),
    decreases k,
{
    assert(advanced_times(CurrentView::Library, n, 0) == CurrentView::Library);
    if k > 1 {
        lemma_advance_walks_documents(n, (k - 1) as nat);
        let i = (k - 2) as u8;
        assert(advanced_times(CurrentView::Library, n, (k - 1) as nat) == CurrentView::File(i));
        assert((i as nat) + 1 < n);
        assert((i + 1) as u8 == (k - 1) as u8);
    }
}

/// Tab-forward is cyclic: from Library, `n + 1` steps return to Library,
/// for every number `n` of open documents.
pub proof fn lemma_advance_cycle(n: nat)
    requires
        n <= 256,
    ensures
        advanced_times(CurrentView::Library, n, n + 1) == CurrentView::Library,
{
    if n > 0 {
        lemma_advance_walks_documents(n, n);
    }
}

/// The full transition table of both tab directions over every kind of
/// view, and what one step forward then one step back does from Library:
/// it returns to Library when a document is open, and reaches Browse when
/// none is.
pub proof fn lemma_transition_table(n: nat, i: u8)
    requires
        n <= 256,
        (i as nat) < n,
    ensures
        advanced(CurrentView::Library, n) == CurrentView::File(0),
        (i as nat) + 1 == n ==> advanced(CurrentView::File(i), n) == CurrentView::Library,
        (i as nat) + 1 < n ==> advanced(CurrentView::File(i), n) == CurrentView::File(
            (i + 1) as u8,
        ),
        advanced(CurrentView::Settings, n) == CurrentView::Library,
        advanced(CurrentView::Browse, n) == CurrentView::Library,
        advanced(CurrentView::Unset, n) == CurrentView::Library,
        retreated(CurrentView::Library, n) == CurrentView::Browse,
        i == 0 ==> retreated(CurrentView::File(i), n) == CurrentView::Library,
        i > 0 ==> retreated(CurrentView::File(i), n) == CurrentView::File((i - 1) as u8),
        retreated(CurrentView::Browse, n) == CurrentView::File((n - 1) as u8),
        retreated(CurrentView::Settings, n) == CurrentView::Library,
        retreated(CurrentView::Unset, n) == CurrentView::Library,
        retreated(advanced(CurrentView::Library, n), n) == CurrentView::Library,
{
}

/// With no document open, Library is the only stop going forward, and one
/// step forward then one step back from Library reaches Browse.
pub proof fn lemma_transitions_without_documents()
    ensures
        advanced(CurrentView::Library, 0) == CurrentView::Library,
        retreated(CurrentView::Browse, 0) == CurrentView::Library,
        retreated(advanced(CurrentView::Library, 0), 0) == CurrentView::Browse,
{
}

} // verus!
