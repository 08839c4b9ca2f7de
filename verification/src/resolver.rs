//! Finding a window again by the title it had when the selection was made.
//!
//! Handles do not outlive their windows and titles change while an
//! application runs, so a window is looked up anew for every replacement:
//! among the windows that are open now, the first whose title has the same
//! normalized base as the remembered one. Windows come in the order in which
//! the system lists them, which it does not promise to keep; when several
//! share a base, the one listed first is taken.

use crate::title::{normalize, normalize_title, titles_match_spec};
use vstd::prelude::*;

verus! {

/// The system's reference to an open top-level window. It is good only
/// while the window lives and is never kept from one replacement to the next.
#[derive(Clone, Copy, Debug, PartialEq, Eq, Structural)]
pub struct WindowHandle(pub isize);

/// One open window: its handle and the title it shows now.
#[derive(Debug, PartialEq, Eq)]
pub struct WindowEntry {
    pub handle: WindowHandle,
    pub title: String,
}

/// An open window as plain values.
pub struct WindowEntryView {
    pub handle: WindowHandle,
    pub title: Seq<char>,
}

impl View for WindowEntry {
    type V = WindowEntryView;

    open spec fn view(&self) -> WindowEntryView {
        WindowEntryView { handle: self.handle, title: self.title@ }
    }
}

/// The listed windows as plain values, in their order.
pub open spec fn entry_views(windows: Seq<WindowEntry>) -> Seq<WindowEntryView> {
    Seq::new(windows.len(), |i: int| windows[i]@)
}

/// The window at index `i` matches `window_id` and none before it does.
pub open spec fn is_first_match(
    windows: Seq<WindowEntryView>,
    window_id: Seq<char>,
    i: int,
) -> bool {
    &&& 0 <= i < windows.len()
    &&& titles_match_spec(windows[i].title, window_id)
    &&& forall|j: int| 0 <= j < i ==> !titles_match_spec(#[trigger] windows[j].title, window_id)
}

/// No listed window matches `window_id`.
pub open spec fn no_match(windows: Seq<WindowEntryView>, window_id: Seq<char>) -> bool {
    forall|i: int|
        0 <= i < windows.len() ==> !titles_match_spec(#[trigger] windows[i].title, window_id)
}

/// The handle of the first listed window that matches `window_id`, if any
/// does.
pub open spec fn resolve(windows: Seq<WindowEntryView>, window_id: Seq<char>) -> Option<
    WindowHandle,
> {
    if exists|i: int| is_first_match(windows, window_id, i) {
        Some(windows[choose|i: int| is_first_match(windows, window_id, i)].handle)
    } else {
        None
    }
}

/// At most one index is the first match.
pub proof fn lemma_first_match_unique(
    windows: Seq<WindowEntryView>,
    window_id: Seq<char>,
    i: int,
    j: int,
)
    requires
        is_first_match(windows, window_id, i),
        is_first_match(windows, window_id, j),
    ensures
        i == j,
{
    if i < j {
        assert(!titles_match_spec(windows[i].title, window_id));
    } else if j < i {
        assert(!titles_match_spec(windows[j].title, window_id));
    }
}

/// `resolve` finds a window exactly when some listed window matches, and
/// then it is the first of them.
pub proof fn lemma_resolve(windows: Seq<WindowEntryView>, window_id: Seq<char>)
    ensures
        resolve(windows, window_id) is None <==> no_match(windows, window_id),
        forall|i: int|
            is_first_match(windows, window_id, i) ==> resolve(windows, window_id) == Some(
                windows[i].handle,
            ),
{
    assert forall|i: int| is_first_match(windows, window_id, i) implies resolve(windows, window_id)
        == Some(windows[i].handle) by {
        let k = choose|k: int| is_first_match(windows, window_id, k);
        lemma_first_match_unique(windows, window_id, i, k);
    }
    if !no_match(windows, window_id) {
        lemma_some_first_match(windows, window_id, windows.len() as int);
    }
}

/// If a window among the first `n` matches, one of them is the first match.
proof fn lemma_some_first_match(windows: Seq<WindowEntryView>, window_id: Seq<char>, n: int)
    requires
        0 <= n <= windows.len(),
        exists|i: int| 0 <= i < n && titles_match_spec(#[trigger] windows[i].title, window_id),
    ensures
        exists|i: int| is_first_match(windows, window_id, i),
    decreases n,
{
    if exists|i: int|
        0 <= i < n - 1 && titles_match_spec(#[trigger] windows[i].title, window_id) {
        lemma_some_first_match(windows, window_id, n - 1);
    } else {
        assert(is_first_match(windows, window_id, n - 1));
    }
}

/// Looks `window_id` up among the open windows: the handle of the first one
/// whose title matches, or `None` when no title does.
pub fn resolve_window(windows: &Vec<WindowEntry>, window_id: &str) -> (found: Option<WindowHandle>)
    ensures
        found == resolve(entry_views(windows@), window_id@),
        match found {
            Some(handle) => exists|i: int|
                is_first_match(entry_views(windows@), window_id@, i) && windows[i].handle
                    == handle,
            None => no_match(entry_views(windows@), window_id@),
        },
{
    let wanted = normalize_title(window_id);
    let ghost views = entry_views(windows@);
    let mut i: usize = 0;
    while i < windows.len()
        invariant
            i <= windows.len(),
            wanted@ == normalize(window_id@),
            views == entry_views(windows@),
            forall|j: int| 0 <= j < i ==> !titles_match_spec(#[trigger] views[j].title, window_id@),
        decreases windows.len() - i,
    {
        let base = normalize_title(windows[i].title.as_str());
        if base == wanted {
            proof {
                assert(is_first_match(views, window_id@, i as int));
                lemma_resolve(views, window_id@);
            }
            return Some(windows[i].handle);
        }
        i += 1;
    }
    proof {
        lemma_resolve(views, window_id@);
    }
    None
}

} // verus!
