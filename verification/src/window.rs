//! Picking IDM's main window among the top-level windows, by its title.

use vstd::prelude::*;

use crate::text::{contains_text, has_substring, lowercase, to_lowercase};

verus! {

/// A top-level window as the window enumeration reports it.
pub struct WindowInfo {
    /// Whether the window is visible.
    pub visible: bool,
    /// The window's title text (empty when it has none).
    pub title: String,
}

/// The text that IDM's main window carries in its title, in lower case.
pub open spec fn idm_title_marker() -> Seq<char> {
    "internet download manager"@
}

/// A title names IDM's main window when, lower-cased, it contains
/// "internet download manager".
pub open spec fn is_idm_title(title: Seq<char>) -> bool {
    has_substring(lowercase(title), idm_title_marker())
}

/// Whether `title` is the title of IDM's main window.
pub fn is_idm_window_title(title: &str) -> (r: bool)
    ensures
        r == is_idm_title(title@),
{
    let lower = to_lowercase(title);
    contains_text(lower.as_str(), "internet download manager")
}

/// A window is IDM's main window: visible, with a non-empty title that names
/// IDM.
pub open spec fn is_idm_window(w: WindowInfo) -> bool {
    w.visible && w.title@.len() > 0 && is_idm_title(w.title@)
}

/// The first window, in enumeration order, that is IDM's main window; the
/// enumeration stops there.
pub fn find_idm_window(windows: &Vec<WindowInfo>) -> (r: Option<usize>)
    ensures
        match r {
            Some(i) => i < windows.len() && is_idm_window(windows@[i as int]) && forall|j: int|
                0 <= j < i ==> !is_idm_window(#[trigger] windows@[j]),
            None => forall|j: int| 0 <= j < windows.len() ==> !is_idm_window(#[trigger] windows@[j]),
        },
{
    let mut i: usize = 0;
    while i < windows.len()
        invariant
            i <= windows.len(),
            forall|j: int| 0 <= j < i ==> !is_idm_window(#[trigger] windows@[j]),
        decreases windows.len() - i,
    {
        let w = &windows[i];
        if w.visible && !w.title.as_str().is_empty() && is_idm_window_title(w.title.as_str()) {
            return Some(i);
        }
        i = i + 1;
    }
    None
}

} // verus!
