//! Lists of windows.

use vstd::prelude::*;

verus! {

/// Whether a list of windows holds the given one.
pub fn holds_window(windows: &Vec<u64>, window: u64) -> (found: bool)
    ensures
        found == windows@.contains(window),
{
    let mut i: usize = 0;
    while i < windows.len()
        invariant
            i <= windows.len(),
            forall|j: int| 0 <= j < i ==> windows@[j] != window,
        decreases windows.len() - i,
    {
        if windows[i] == window {
            return true;
        }
        i += 1;
    }
    false
}

/// A list without duplicates stays one when a window that it does not hold
/// is added to it.
pub proof fn lemma_push_keeps_distinct(windows: Seq<u64>, window: u64)
    requires
        windows.no_duplicates(),
        !windows.contains(window),
    ensures
        windows.push(window).no_duplicates(),
{
    let longer = windows.push(window);
    assert forall|a: int, b: int| 0 <= a < longer.len() && 0 <= b < longer.len() && a
        != b implies longer[a] != longer[b] by {
        if a < windows.len() && b < windows.len() {
            assert(windows[a] != windows[b]);
        } else if a < windows.len() {
            assert(windows.contains(windows[a]));
        } else {
            assert(windows.contains(windows[b]));
        }
    }
}

} // verus!
