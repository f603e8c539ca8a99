//! Which document the compiler takes as its main file.
//!
//! A pinned document always wins. Without a pin the focused document is the
//! main file. Focus follows the user's activity until the user has focused a
//! document by hand; from then on only the user moves it.

use vstd::prelude::*;
use crate::text::{clone_opt, opt_view, same_opt_text};

verus! {

/// The pin and the focus of a session.
#[derive(Debug, Clone, PartialEq, Eq)]
pub struct FocusState {
    pub pinned: Option<String>,
    pub focused: Option<String>,
    /// Whether hovering, folding or semantic tokens ever moved the focus.
    pub ever_focused_by_activity: bool,
    /// Whether the user ever focused a document by hand.
    pub ever_manual_focus: bool,
}

/// The pin and the focus as plain values.
pub struct FocusView {
    pub pinned: Option<Seq<char>>,
    pub focused: Option<Seq<char>>,
    pub ever_focused_by_activity: bool,
    pub ever_manual_focus: bool,
}

/// The document that the compiler takes as its main file: the pinned one if
/// there is one, else the focused one.
pub open spec fn effective_entry(v: FocusView) -> Option<Seq<char>> {
    if v.pinned is Some {
        v.pinned
    } else {
        v.focused
    }
}

/// Whether an activity with this tag is one of hovering (`h`), folding (`f`)
/// or semantic tokens (`t`).
pub open spec fn is_activity(tag: char) -> bool {
    tag == 'f' || tag == 'h' || tag == 't'
}

/// The state after an implicit focus.
pub open spec fn spec_implicit_focus(v: FocusView, entry: Option<Seq<char>>, tag: char) -> FocusView {
    if v.ever_manual_focus {
        v
    } else if is_activity(tag) {
        FocusView { focused: entry, ever_focused_by_activity: true, ..v }
    } else if v.ever_focused_by_activity {
        v
    } else {
        FocusView { focused: entry, ..v }
    }
}

impl View for FocusState {
    type V = FocusView;

    open spec fn view(&self) -> FocusView {
        FocusView {
            pinned: opt_view(self.pinned),
            focused: opt_view(self.focused),
            ever_focused_by_activity: self.ever_focused_by_activity,
            ever_manual_focus: self.ever_manual_focus,
        }
    }
}

impl FocusState {
    /// No pin, no focus.
    pub fn new() -> (r: FocusState)
        ensures
            r@ == (FocusView {
                pinned: None,
                focused: None,
                ever_focused_by_activity: false,
                ever_manual_focus: false,
            }),
    {
        FocusState {
            pinned: None,
            focused: None,
            ever_focused_by_activity: false,
            ever_manual_focus: false,
        }
    }

    /// The document that the compiler takes as its main file.
    pub fn effective(&self) -> (r: Option<String>)
        ensures
            opt_view(r) == effective_entry(self@),
    {
        if self.pinned.is_some() {
            clone_opt(&self.pinned)
        } else {
            clone_opt(&self.focused)
        }
    }

    /// Sets or clears the pin and returns the main file to forward to the
    /// compiler.
    pub fn pin_entry(&mut self, entry: Option<String>) -> (forward: Option<String>)
        ensures
            final(self)@ == (FocusView { pinned: opt_view(entry), ..old(self)@ }),
            opt_view(forward) == effective_entry(final(self)@),
    {
        self.pinned = entry;
        self.effective()
    }

    /// Sets or clears the focus and says whether the main file changed.
    pub fn focus_entry(&mut self, entry: Option<String>) -> (changed: bool)
        ensures
            final(self)@ == (FocusView { focused: opt_view(entry), ..old(self)@ }),
            changed == (effective_entry(final(self)@) != effective_entry(old(self)@)),
    {
        let before = self.effective();
        self.focused = entry;
        let after = self.effective();
        !same_opt_text(&before, &after)
    }

    /// Notes that the user focuses by hand from now on.
    pub fn mark_manual(&mut self)
        ensures
            final(self)@ == (FocusView { ever_manual_focus: true, ..old(self)@ }),
    {
        self.ever_manual_focus = true;
    }

    /// Moves the focus on behalf of an activity and says whether the main
    /// file changed. After a manual focus this does nothing.
    pub fn implicit_focus_entry(&mut self, entry: Option<String>, tag: char) -> (changed: bool)
        ensures
            final(self)@ == spec_implicit_focus(old(self)@, opt_view(entry), tag),
            changed == (effective_entry(final(self)@) != effective_entry(old(self)@)),
            old(self)@.ever_manual_focus ==> *final(self) == *old(self),
    {
        if self.ever_manual_focus {
            return false;
        }
        if tag == 'f' || tag == 'h' || tag == 't' {
            self.ever_focused_by_activity = true;
        } else if self.ever_focused_by_activity {
            return false;
        }
        self.focus_entry(entry)
    }
}

/// A pinned document is the main file, whatever is focused.
pub proof fn lemma_pin_wins(v: FocusView, entry: Option<Seq<char>>)
    requires
        v.pinned is Some,
    ensures
        effective_entry(FocusView { focused: entry, ..v }) == v.pinned,
{
}

/// Clearing the pin makes the focused document the main file.
pub proof fn lemma_unpin_falls_back(v: FocusView)
    ensures
        effective_entry(FocusView { pinned: None, ..v }) == v.focused,
{
}

/// After a manual focus, an implicit focus changes nothing, and so not the
/// main file.
pub proof fn lemma_manual_focus_holds(v: FocusView, entry: Option<Seq<char>>, tag: char)
    requires
        v.ever_manual_focus,
    ensures
        spec_implicit_focus(v, entry, tag) == v,
        effective_entry(spec_implicit_focus(v, entry, tag)) == effective_entry(v),
{
}

} // verus!
