use vstd::prelude::*;

verus! {

/// Application-level state: whether the about dialog is open.
#[derive(Clone, Copy, PartialEq, Eq, Structural, Debug)]
pub struct AppState {
    pub show_about: bool,
}

impl Default for AppState {
    /// The about dialog starts closed.
    fn default() -> (s: Self)
        ensures
            !s.show_about,
    {
        AppState { show_about: false }
    }
}

/// Layout state: which side panels are shown.
#[derive(Clone, Copy, PartialEq, Eq, Structural, Debug)]
pub struct LayoutState {
    pub show_left_side: bool,
    pub show_right_side: bool,
}

impl Default for LayoutState {
    /// The left panel starts visible, the right one hidden.
    fn default() -> (s: Self)
        ensures
            s.show_left_side,
            !s.show_right_side,
    {
        LayoutState { show_left_side: true, show_right_side: false }
    }
}

} // verus!
