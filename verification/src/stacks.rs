//! Which page of a stack shows: the populated view or the empty one.

use crate::feed::{decimal_i32, parse_i32};
use crate::models::opt_int;
use crate::text::str_eq;
use vstd::prelude::*;

verus! {

/// The two states of a stack of views.
#[derive(Clone, Copy, PartialEq, Eq, Structural, Debug)]
pub enum State {
    /// There is something to show.
    Populated,
    /// There is nothing to show.
    Empty,
}

/// The state of the home stack: populated exactly when episodes are stored.
pub fn determine_state(episodes_populated: bool) -> (state: State)
    ensures
        state == (if episodes_populated {
            State::Populated
        } else {
            State::Empty
        }),
{
    if episodes_populated {
        State::Populated
    } else {
        State::Empty
    }
}

/// The pages of the stack of shows.
#[derive(Clone, Copy, PartialEq, Eq, Structural, Debug)]
pub enum Child {
    /// The grid of shows.
    Podcasts,
    /// The page of one show.
    Widget,
    /// The page shown for an empty library.
    Empty,
}

/// The page to show after the grid of shows has been rebuilt: the
/// empty page where no show is left; else the page that showed before, or
/// the grid where the empty page showed.
pub fn update_podcasts(is_empty: bool, visible: Child) -> (next: Child)
    ensures
        next == (if is_empty {
            Child::Empty
        } else if visible != Child::Empty {
            visible
        } else {
            Child::Podcasts
        }),
{
    if is_empty {
        Child::Empty
    } else {
        match visible {
            Child::Empty => Child::Podcasts,
            other => other,
        }
    }
}

/// The characters `GtkBox`, the name of a page that shows no show yet.
pub open spec fn blank_name() -> Seq<char> {
    seq!['G', 't', 'k', 'B', 'o', 'x']
}

/// The show whose page has to be rebuilt, read from the name of the page:
/// none for a blank page or a name that is no id.
pub fn update_widget(page_name: &str) -> (show_id: Option<i32>)
    ensures
        opt_int(show_id) == (if page_name@ == blank_name() {
            None
        } else {
            decimal_i32(page_name@)
        }),
{
    proof {
        reveal_strlit("GtkBox");
    }
    assert("GtkBox"@ =~= blank_name());
    if str_eq(page_name, "GtkBox") {
        None
    } else {
        parse_i32(page_name)
    }
}

} // verus!
