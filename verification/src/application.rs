//! The state the application keeps between the actions of the user: which
//! shows wait to be unsubscribed, which mark-all-played was taken back, and
//! the cookie of the suspend inhibitor.

use std::collections::HashSet;
use vstd::prelude::*;

verus! {

/// The messages that the parts of the program send to its main loop.
pub enum Action {
    RefreshAllViews,
    RefreshEpisodesView,
    RefreshEpisodesViewBGR,
    RefreshShowsView,
    /// Show the page of this show.
    ReplaceWidget(i32),
    /// Rebuild the page of this show if it is the one showing.
    RefreshWidgetIfSame(i32),
    /// Show the description of an episode of a show.
    GoToEpisodeDescription(i32, i32),
    GoToShow(i32),
    CopiedUrlNotification,
    MarkAllPlayerNotification(i32),
    FeedRefreshed(u64),
    StartUpdating,
    StopUpdating,
    RemoveShow(i32),
    ErrorNotification(String),
    InitEpisode(i32),
    /// Play an episode from a second on.
    InitEpisodeAt(i32, i32),
    StreamEpisode(i32),
    EmptyState,
    PopulatedState,
    RaiseWindow,
    InhibitSuspend,
    UninhibitSuspend,
}

/// What the application remembers, as mathematical values.
pub struct ApplicationView {
    /// The shows that are unsubscribed unless the user takes it back.
    pub todo_unsub_ids: Set<i32>,
    /// The shows whose mark-all-played the user took back.
    pub undo_marked_ids: Set<i32>,
    /// The cookie of the suspend inhibitor; 0 where none is held.
    pub inhibit_cookie: u32,
}

/// What the application remembers between actions.
pub struct PdApplication {
    todo_unsub_ids: HashSet<i32>,
    undo_marked_ids: Vec<i32>,
    inhibit_cookie: u32,
}

/// No value occurs twice.
pub open spec fn no_duplicates(ids: Seq<i32>) -> bool {
    forall|i: int, j: int| 0 <= i < j < ids.len() ==> ids[i] != ids[j]
}

fn position_of(ids: &Vec<i32>, id: i32) -> (r: Option<usize>)
    ensures
        match r {
            Some(i) => i < ids.len() && ids[i as int] == id,
            None => !ids@.contains(id),
        },
{
    let mut i: usize = 0;
    while i < ids.len()
        invariant
            i <= ids.len(),
            forall|j: int| 0 <= j < i ==> ids[j] != id,
        decreases ids.len() - i,
    {
        if ids[i] == id {
            return Some(i);
        }
        i = i + 1;
    }
    None
}

fn add_id(ids: &mut Vec<i32>, id: i32)
    requires
        no_duplicates(old(ids)@),
    ensures
        no_duplicates(final(ids)@),
        final(ids)@.to_set() == old(ids)@.to_set().insert(id),
{
    if position_of(ids, id).is_none() {
        ids.push(id);
        assert forall|x: i32| final(ids)@.to_set().contains(x) == old(ids)@.to_set().insert(
            id,
        ).contains(x) by {
            if old(ids)@.contains(x) {
                let k = choose|k: int| 0 <= k < old(ids)@.len() && old(ids)@[k] == x;
                assert(ids@[k] == x);
            }
            if x == id {
                assert(ids@[ids@.len() - 1] == id);
            }
        }
    } else {
        assert(old(ids)@.contains(id));
    }
    assert(final(ids)@.to_set() =~= old(ids)@.to_set().insert(id));
}

fn remove_id(ids: &mut Vec<i32>, id: i32) -> (was_there: bool)
    requires
        no_duplicates(old(ids)@),
    ensures
        no_duplicates(final(ids)@),
        was_there == old(ids)@.to_set().contains(id),
        final(ids)@.to_set() == old(ids)@.to_set().remove(id),
{
    match position_of(ids, id) {
        Some(pos) => {
            ids.remove(pos);
            assert forall|x: i32| final(ids)@.to_set().contains(x) == old(ids)@.to_set().remove(
                id,
            ).contains(x) by {
                if final(ids)@.contains(x) {
                    let k = choose|k: int| 0 <= k < ids@.len() && ids@[k] == x;
                    if k < pos {
                        assert(old(ids)@[k] == x);
                    } else {
                        assert(old(ids)@[k + 1] == x);
                    }
                }
                if old(ids)@.contains(x) && x != id {
                    let k = choose|k: int| 0 <= k < old(ids)@.len() && old(ids)@[k] == x;
                    if k < pos {
                        assert(ids@[k] == x);
                    } else {
                        assert(ids@[k - 1] == x);
                    }
                }
            }
            assert(final(ids)@.to_set() =~= old(ids)@.to_set().remove(id));
            true
        },
        None => {
            assert(final(ids)@.to_set() =~= old(ids)@.to_set().remove(id));
            false
        },
    }
}

impl View for PdApplication {
    type V = ApplicationView;

    closed spec fn view(&self) -> ApplicationView {
        ApplicationView {
            todo_unsub_ids: self.todo_unsub_ids@,
            undo_marked_ids: self.undo_marked_ids@.to_set(),
            inhibit_cookie: self.inhibit_cookie,
        }
    }
}

impl PdApplication {
    #[verifier::type_invariant]
    spec fn well_formed(&self) -> bool {
        no_duplicates(self.undo_marked_ids@)
    }

    /// An application that remembers nothing yet.
    pub fn new() -> (app: PdApplication)
        ensures
            app@ == (ApplicationView {
                todo_unsub_ids: Set::empty(),
                undo_marked_ids: Set::empty(),
                inhibit_cookie: 0,
            }),
    {
        let app = PdApplication {
            todo_unsub_ids: HashSet::new(),
            undo_marked_ids: Vec::new(),
            inhibit_cookie: 0,
        };
        assert(app.undo_marked_ids@.to_set() =~= Set::empty());
        app
    }

    /// Whether a show still waits to be unsubscribed. Asked right before the
    /// removal, so the show is taken off the list.
    pub fn is_show_marked_delete(&mut self, show_id: i32) -> (marked: bool)
        ensures
            marked == old(self)@.todo_unsub_ids.contains(show_id),
            final(self)@ == (ApplicationView {
                todo_unsub_ids: old(self)@.todo_unsub_ids.remove(show_id),
                ..old(self)@
            }),
    {
        proof {
            use_type_invariant(&*self);
        }
        let mut ids: HashSet<i32> = HashSet::new();
        std::mem::swap(&mut ids, &mut self.todo_unsub_ids);
        let marked = ids.remove(&show_id);
        self.todo_unsub_ids = ids;
        marked
    }

    /// Whether the episodes of a show are still to be marked as played:
    /// not if the user took the marking back, which is then forgotten.
    pub fn is_show_marked_mark(&mut self, show_id: i32) -> (marked: bool)
        ensures
            marked == !old(self)@.undo_marked_ids.contains(show_id),
            final(self)@ == (ApplicationView {
                undo_marked_ids: old(self)@.undo_marked_ids.remove(show_id),
                ..old(self)@
            }),
    {
        proof {
            use_type_invariant(&*self);
        }
        let mut ids = Vec::new();
        std::mem::swap(&mut ids, &mut self.undo_marked_ids);
        let undone = remove_id(&mut ids, show_id);
        self.undo_marked_ids = ids;
        !undone
    }

    /// The user took back a mark-all-played.
    pub fn undo_mark_all(&mut self, show_id: i32)
        ensures
            final(self)@ == (ApplicationView {
                undo_marked_ids: old(self)@.undo_marked_ids.insert(show_id),
                ..old(self)@
            }),
    {
        proof {
            use_type_invariant(&*self);
        }
        let mut ids = Vec::new();
        std::mem::swap(&mut ids, &mut self.undo_marked_ids);
        add_id(&mut ids, show_id);
        self.undo_marked_ids = ids;
    }

    /// The user took back the removal of a show.
    pub fn undo_remove_show(&mut self, show_id: i32)
        ensures
            final(self)@ == (ApplicationView {
                todo_unsub_ids: old(self)@.todo_unsub_ids.remove(show_id),
                ..old(self)@
            }),
    {
        self.is_show_marked_delete(show_id);
    }

    /// Takes note of an action as far as it changes what the application
    /// remembers: a removed show waits to be unsubscribed; a new inhibitor
    /// replaces the old one; an inhibitor that is given up is forgotten.
    /// `fresh_cookie` is the cookie of the inhibitor just taken, used for
    /// `InhibitSuspend` only. Returns the cookie to give back, if any.
    pub fn do_action(&mut self, action: &Action, fresh_cookie: u32) -> (release: Option<u32>)
        ensures
            match *action {
                Action::RemoveShow(id) => release is None && final(self)@ == (ApplicationView {
                    todo_unsub_ids: old(self)@.todo_unsub_ids.insert(id),
                    ..old(self)@
                }),
                Action::InhibitSuspend => final(self)@ == (ApplicationView {
                    inhibit_cookie: fresh_cookie,
                    ..old(self)@
                }) && release == (if old(self)@.inhibit_cookie != 0 {
                    Some(old(self)@.inhibit_cookie)
                } else {
                    None
                }),
                Action::UninhibitSuspend => final(self)@ == (ApplicationView {
                    inhibit_cookie: 0,
                    ..old(self)@
                }) && release == (if old(self)@.inhibit_cookie != 0 {
                    Some(old(self)@.inhibit_cookie)
                } else {
                    None
                }),
                _ => release is None && final(self)@ == old(self)@,
            },
    {
        proof {
            use_type_invariant(&*self);
        }
        match action {
            Action::RemoveShow(id) => {
                let mut ids: HashSet<i32> = HashSet::new();
                std::mem::swap(&mut ids, &mut self.todo_unsub_ids);
                ids.insert(*id);
                self.todo_unsub_ids = ids;
                None
            },
            Action::InhibitSuspend => {
                let old_cookie = self.inhibit_cookie;
                self.inhibit_cookie = fresh_cookie;
                if old_cookie != 0 {
                    Some(old_cookie)
                } else {
                    None
                }
            },
            Action::UninhibitSuspend => {
                let cookie = self.inhibit_cookie;
                if cookie != 0 {
                    self.inhibit_cookie = 0;
                    Some(cookie)
                } else {
                    None
                }
            },
            _ => None,
        }
    }

    /// The shows to unsubscribe at shutdown: all that still wait. None
    /// waits afterwards.
    pub fn shutdown(&mut self) -> (ids: HashSet<i32>)
        ensures
            ids@ == old(self)@.todo_unsub_ids,
            final(self)@ == (ApplicationView { todo_unsub_ids: Set::empty(), ..old(self)@ }),
    {
        proof {
            use_type_invariant(&*self);
        }
        let mut ids: HashSet<i32> = HashSet::new();
        std::mem::swap(&mut ids, &mut self.todo_unsub_ids);
        ids
    }
}

} // verus!
