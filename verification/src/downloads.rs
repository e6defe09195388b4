//! The episode download manager: one task per episode, its life from start
//! to completion, cancellation or failure, and what each step asks of the
//! file system.

use crate::covers::joined;
use crate::models::{Episode, EpisodeView};
use std::collections::HashMap;
use vstd::prelude::*;
use vstd::string::StringExecFns;

verus! {

/// Where a download task stands.
pub enum TaskState {
    /// No task exists for the episode.
    NotStarted,
    /// The task is registered and waits for its transfer to begin.
    Queued,
    /// Bytes are arriving. `total_bytes` is 0 where the server did not say.
    InProgress { bytes_downloaded: u64, total_bytes: u64 },
    /// The file is in place at `local_path`.
    Completed { local_path: String },
    /// The user stopped the task.
    Cancelled,
    /// The transfer failed.
    Failed { reason: String },
}

/// A [`TaskState`] as mathematical values.
pub enum TaskView {
    NotStarted,
    Queued,
    InProgress { bytes_downloaded: nat, total_bytes: nat },
    Completed { local_path: Seq<char> },
    Cancelled,
    Failed { reason: Seq<char> },
}

impl View for TaskState {
    type V = TaskView;

    open spec fn view(&self) -> TaskView {
        match self {
            TaskState::NotStarted => TaskView::NotStarted,
            TaskState::Queued => TaskView::Queued,
            TaskState::InProgress { bytes_downloaded, total_bytes } => TaskView::InProgress {
                bytes_downloaded: *bytes_downloaded as nat,
                total_bytes: *total_bytes as nat,
            },
            TaskState::Completed { local_path } => TaskView::Completed { local_path: local_path@ },
            TaskState::Cancelled => TaskView::Cancelled,
            TaskState::Failed { reason } => TaskView::Failed { reason: reason@ },
        }
    }
}

impl TaskView {
    /// A task that is queued or in progress occupies its episode: no other
    /// may start.
    pub open spec fn active(self) -> bool {
        self is Queued || self is InProgress
    }
}

impl TaskState {
    /// Whether the task is queued or in progress.
    pub fn is_active(&self) -> (r: bool)
        ensures
            r == self@.active(),
    {
        match self {
            TaskState::Queued => true,
            TaskState::InProgress { .. } => true,
            _ => false,
        }
    }

    /// A copy of the state.
    pub fn duplicate(&self) -> (r: TaskState)
        ensures
            r@ == self@,
    {
        match self {
            TaskState::NotStarted => TaskState::NotStarted,
            TaskState::Queued => TaskState::Queued,
            TaskState::InProgress { bytes_downloaded, total_bytes } => TaskState::InProgress {
                bytes_downloaded: *bytes_downloaded,
                total_bytes: *total_bytes,
            },
            TaskState::Completed { local_path } => TaskState::Completed {
                local_path: local_path.clone(),
            },
            TaskState::Cancelled => TaskState::Cancelled,
            TaskState::Failed { reason } => TaskState::Failed { reason: reason.clone() },
        }
    }
}

/// What a step of a task asks of the file system.
#[derive(Clone, Copy, PartialEq, Eq, Structural, Debug)]
pub enum Effect {
    /// Nothing.
    Nothing,
    /// Move the staged file to its final path.
    MoveIntoPlace,
    /// Remove the staged file.
    RemovePartial,
}

/// Something that happens to a download task.
pub enum Event {
    /// The user asks for the download.
    Start,
    /// The transfer begins; the server may have announced the size.
    Begin { total_bytes: Option<u64> },
    /// A chunk has been written to the staged file.
    Progress { bytes: u64 },
    /// The last chunk has been written; the file belongs at `local_path`.
    Finish { local_path: String },
    /// The user cancels.
    Cancel,
    /// The transfer failed.
    Fail { reason: String },
}

/// The sum of two byte counts, held at the largest count that fits.
pub open spec fn capped_sum(a: nat, b: nat) -> nat {
    if a + b <= u64::MAX {
        a + b
    } else {
        u64::MAX as nat
    }
}

/// The state that an event leads to, and what it asks of the file system;
/// `None` where the event does not apply to the state, which then stays.
pub open spec fn step(state: TaskView, event: Event) -> Option<(TaskView, Effect)> {
    match event {
        Event::Start => if state.active() {
            None
        } else {
            Some((TaskView::Queued, Effect::Nothing))
        },
        Event::Begin { total_bytes } => if state is Queued {
            Some(
                (
                    TaskView::InProgress {
                        bytes_downloaded: 0,
                        total_bytes: match total_bytes {
                            Some(t) => t as nat,
                            None => 0,
                        },
                    },
                    Effect::Nothing,
                ),
            )
        } else {
            None
        },
        Event::Progress { bytes } => match state {
            TaskView::InProgress { bytes_downloaded, total_bytes } => Some(
                (
                    TaskView::InProgress {
                        bytes_downloaded: capped_sum(bytes_downloaded, bytes as nat),
                        total_bytes,
                    },
                    Effect::Nothing,
                ),
            ),
            _ => None,
        },
        Event::Finish { local_path } => if state is InProgress {
            Some((TaskView::Completed { local_path: local_path@ }, Effect::MoveIntoPlace))
        } else {
            None
        },
        Event::Cancel => if state.active() {
            Some((TaskView::Cancelled, Effect::RemovePartial))
        } else {
            None
        },
        Event::Fail { reason } => if state.active() {
            Some((TaskView::Failed { reason: reason@ }, Effect::RemovePartial))
        } else {
            None
        },
    }
}

/// The download tasks, one per episode id at most.
pub struct Manager {
    tasks: HashMap<i32, TaskState>,
}

impl View for Manager {
    type V = Map<i32, TaskView>;

    closed spec fn view(&self) -> Map<i32, TaskView> {
        Map::new(|id: i32| self.tasks@.contains_key(id), |id: i32| self.tasks@[id]@)
    }
}

/// The state of the task of an episode; `NotStarted` where there is none.
pub open spec fn task_of(tasks: Map<i32, TaskView>, episode_id: i32) -> TaskView {
    if tasks.contains_key(episode_id) {
        tasks[episode_id]
    } else {
        TaskView::NotStarted
    }
}

impl Manager {
    /// A manager without tasks.
    pub fn new() -> (m: Manager)
        ensures
            m@ == Map::<i32, TaskView>::empty(),
    {
        let m = Manager { tasks: HashMap::new() };
        assert(m@ =~= Map::<i32, TaskView>::empty());
        m
    }

    /// The state of the task of an episode.
    pub fn state(&self, episode_id: i32) -> (s: TaskState)
        ensures
            s@ == task_of(self@, episode_id),
    {
        match self.tasks.get(&episode_id) {
            Some(s) => s.duplicate(),
            None => TaskState::NotStarted,
        }
    }

    /// Whether the episode is being downloaded: its task is queued or in
    /// progress.
    pub fn is_downloading(&self, episode_id: i32) -> (r: bool)
        ensures
            r == task_of(self@, episode_id).active(),
    {
        match self.tasks.get(&episode_id) {
            Some(s) => s.is_active(),
            None => false,
        }
    }

    /// Applies an event to the task of an episode. Where the event applies,
    /// the task moves on and the effect says what to do on disk; where it
    /// does not (a second start, progress for a cancelled task), nothing
    /// changes and `None` is returned. No other task is touched.
    pub fn handle(&mut self, episode_id: i32, event: Event) -> (r: Option<Effect>)
        ensures
            match step(task_of(old(self)@, episode_id), event) {
                Some((next, effect)) => r == Some(effect) && final(self)@ == old(self)@.insert(
                    episode_id,
                    next,
                ),
                None => r is None && final(self)@ == old(self)@,
            },
    {
        let current = self.state(episode_id);
        let next: Option<(TaskState, Effect)> = match event {
            Event::Start => if current.is_active() {
                None
            } else {
                Some((TaskState::Queued, Effect::Nothing))
            },
            Event::Begin { total_bytes } => match current {
                TaskState::Queued => Some(
                    (
                        TaskState::InProgress {
                            bytes_downloaded: 0,
                            total_bytes: match total_bytes {
                                Some(t) => t,
                                None => 0,
                            },
                        },
                        Effect::Nothing,
                    ),
                ),
                _ => None,
            },
            Event::Progress { bytes } => match current {
                TaskState::InProgress { bytes_downloaded, total_bytes } => {
                    let sum = if bytes_downloaded <= u64::MAX - bytes {
                        bytes_downloaded + bytes
                    } else {
                        u64::MAX
                    };
                    Some(
                        (
                            TaskState::InProgress { bytes_downloaded: sum, total_bytes },
                            Effect::Nothing,
                        ),
                    )
                },
                _ => None,
            },
            Event::Finish { local_path } => match current {
                TaskState::InProgress { .. } => Some(
                    (TaskState::Completed { local_path }, Effect::MoveIntoPlace),
                ),
                _ => None,
            },
            Event::Cancel => if current.is_active() {
                Some((TaskState::Cancelled, Effect::RemovePartial))
            } else {
                None
            },
            Event::Fail { reason } => if current.is_active() {
                Some((TaskState::Failed { reason }, Effect::RemovePartial))
            } else {
                None
            },
        };
        match next {
            None => None,
            Some((state, effect)) => {
                self.tasks.insert(episode_id, state);
                assert(self@ =~= old(self)@.insert(episode_id, state@));
                Some(effect)
            },
        }
    }

    /// Registers a download for an episode. Refused, with nothing changed,
    /// while the episode is being downloaded.
    pub fn add(&mut self, episode_id: i32) -> (accepted: bool)
        ensures
            accepted == !task_of(old(self)@, episode_id).active(),
            final(self)@ == (if accepted {
                old(self)@.insert(episode_id, TaskView::Queued)
            } else {
                old(self)@
            }),
    {
        self.handle(episode_id, Event::Start).is_some()
    }

    /// Cancels the download of an episode. Returns whether there was one
    /// to cancel; if so its staged file is to be removed.
    pub fn cancel(&mut self, episode_id: i32) -> (cancelled: bool)
        ensures
            cancelled == task_of(old(self)@, episode_id).active(),
            final(self)@ == (if cancelled {
                old(self)@.insert(episode_id, TaskView::Cancelled)
            } else {
                old(self)@
            }),
    {
        self.handle(episode_id, Event::Cancel).is_some()
    }

    /// Forgets the task of an episode once it is over. A task that is
    /// queued or in progress stays.
    pub fn remove_finished(&mut self, episode_id: i32) -> (removed: bool)
        ensures
            removed == (old(self)@.contains_key(episode_id) && !old(self)@[episode_id].active()),
            final(self)@ == (if removed {
                old(self)@.remove(episode_id)
            } else {
                old(self)@
            }),
    {
        let over = match self.tasks.get(&episode_id) {
            Some(s) => !s.is_active(),
            None => false,
        };
        if over {
            self.tasks.remove(&episode_id);
            assert(self@ =~= old(self)@.remove(episode_id));
        }
        over
    }
}

/// The episode after its task has come to `state`: a completed download is
/// recorded as the local file, anything else leaves the episode as it is.
pub open spec fn recorded(episode: EpisodeView, state: TaskView) -> EpisodeView {
    match state {
        TaskView::Completed { local_path } => EpisodeView { local_uri: Some(local_path), ..episode },
        _ => episode,
    }
}

/// Records the outcome of a download on the episode. Only success writes:
/// a cancelled or failed download leaves the episode not downloaded.
/// Returns whether the episode has to be saved.
pub fn record_outcome(episode: &mut Episode, state: &TaskState) -> (changed: bool)
    ensures
        final(episode)@ == recorded(old(episode)@, state@),
        changed == (state@ is Completed),
{
    match state {
        TaskState::Completed { local_path } => {
            episode.set_local_uri(Some(local_path.as_str()));
            true
        },
        _ => false,
    }
}

/// The characters `.part`, which mark a file that is still being written.
pub open spec fn part_suffix() -> Seq<char> {
    seq!['.', 'p', 'a', 'r', 't']
}

/// Where a download is staged and where it belongs: both below the
/// destination directory, the staged file under the final name with
/// `.part` behind it.
pub fn download_paths(destination_dir: &str, file_name: &str) -> (paths: (String, String))
    ensures
        paths.0@ == joined(destination_dir@, file_name@ + part_suffix()),
        paths.1@ == joined(destination_dir@, file_name@),
{
    let mut staged_name = file_name.to_owned();
    proof {
        reveal_strlit(".part");
    }
    staged_name.append(".part");
    assert(staged_name@ == file_name@ + part_suffix());
    (
        crate::covers::join(destination_dir, staged_name.as_str()),
        crate::covers::join(destination_dir, file_name),
    )
}

/// Cancelling a download that is in progress ends it as cancelled, asks for
/// the staged file to be removed and never for a move into place, leaves the
/// episode without a local file, and nothing that happens afterwards but a
/// new start revives the task.
pub proof fn lemma_cancel_in_progress(
    state: TaskView,
    episode: EpisodeView,
    later: Event,
)
    requires
        state is InProgress,
        !(later is Start),
    ensures
        step(state, Event::Cancel) == Some((TaskView::Cancelled, Effect::RemovePartial)),
        recorded(episode, TaskView::Cancelled) == episode,
        step(TaskView::Cancelled, later) is None,
{
}

/// A failed download leaves the episode as it was and asks for the staged
/// file to be removed.
pub proof fn lemma_failure_leaves_episode(state: TaskView, episode: EpisodeView, reason: String)
    requires
        state.active(),
    ensures
        step(state, Event::Fail { reason }) == Some(
            (TaskView::Failed { reason: reason@ }, Effect::RemovePartial),
        ),
        recorded(episode, TaskView::Failed { reason: reason@ }) == episode,
{
}

/// While an episode is being downloaded a second start is refused.
pub proof fn lemma_one_task_per_episode(state: TaskView)
    requires
        state.active(),
    ensures
        step(state, Event::Start) is None,
{
}

} // verus!
