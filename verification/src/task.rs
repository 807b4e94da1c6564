//! One year's task: a state machine stepping through
//! Pending -> Discovering -> Downloading(i/N) -> Done | Failed.
//! The runner performs the fetches and writes, hands each outcome back as an
//! event, and carries out the returned action.

use vstd::prelude::*;

verus! {

use crate::errors::{DownloadError, TaskError};

/// Where one year task stands in its pipeline.
#[derive(Clone, Debug, PartialEq, Eq)]
pub enum TaskState {
    /// Not yet started.
    Pending,
    /// Fetching and parsing the index page.
    Discovering,
    /// Downloading file `next` (0-based) of `total`.
    Downloading { next: usize, total: usize },
    /// All discovered files downloaded.
    Done,
    /// Aborted on this failure; no further download is attempted.
    Failed(TaskError),
}

/// What the runner observed since the last step.
pub enum TaskEvent {
    /// The task was launched.
    Started,
    /// Discovery returned this many links.
    Discovered { count: usize },
    /// The download in flight completed.
    FileDone,
    /// Discovery or a download failed.
    Failed(DownloadError),
}

/// What the runner must do next.
#[derive(Clone, Debug, PartialEq, Eq)]
pub enum TaskAction {
    /// Report that the task is waiting on discovery.
    ShowWaiting,
    /// Reset the per-file counters and download file `index` (0-based) of
    /// `total`.
    BeginFile { index: usize, total: usize },
    /// Report completion.
    FinishDone,
    /// Report the failure held in the task's state.
    ReportFailure,
}

/// One year's task: its year and its current state.
pub struct YearTask {
    /// The calendar year whose documents are mirrored.
    pub year: usize,
    /// The task's position in its pipeline.
    pub state: TaskState,
}

/// The state after observing `event` in `state`: a failure event moves any
/// non-terminal state to `Failed` with the year attached; terminal states
/// absorb every event; an event foreign to the state changes nothing.
pub open spec fn spec_task_next(year: usize, state: TaskState, event: TaskEvent) -> TaskState {
    match state {
        TaskState::Done => state,
        TaskState::Failed(_) => state,
        _ => match event {
            TaskEvent::Failed(e) => TaskState::Failed(TaskError { year, cause: e }),
            TaskEvent::Started => if state is Pending {
                TaskState::Discovering
            } else {
                state
            },
            TaskEvent::Discovered { count } => if state is Discovering {
                if count == 0 {
                    TaskState::Done
                } else {
                    TaskState::Downloading { next: 0, total: count }
                }
            } else {
                state
            },
            TaskEvent::FileDone => match state {
                TaskState::Downloading { next, total } => if next + 1 == total {
                    TaskState::Done
                } else {
                    TaskState::Downloading { next: (next + 1) as usize, total }
                },
                _ => state,
            },
        },
    }
}

/// The action owed after observing `event` in `state`; `None` when the
/// event is foreign to the state.
pub open spec fn spec_task_action(state: TaskState, event: TaskEvent) -> Option<TaskAction> {
    match state {
        TaskState::Done => None,
        TaskState::Failed(_) => None,
        _ => match event {
            TaskEvent::Failed(_) => Some(TaskAction::ReportFailure),
            TaskEvent::Started => if state is Pending {
                Some(TaskAction::ShowWaiting)
            } else {
                None
            },
            TaskEvent::Discovered { count } => if state is Discovering {
                if count == 0 {
                    Some(TaskAction::FinishDone)
                } else {
                    Some(TaskAction::BeginFile { index: 0, total: count })
                }
            } else {
                None
            },
            TaskEvent::FileDone => match state {
                TaskState::Downloading { next, total } => if next + 1 == total {
                    Some(TaskAction::FinishDone)
                } else {
                    Some(TaskAction::BeginFile { index: (next + 1) as usize, total })
                },
                _ => None,
            },
        },
    }
}

impl YearTask {
    /// While downloading, the file index stays below the file count.
    pub open spec fn wf(&self) -> bool {
        self.state matches TaskState::Downloading { next, total } ==> next < total
    }

    /// A task for one year, not yet started.
    pub fn new(year: usize) -> (r: Self)
        ensures
            r.year == year,
            r.state == TaskState::Pending,
            r.wf(),
    {
        YearTask { year, state: TaskState::Pending }
    }

    /// Observes one event: moves to the next state and returns the action
    /// the runner owes, exactly as `spec_task_next` and `spec_task_action`
    /// lay down.
    pub fn step(&mut self, event: TaskEvent) -> (action: Option<TaskAction>)
        requires
            old(self).wf(),
        ensures
            final(self).year == old(self).year,
            final(self).state == spec_task_next(old(self).year, old(self).state, event),
            action == spec_task_action(old(self).state, event),
            final(self).wf(),
    {
        match &self.state {
            TaskState::Done => None,
            TaskState::Failed(_) => None,
            TaskState::Pending => match event {
                TaskEvent::Failed(e) => {
                    self.state = TaskState::Failed(TaskError { year: self.year, cause: e });
                    Some(TaskAction::ReportFailure)
                },
                TaskEvent::Started => {
                    self.state = TaskState::Discovering;
                    Some(TaskAction::ShowWaiting)
                },
                _ => None,
            },
            TaskState::Discovering => match event {
                TaskEvent::Failed(e) => {
                    self.state = TaskState::Failed(TaskError { year: self.year, cause: e });
                    Some(TaskAction::ReportFailure)
                },
                TaskEvent::Discovered { count } => {
                    if count == 0 {
                        self.state = TaskState::Done;
                        Some(TaskAction::FinishDone)
                    } else {
                        self.state = TaskState::Downloading { next: 0, total: count };
                        Some(TaskAction::BeginFile { index: 0, total: count })
                    }
                },
                _ => None,
            },
            TaskState::Downloading { next, total } => {
                let next = *next;
                let total = *total;
                match event {
                    TaskEvent::Failed(e) => {
                        self.state = TaskState::Failed(TaskError { year: self.year, cause: e });
                        Some(TaskAction::ReportFailure)
                    },
                    TaskEvent::FileDone => {
                        if next + 1 == total {
                            self.state = TaskState::Done;
                            Some(TaskAction::FinishDone)
                        } else {
                            self.state = TaskState::Downloading { next: next + 1, total };
                            Some(TaskAction::BeginFile { index: next + 1, total })
                        }
                    },
                    _ => None,
                }
            },
        }
    }
}

/// Terminal states absorb every event: once a task is Done or Failed, no
/// event moves it or makes it act, so a failed year never downloads again
/// and a finished year never regresses.
pub proof fn lemma_terminal_states_absorb(year: usize, state: TaskState, event: TaskEvent)
    requires
        state is Done || state is Failed,
    ensures
        spec_task_next(year, state, event) == state,
        spec_task_action(state, event) is None,
{
}

/// A failure event fails any non-terminal state at once, with the year
/// attached to the cause.
pub proof fn lemma_failure_attaches_year(year: usize, state: TaskState, e: DownloadError)
    requires
        !(state is Done),
        !(state is Failed),
    ensures
        spec_task_next(year, state, TaskEvent::Failed(e)) == TaskState::Failed(
            TaskError { year, cause: e },
        ),
{
}

} // verus!
