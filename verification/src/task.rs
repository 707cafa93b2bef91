//! A task that takes a fixed number of steps to finish.

use vstd::prelude::*;

verus! {

/// Whether a task needs more work, with a message about its progress.
#[derive(Debug, Clone, PartialEq, Eq)]
pub enum TaskStatus {
    Continue(String),
    Done,
}

/// A task that is done after a given number of steps.
#[derive(Debug, Clone)]
pub struct ExampleTask {
    progress: usize,
    necessary_steps: usize,
}

/// The progress of a task and the steps it needs.
pub struct TaskModel {
    pub progress: usize,
    pub necessary_steps: usize,
}

impl View for ExampleTask {
    type V = TaskModel;

    closed spec fn view(&self) -> TaskModel {
        TaskModel { progress: self.progress, necessary_steps: self.necessary_steps }
    }
}

impl ExampleTask {
    /// A task with no progress that needs `necessary_steps` steps.
    pub fn new(necessary_steps: usize) -> (t: Self)
        ensures
            t@.progress == 0,
            t@.necessary_steps == necessary_steps,
    {
        ExampleTask { progress: 0, necessary_steps }
    }

    /// Takes one step: the task is done exactly when its progress reaches
    /// the necessary number of steps; otherwise it reports that it is still
    /// working.
    pub fn step(&mut self) -> (s: TaskStatus)
        requires
            old(self)@.progress < usize::MAX,
        ensures
            final(self)@.progress == old(self)@.progress + 1,
            final(self)@.necessary_steps == old(self)@.necessary_steps,
            (s is Done) == (final(self)@.progress == final(self)@.necessary_steps),
            s matches TaskStatus::Continue(msg) ==> msg@ == "Working..."@,
    {
        self.progress = self.progress + 1;
        if self.progress == self.necessary_steps {
            TaskStatus::Done
        } else {
            TaskStatus::Continue(String::from_str("Working..."))
        }
    }
}

} // verus!
