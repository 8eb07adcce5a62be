use vstd::prelude::*;

use crate::clock::Date;
use crate::scheduler::DailySummary;

verus! {

/// One task of the list: its row id, its text, whether it is done, and the
/// date it was created on.
#[derive(Clone, Debug)]
pub struct Task {
    pub id: i64,
    pub text: String,
    pub completed: bool,
    pub created_at: Date,
}

impl Task {
    pub fn new(id: i64, text: String, completed: bool, created_at: Date) -> (r: Task)
        ensures
            r.id == id,
            r.text@ == text@,
            r.completed == completed,
            r.created_at == created_at,
    {
        Task { id, text, completed, created_at }
    }

    pub fn is_completed(&self) -> (r: bool)
        ensures
            r == self.completed,
    {
        self.completed
    }

    /// Marks the task done; a done task stays done.
    pub fn mark_completed(&mut self)
        ensures
            final(self).completed,
            final(self).id == old(self).id,
            final(self).text@ == old(self).text@,
            final(self).created_at == old(self).created_at,
    {
        self.completed = true;
    }
}

/// How many of the tasks are completed.
pub open spec fn completed_count(tasks: Seq<Task>) -> nat
    decreases tasks.len(),
{
    if tasks.len() == 0 {
        0
    } else {
        completed_count(tasks.drop_last()) + if tasks.last().completed {
            1nat
        } else {
            0nat
        }
    }
}


/// The day's summary of a task list: completed and total counts.
pub fn summarize(tasks: &Vec<Task>) -> (r: DailySummary)
    ensures
        r.completed == completed_count(tasks@),
        r.total == tasks@.len(),
        r.completed <= r.total,
{
    let mut completed: usize = 0;
    let mut i: usize = 0;
    while i < tasks.len()
        invariant
            i <= tasks@.len(),
            completed == completed_count(tasks@.take(i as int)),
            completed <= i,
        decreases tasks@.len() - i,
    {
        proof {
            assert(tasks@.take(i as int + 1).drop_last() =~= tasks@.take(i as int));
        }
        if tasks[i].completed {
            completed = completed + 1;
        }
        i = i + 1;
    }
    proof {
        assert(tasks@.take(i as int) =~= tasks@);
    }
    DailySummary { completed, total: tasks.len() }
}

} // verus!
