//! The task store: the ordered task list, the draft fields of the new-task
//! form, and the status state machine that the board's messages drive.

use vstd::prelude::*;

use crate::parse::{is_u32_numeral, numeral_body, digits_value, parse_u32};

verus! {

/// The lowest status column: not started.
pub const STATUS_NOT_STARTED: u32 = 1;

/// The middle status column: in progress.
pub const STATUS_IN_PROGRESS: u32 = 2;

/// The highest status column: done.
pub const STATUS_DONE: u32 = 3;

/// A unit of work. Tasks have no identity beyond their position in the
/// store's list.
pub struct Task {
    pub name: String,
    pub assignee: String,
    pub mandays: u32,
    pub status: u32,
}

/// A status is always one of the three columns.
pub open spec fn valid_status(s: u32) -> bool {
    1 <= s <= 3
}

/// One step up the status ladder, saturating at done.
pub open spec fn inc_task(t: Task) -> Task {
    if t.status < 3 {
        Task {
            name: t.name,
            assignee: t.assignee,
            mandays: t.mandays,
            status: (t.status + 1) as u32,
        }
    } else {
        t
    }
}

/// One step down the status ladder, saturating at not started.
pub open spec fn dec_task(t: Task) -> Task {
    if t.status > 1 {
        Task {
            name: t.name,
            assignee: t.assignee,
            mandays: t.mandays,
            status: (t.status - 1) as u32,
        }
    } else {
        t
    }
}

/// The task list after an `increase_status(idx)` request: the task at `idx`
/// steps up (saturating), every other task and an out-of-range index leave
/// the list unchanged.
pub open spec fn inc_tasks(ts: Seq<Task>, idx: int) -> Seq<Task> {
    if 0 <= idx < ts.len() {
        ts.update(idx, inc_task(ts[idx]))
    } else {
        ts
    }
}

/// The task list after a `decrease_status(idx)` request.
pub open spec fn dec_tasks(ts: Seq<Task>, idx: int) -> Seq<Task> {
    if 0 <= idx < ts.len() {
        ts.update(idx, dec_task(ts[idx]))
    } else {
        ts
    }
}

/// A task already done stays done: an `increase_status` request at the
/// ceiling is a no-op on the whole list.
pub proof fn lemma_increase_saturates_at_done(ts: Seq<Task>, idx: int)
    requires
        0 <= idx < ts.len(),
        ts[idx].status == 3,
    ensures
        inc_tasks(ts, idx) == ts,
{
    assert(inc_tasks(ts, idx) =~= ts);
}

/// A task not yet started stays not started: a `decrease_status` request at
/// the floor is a no-op on the whole list.
pub proof fn lemma_decrease_saturates_at_not_started(ts: Seq<Task>, idx: int)
    requires
        0 <= idx < ts.len(),
        ts[idx].status == 1,
    ensures
        dec_tasks(ts, idx) == ts,
{
    assert(dec_tasks(ts, idx) =~= ts);
}

/// Stepping a task up and then back down restores the whole list, whenever
/// the step up really moves (status not yet done).
pub proof fn lemma_increase_then_decrease_round_trips(ts: Seq<Task>, idx: int)
    requires
        0 <= idx < ts.len(),
        1 <= ts[idx].status <= 2,
    ensures
        dec_tasks(inc_tasks(ts, idx), idx) == ts,
{
    assert(dec_tasks(inc_tasks(ts, idx), idx) =~= ts);
}

/// Stepping a task down and then back up restores the whole list, whenever
/// the step down really moves (status past not-started).
pub proof fn lemma_decrease_then_increase_round_trips(ts: Seq<Task>, idx: int)
    requires
        0 <= idx < ts.len(),
        2 <= ts[idx].status <= 3,
    ensures
        inc_tasks(dec_tasks(ts, idx), idx) == ts,
{
    assert(inc_tasks(dec_tasks(ts, idx), idx) =~= ts);
}

/// The task store: the append-only task list and the three draft fields of
/// the new-task form.
pub struct State {
    pub tasks: Vec<Task>,
    pub new_task_name: String,
    pub new_task_assignee: String,
    pub new_task_mandays: u32,
}

impl State {
    /// Every task sits in one of the three status columns.
    pub open spec fn wf(self) -> bool {
        forall|i: int| 0 <= i < self.tasks@.len() ==> valid_status(#[trigger] self.tasks@[i].status)
    }

    /// The draft fields, unchanged by the status transitions.
    pub open spec fn drafts(self) -> (Seq<char>, Seq<char>, u32) {
        (self.new_task_name@, self.new_task_assignee@, self.new_task_mandays)
    }

    /// Advances the task at `idx` one column, unless it is already done or
    /// the index is out of range; those requests are no-ops, never errors.
    pub fn increase_status(&mut self, idx: usize)
        ensures
            final(self).tasks@ == inc_tasks(old(self).tasks@, idx as int),
            final(self).drafts() == old(self).drafts(),
            old(self).wf() ==> final(self).wf(),
    {
        if idx < self.tasks.len() {
            if self.tasks[idx].status < 3 {
                let t = &mut self.tasks[idx];
                t.status = t.status + 1;
            }
        }
        proof {
            assert(final(self).tasks@ =~= inc_tasks(old(self).tasks@, idx as int));
        }
    }

    /// Moves the task at `idx` back one column, unless it is already not
    /// started or the index is out of range; those requests are no-ops.
    pub fn decrease_status(&mut self, idx: usize)
        ensures
            final(self).tasks@ == dec_tasks(old(self).tasks@, idx as int),
            final(self).drafts() == old(self).drafts(),
            old(self).wf() ==> final(self).wf(),
    {
        if idx < self.tasks.len() {
            if self.tasks[idx].status > 1 {
                let t = &mut self.tasks[idx];
                t.status = t.status - 1;
            }
        }
        proof {
            assert(final(self).tasks@ =~= dec_tasks(old(self).tasks@, idx as int));
        }
    }

    /// Appends a task built from the given fields, in the not-started
    /// column. The list is append-only: no task is ever removed or
    /// reordered.
    pub fn add_new_task(&mut self, name: String, assignee: String, mandays: u32)
        ensures
            final(self).tasks@ == old(self).tasks@.push(
                Task { name, assignee, mandays, status: 1u32 },
            ),
            final(self).drafts() == old(self).drafts(),
            old(self).wf() ==> final(self).wf(),
    {
        self.tasks.push(Task { name, assignee, mandays, status: 1 });
    }

    /// Replaces the draft task name unconditionally.
    pub fn set_draft_name(&mut self, val: String)
        ensures
            name_set(*old(self), *final(self), val),
    {
        self.new_task_name = val;
    }

    /// Replaces the draft assignee unconditionally. Callers validate the
    /// value against the allowed assignee table before it reaches the
    /// store; the store does not re-validate.
    pub fn set_draft_assignee(&mut self, val: String)
        ensures
            assignee_set(*old(self), *final(self), val),
    {
        self.new_task_assignee = val;
    }

    /// Reads `text` as a `u32` draft effort. On an accepted numeral the
    /// draft takes its value; on anything else the previous draft is kept,
    /// silently.
    pub fn set_draft_mandays(&mut self, text: &str)
        ensures
            mandays_set(*old(self), *final(self), text@),
    {
        if let Some(v) = parse_u32(text) {
            self.new_task_mandays = v;
        }
    }

    /// Appends a task built from the three current draft fields, not
    /// started. The drafts are read, not reset.
    pub fn submit_new_task(&mut self)
        ensures
            task_submitted(*old(self), *final(self)),
            old(self).wf() ==> final(self).wf(),
    {
        let name = self.new_task_name.clone();
        let assignee = self.new_task_assignee.clone();
        let mandays = self.new_task_mandays;
        self.add_new_task(name, assignee, mandays);
    }
}

/// The store after `setDraftName(val)`: the draft name is replaced and
/// nothing else moves.
pub open spec fn name_set(pre: State, post: State, val: String) -> bool {
    &&& post.new_task_name == val
    &&& post.new_task_assignee == pre.new_task_assignee
    &&& post.new_task_mandays == pre.new_task_mandays
    &&& post.tasks@ == pre.tasks@
}

/// The store after `setDraftAssignee(val)`: the draft assignee is replaced
/// and nothing else moves.
pub open spec fn assignee_set(pre: State, post: State, val: String) -> bool {
    &&& post.new_task_assignee == val
    &&& post.new_task_name == pre.new_task_name
    &&& post.new_task_mandays == pre.new_task_mandays
    &&& post.tasks@ == pre.tasks@
}

/// The store after `setDraftMandays(text)`: the draft effort takes the
/// value of an accepted numeral and keeps its old value on any other text;
/// nothing else moves.
pub open spec fn mandays_set(pre: State, post: State, text: Seq<char>) -> bool {
    &&& if is_u32_numeral(text) {
        post.new_task_mandays == digits_value(numeral_body(text))
    } else {
        post.new_task_mandays == pre.new_task_mandays
    }
    &&& post.new_task_name == pre.new_task_name
    &&& post.new_task_assignee == pre.new_task_assignee
    &&& post.tasks@ == pre.tasks@
}

/// The store after `submitNewTask()`: exactly one task is appended, built
/// from the drafts at call time with status not-started; the earlier tasks
/// and the drafts themselves are untouched.
pub open spec fn task_submitted(pre: State, post: State) -> bool {
    &&& post.tasks@.len() == pre.tasks@.len() + 1
    &&& forall|j: int| 0 <= j < pre.tasks@.len() ==> post.tasks@[j] == pre.tasks@[j]
    &&& post.tasks@.last().name@ == pre.new_task_name@
    &&& post.tasks@.last().assignee@ == pre.new_task_assignee@
    &&& post.tasks@.last().mandays == pre.new_task_mandays
    &&& post.tasks@.last().status == 1u32
    &&& post.drafts() == pre.drafts()
}

/// A request from the rendered board back to the store: one per control of
/// the view.
pub enum Msg {
    IncreaseStatus(usize),
    DecreaseStatus(usize),
    UpdateNewTaskName(String),
    UpdateNewTaskAssignee(String),
    UpdateNewTaskMandays(String),
    NewTask,
}

impl State {
    /// Applies one message to the store. Every message asks for a
    /// re-render, no-op transitions included, so this always returns true.
    pub fn update(&mut self, msg: Msg) -> (render: bool)
        ensures
            render == true,
            old(self).wf() ==> final(self).wf(),
            match msg {
                Msg::IncreaseStatus(idx) => final(self).tasks@ == inc_tasks(
                    old(self).tasks@,
                    idx as int,
                ) && final(self).drafts() == old(self).drafts(),
                Msg::DecreaseStatus(idx) => final(self).tasks@ == dec_tasks(
                    old(self).tasks@,
                    idx as int,
                ) && final(self).drafts() == old(self).drafts(),
                Msg::UpdateNewTaskName(val) => name_set(*old(self), *final(self), val),
                Msg::UpdateNewTaskAssignee(val) => assignee_set(*old(self), *final(self), val),
                Msg::UpdateNewTaskMandays(val) => mandays_set(*old(self), *final(self), val@),
                Msg::NewTask => task_submitted(*old(self), *final(self)),
            },
    {
        match msg {
            Msg::IncreaseStatus(idx) => {
                self.increase_status(idx);
            },
            Msg::DecreaseStatus(idx) => {
                self.decrease_status(idx);
            },
            Msg::UpdateNewTaskName(val) => {
                self.set_draft_name(val);
            },
            Msg::UpdateNewTaskAssignee(val) => {
                self.set_draft_assignee(val);
            },
            Msg::UpdateNewTaskMandays(val) => {
                self.set_draft_mandays(val.as_str());
            },
            Msg::NewTask => {
                self.submit_new_task();
            },
        }
        true
    }

    /// The store at startup: the four seed tasks and empty draft fields.
    pub fn new() -> (s: State)
        ensures
            s.wf(),
            s.tasks@.len() == 4,
            s.tasks@[0].name@ == "Task 1"@ && s.tasks@[0].assignee@ == "🐱"@ && s.tasks@[0].mandays
                == 3u32 && s.tasks@[0].status == 1u32,
            s.tasks@[1].name@ == "Task 2"@ && s.tasks@[1].assignee@ == "🐶"@ && s.tasks@[1].mandays
                == 2u32 && s.tasks@[1].status == 1u32,
            s.tasks@[2].name@ == "Task 3"@ && s.tasks@[2].assignee@ == "🐱"@ && s.tasks@[2].mandays
                == 1u32 && s.tasks@[2].status == 2u32,
            s.tasks@[3].name@ == "Task 4"@ && s.tasks@[3].assignee@ == "🐹"@ && s.tasks@[3].mandays
                == 3u32 && s.tasks@[3].status == 3u32,
            s.new_task_name@ == ""@,
            s.new_task_assignee@ == ""@,
            s.new_task_mandays == 0u32,
    {
        let mut tasks: Vec<Task> = Vec::new();
        tasks.push(
            Task { name: "Task 1".to_owned(), assignee: "🐱".to_owned(), mandays: 3, status: 1 },
        );
        tasks.push(
            Task { name: "Task 2".to_owned(), assignee: "🐶".to_owned(), mandays: 2, status: 1 },
        );
        tasks.push(
            Task { name: "Task 3".to_owned(), assignee: "🐱".to_owned(), mandays: 1, status: 2 },
        );
        tasks.push(
            Task { name: "Task 4".to_owned(), assignee: "🐹".to_owned(), mandays: 3, status: 3 },
        );
        State {
            tasks,
            new_task_name: "".to_owned(),
            new_task_assignee: "".to_owned(),
            new_task_mandays: 0,
        }
    }
}

} // verus!
