use crate::task::{PileInfo, Task};
use std::collections::VecDeque;
use vstd::prelude::*;

verus! {

/// The abstract state of a pile: its descriptor and its tasks, from the
/// oldest (index 0) to the newest.
pub ghost struct PileView {
    pub info: PileInfo,
    pub tasks: Seq<Task>,
}

impl PileView {
    /// The pile that a unit starts with: no tasks.
    pub open spec fn fresh(info: PileInfo) -> PileView {
        PileView { info, tasks: Seq::empty() }
    }

    /// The task at the removal end: the newest in stack mode, the oldest in
    /// queue mode; `None` when there are no tasks.
    pub open spec fn top(self) -> Option<Task> {
        if self.tasks.len() == 0 {
            None
        } else if self.info.is_stack {
            Some(self.tasks.last())
        } else {
            Some(self.tasks.first())
        }
    }

    /// The pile after its top task is taken away; unchanged when empty.
    pub open spec fn completed(self) -> PileView {
        if self.tasks.len() == 0 {
            self
        } else if self.info.is_stack {
            PileView { info: self.info, tasks: self.tasks.drop_last() }
        } else {
            PileView { info: self.info, tasks: self.tasks.drop_first() }
        }
    }

    /// The pile after `task` is added at the tail.
    pub open spec fn pushed(self, task: Task) -> PileView {
        PileView { info: self.info, tasks: self.tasks.push(task) }
    }

    /// The pile after each task of `new_tasks` is pushed, in order.
    pub open spec fn pushed_all(self, new_tasks: Seq<Task>) -> PileView
        decreases new_tasks.len(),
    {
        if new_tasks.len() == 0 {
            self
        } else {
            self.pushed(new_tasks.first()).pushed_all(new_tasks.drop_first())
        }
    }

    /// The tasks that successive completions hand out until the pile is
    /// empty, in the order they come out.
    pub open spec fn drained(self) -> Seq<Task>
        decreases self.tasks.len(),
    {
        if self.tasks.len() == 0 {
            Seq::empty()
        } else {
            seq![self.top().unwrap()] + self.completed().drained()
        }
    }
}

/// Pushing appends to the tasks already held, in order, and keeps the
/// descriptor.
pub proof fn lemma_pushed_all_appends(p: PileView, new_tasks: Seq<Task>)
    ensures
        p.pushed_all(new_tasks).tasks == p.tasks + new_tasks,
        p.pushed_all(new_tasks).info == p.info,
    decreases new_tasks.len(),
{
    if new_tasks.len() > 0 {
        let q = p.pushed(new_tasks.first());
        lemma_pushed_all_appends(q, new_tasks.drop_first());
        assert(q.tasks + new_tasks.drop_first() =~= p.tasks + new_tasks);
    } else {
        assert(p.tasks + new_tasks =~= p.tasks);
    }
}

/// In stack mode, completing until empty hands the tasks out newest first.
pub proof fn lemma_stack_drains_in_reverse(p: PileView)
    requires
        p.info.is_stack,
    ensures
        p.drained() == p.tasks.reverse(),
    decreases p.tasks.len(),
{
    if p.tasks.len() > 0 {
        let rest = p.completed();
        lemma_stack_drains_in_reverse(rest);
        assert(seq![p.tasks.last()] + rest.tasks.reverse() =~= p.tasks.reverse());
    } else {
        assert(p.drained() =~= p.tasks.reverse());
    }
}

/// In queue mode, completing until empty hands the tasks out oldest first.
pub proof fn lemma_queue_drains_in_order(p: PileView)
    requires
        !p.info.is_stack,
    ensures
        p.drained() == p.tasks,
    decreases p.tasks.len(),
{
    if p.tasks.len() > 0 {
        let rest = p.completed();
        lemma_queue_drains_in_order(rest);
        assert(seq![p.tasks.first()] + rest.tasks =~= p.tasks);
    } else {
        assert(p.drained() =~= p.tasks);
    }
}

/// A stack-mode pile that starts empty, takes `pushed` in order and is then
/// completed until empty, hands the tasks out in the reverse of the push
/// order.
pub proof fn lemma_stack_is_lifo(info: PileInfo, pushed: Seq<Task>)
    requires
        info.is_stack,
    ensures
        PileView::fresh(info).pushed_all(pushed).drained() == pushed.reverse(),
{
    let p = PileView::fresh(info).pushed_all(pushed);
    lemma_pushed_all_appends(PileView::fresh(info), pushed);
    assert(Seq::<Task>::empty() + pushed =~= pushed);
    lemma_stack_drains_in_reverse(p);
}

/// A queue-mode pile that starts empty, takes `pushed` in order and is then
/// completed until empty, hands the tasks out in the push order.
pub proof fn lemma_queue_is_fifo(info: PileInfo, pushed: Seq<Task>)
    requires
        !info.is_stack,
    ensures
        PileView::fresh(info).pushed_all(pushed).drained() == pushed,
{
    let p = PileView::fresh(info).pushed_all(pushed);
    lemma_pushed_all_appends(PileView::fresh(info), pushed);
    assert(Seq::<Task>::empty() + pushed =~= pushed);
    lemma_queue_drains_in_order(p);
}

/// A peek sees exactly the task that the next completion hands out, and
/// nothing on an empty pile.
pub proof fn lemma_top_is_next_completed(p: PileView)
    ensures
        p.tasks.len() == 0 ==> p.top().is_none(),
        p.tasks.len() > 0 ==> p.top() == Some(p.drained()[0]),
{
}

/// One pile: a descriptor and an ordered collection of tasks. The removal
/// end is set by `info.is_stack` when the pile is made and never changes.
#[derive(Debug)]
pub struct Pile {
    info: PileInfo,
    tasks: VecDeque<Task>,
}

impl View for Pile {
    type V = PileView;

    closed spec fn view(&self) -> PileView {
        PileView { info: self.info, tasks: self.tasks@ }
    }
}

impl Pile {
    /// Starts a pile with the given descriptor and no tasks.
    pub fn new(info: PileInfo) -> (r: Pile)
        ensures
            r@ == PileView::fresh(info),
    {
        Pile { info, tasks: VecDeque::new() }
    }

    /// The descriptor the pile was made with.
    pub fn info(&self) -> (r: &PileInfo)
        ensures
            *r == self@.info,
    {
        &self.info
    }

    /// The number of tasks the pile holds.
    pub fn len(&self) -> (r: usize)
        ensures
            r == self@.tasks.len(),
    {
        self.tasks.len()
    }

    /// Removes and returns the task at the removal end: the tail in stack
    /// mode, the head in queue mode. An empty pile yields `None` and stays
    /// as it is.
    pub fn complete_current(&mut self) -> (r: Option<Task>)
        ensures
            r == old(self)@.top(),
            final(self)@ == old(self)@.completed(),
            final(self)@.info == old(self)@.info,
            old(self)@.tasks.len() == 0 ==> r.is_none() && final(self)@ == old(self)@,
    {
        if self.info.is_stack {
            return self.tasks.pop_back();
        }
        self.tasks.pop_front()
    }

    /// Appends `new_task` at the tail. Always succeeds.
    pub fn push_task(&mut self, new_task: Task)
        ensures
            final(self)@ == old(self)@.pushed(new_task),
    {
        self.tasks.push_back(new_task)
    }

    /// A copy of the task at the removal end, without removing it; `None`
    /// when the pile is empty.
    pub fn pile_top(&self) -> (r: Option<Task>)
        ensures
            r == self@.top(),
            self@.tasks.len() == 0 ==> r.is_none(),
    {
        let len = self.tasks.len();
        if len == 0 {
            None
        } else if self.info.is_stack {
            Some(self.tasks[len - 1].clone())
        } else {
            Some(self.tasks[0].clone())
        }
    }
}

} // verus!
