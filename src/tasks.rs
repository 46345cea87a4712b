//! Recurring side effects (reporting, data output) and the decision of when
//! each is due. Simulated time is counted in integer ticks of a unit that the
//! caller fixes for the whole run.

use vstd::prelude::*;

verus! {

/// One check of a task at simulated time `time`: if the task is due it is
/// performed, its count goes up by one and it is next due one `interval`
/// later. The pair is (count, next due time).
pub open spec fn poll_step(count: int, next_time: int, time: int, interval: int) -> (int, int) {
    if next_time <= time {
        (count + 1, next_time + interval)
    } else {
        (count, next_time)
    }
}

/// The (count, next due time) of a task that was first due at `start` after
/// it has been checked once at each of `times`, in order.
pub open spec fn poll_run(start: int, interval: int, times: Seq<int>) -> (int, int)
    decreases times.len(),
{
    if times.len() == 0 {
        (0, start)
    } else {
        let prev = poll_run(start, interval, times.drop_last());
        poll_step(prev.0, prev.1, times.last(), interval)
    }
}

/// A task first due at `start` and re-armed with a positive `interval` each
/// time it fires, checked once at each time of a non-decreasing sequence that
/// begins at `start` and never moves ahead by more than `interval` in one
/// step, fires exactly once for each time `start + k * interval` (k >= 0)
/// that the sequence reaches. Its due times run `start + interval`,
/// `start + 2 * interval`, ..., and it is left due at the first of them that
/// the sequence has not reached.
pub proof fn lemma_fires_once_per_crossing(start: int, interval: int, times: Seq<int>)
    requires
        interval > 0,
        times.len() > 0,
        times[0] == start,
        forall|j: int| 0 <= j < times.len() - 1 ==> #[trigger] times[j] <= times[j + 1] <= times[j] + interval,
    ensures
        poll_run(start, interval, times).1 == start + poll_run(start, interval, times).0 * interval,
        start + (poll_run(start, interval, times).0 - 1) * interval <= times.last(),
        times.last() < start + poll_run(start, interval, times).0 * interval,
    decreases times.len(),
{
    let n = times.len();
    if n == 1 {
        assert(times.drop_last().len() == 0);
        assert(poll_run(start, interval, times.drop_last()) == (0int, start));
        assert(poll_run(start, interval, times) == (1int, start + interval));
        assert(times.last() == start);
        assert(start + (1int - 1) * interval == start);
        assert(start + 1int * interval == start + interval);
    } else {
        let prev = times.drop_last();
        assert forall|j: int| 0 <= j < prev.len() - 1 implies #[trigger] prev[j] <= prev[j + 1] <= prev[j] + interval by {
            assert(prev[j] == times[j] && prev[j + 1] == times[j + 1]);
        }
        lemma_fires_once_per_crossing(start, interval, prev);
        let (c, next) = poll_run(start, interval, prev);
        assert(prev.last() == times[n - 2]);
        assert(times[n - 2] <= times[n - 1] <= times[n - 2] + interval);
        let t = times.last();
        assert(poll_run(start, interval, times) == poll_step(c, next, t, interval));
        assert(start + (c + 1) * interval == start + c * interval + interval) by (nonlinear_arith);
        if next <= t {
            assert(poll_run(start, interval, times) == (c + 1, next + interval));
            assert(start + (c + 1 - 1) * interval == next);
        } else {
            assert(poll_run(start, interval, times) == (c, next));
            assert(start + (c - 1) * interval == start + c * interval - interval) by (nonlinear_arith);
        }
    }
}

/// A task, or side effect, such as reporting, analysis, or data output.
#[derive(Clone, Copy, Debug, PartialEq, Eq, Structural)]
pub struct RecurringTask {
    /// The number of times the task has been performed.
    pub count: usize,
    /// The next simulation time at which the task is set to be performed.
    pub next_time: u64,
    /// The number of times the task has been performed since the process
    /// started.
    pub count_this_run: usize,
}

/// All the tasks of a run.
#[derive(Clone, Copy, Debug, PartialEq, Eq, Structural)]
pub struct Tasks {
    /// Write a snapshot of the full simulation.
    pub write_checkpoint: RecurringTask,
    /// Output the primitive and geometric quantities for plotting and
    /// post-processing.
    pub write_products: RecurringTask,
    /// Print the loop message.
    pub iteration_message: RecurringTask,
    /// Summarize the simulation performance.
    pub report_progress: RecurringTask,
}

/// What the run loop is to do at one simulated time, before the next step.
#[derive(Clone, Copy, Debug, PartialEq, Eq, Structural)]
pub struct SideEffects {
    /// Print the iteration message.
    pub print_message: bool,
    /// Write a products file with this sequence number.
    pub write_products: Option<usize>,
    /// Write a checkpoint file with this sequence number.
    pub write_checkpoint: Option<usize>,
}

impl RecurringTask {
    /// Whether the counters and the due time leave room for one more
    /// performance with the given interval.
    pub open spec fn can_advance(&self, interval: u64) -> bool {
        &&& self.count < usize::MAX
        &&& self.count_this_run < usize::MAX
        &&& self.next_time + interval <= u64::MAX
    }

    /// A task that has never been performed and is first due at `start_time`.
    pub open spec fn new_spec(start_time: u64) -> Self {
        RecurringTask { count: 0, next_time: start_time, count_this_run: 0 }
    }

    /// A fresh recurring task which is first due at `start_time`.
    pub fn new(start_time: u64) -> (r: Self)
        ensures
            r == Self::new_spec(start_time),
    {
        RecurringTask { count: 0, next_time: start_time, count_this_run: 0 }
    }

    /// Whether the task is due at simulated time `time`.
    pub fn is_due(&self, time: u64) -> (r: bool)
        ensures
            r == (self.next_time <= time),
    {
        self.next_time <= time
    }

    /// Mark the task as having just been performed, and schedule it to
    /// happen again after the given interval.
    pub fn advance(&mut self, interval: u64)
        requires
            old(self).can_advance(interval),
        ensures
            final(self).count == old(self).count + 1,
            final(self).count_this_run == old(self).count_this_run + 1,
            final(self).next_time == old(self).next_time + interval,
    {
        self.count = self.count + 1;
        self.count_this_run = self.count_this_run + 1;
        self.next_time = self.next_time + interval;
    }

    /// Check the task once at simulated time `time`: perform it (advance it
    /// by `interval`) if it is due, and say whether it was.
    pub fn poll(&mut self, time: u64, interval: u64) -> (fired: bool)
        requires
            old(self).is_due_spec(time) ==> old(self).can_advance(interval),
        ensures
            fired == old(self).is_due_spec(time),
            final(self).polled_from(*old(self), time, interval),
    {
        if self.is_due(time) {
            self.advance(interval);
            true
        } else {
            false
        }
    }

    /// Whether the task is due at simulated time `time`.
    pub open spec fn is_due_spec(&self, time: u64) -> bool {
        self.next_time <= time
    }

    /// The task `self` is what `prev` becomes when it is checked once at `time`
    /// and advanced by `interval` if due.
    pub open spec fn polled_from(&self, prev: RecurringTask, time: u64, interval: u64) -> bool {
        &&& (self.count as int, self.next_time as int) == poll_step(
            prev.count as int,
            prev.next_time as int,
            time as int,
            interval as int,
        )
        &&& self.count_this_run == prev.count_this_run + (if prev.is_due_spec(time) { 1int } else { 0int })
    }
}

impl Tasks {
    /// Fresh tasks, all first due at `start_time`.
    pub fn new(start_time: u64) -> (r: Self)
        ensures
            r.write_checkpoint == RecurringTask::new_spec(start_time),
            r.write_products == RecurringTask::new_spec(start_time),
            r.iteration_message == RecurringTask::new_spec(start_time),
            r.report_progress == RecurringTask::new_spec(start_time),
    {
        Tasks {
            write_checkpoint: RecurringTask::new(start_time),
            write_products: RecurringTask::new(start_time),
            iteration_message: RecurringTask::new(start_time),
            report_progress: RecurringTask::new(start_time),
        }
    }

    /// Whether every task that is due at `time` can be advanced by its
    /// interval without overflowing its counters or its due time. The
    /// iteration message is re-armed with interval zero: it is due at every
    /// step once its first due time is reached.
    pub open spec fn can_take_side_effects(
        &self,
        time: u64,
        products_interval: u64,
        checkpoint_interval: u64,
    ) -> bool {
        &&& self.iteration_message.is_due_spec(time) ==> self.iteration_message.can_advance(0)
        &&& self.write_products.is_due_spec(time) ==> self.write_products.can_advance(products_interval)
        &&& self.write_checkpoint.is_due_spec(time) ==> self.write_checkpoint.can_advance(checkpoint_interval)
    }

    /// Decide the side effects due at simulated time `time`, and mark each
    /// of them as performed. The iteration message is printed from its second
    /// performance in this process on; each output file is numbered by how
    /// many of its kind were written before it.
    pub fn side_effects(&mut self, time: u64, products_interval: u64, checkpoint_interval: u64) -> (e: SideEffects)
        requires
            old(self).can_take_side_effects(time, products_interval, checkpoint_interval),
        ensures
            e.print_message == (old(self).iteration_message.is_due_spec(time)
                && old(self).iteration_message.count_this_run >= 1),
            e.write_products == (if old(self).write_products.is_due_spec(time) {
                Some(old(self).write_products.count)
            } else {
                None
            }),
            e.write_checkpoint == (if old(self).write_checkpoint.is_due_spec(time) {
                Some(old(self).write_checkpoint.count)
            } else {
                None
            }),
            final(self).iteration_message.polled_from(old(self).iteration_message, time, 0),
            final(self).write_products.polled_from(old(self).write_products, time, products_interval),
            final(self).write_checkpoint.polled_from(old(self).write_checkpoint, time, checkpoint_interval),
            final(self).report_progress == old(self).report_progress,
    {
        let message_due = self.iteration_message.poll(time, 0);
        let print_message = message_due && self.iteration_message.count_this_run > 1;
        let products_count = self.write_products.count;
        let write_products = if self.write_products.poll(time, products_interval) {
            Some(products_count)
        } else {
            None
        };
        let checkpoint_count = self.write_checkpoint.count;
        let write_checkpoint = if self.write_checkpoint.poll(time, checkpoint_interval) {
            Some(checkpoint_count)
        } else {
            None
        };
        SideEffects { print_message, write_products, write_checkpoint }
    }
}

} // verus!
