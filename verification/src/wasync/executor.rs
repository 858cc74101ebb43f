use vstd::prelude::*;
use crate::wasync::waker::acquired;
use crate::wasync::waker::next_address;
use crate::wasync::waker::released;
use crate::wasync::waker::RawWaker;
use crate::wasync::waker::waker_ref;
use crate::wasync::waker::Counted;
use crate::wasync::waker::WakeTable;
use crate::wasync::waker::WakerRef;

verus! {

/// One computation as the executor keeps it: the computation itself while
/// it is suspended, nothing while it is out for a poll.
pub struct Task<F> {
    pub future: Option<F>,
    pub polling: bool,
}

/// What the executor asks of whoever drives it.
#[derive(Debug)]
pub enum Step<F> {
    /// Nothing is to be done.
    Idle,
    /// Poll `future` once, with `waker` as its wake capability, and report
    /// the outcome with `Executor::settle`.
    Poll { waker: WakerRef, future: F },
}

/// Where the executor stands with the task in its slot.
#[derive(Debug, Clone, Copy, PartialEq, Eq)]
pub enum Phase {
    /// The slot is empty.
    Empty,
    /// The task in the slot is out for a poll.
    Running,
    /// The task in the slot waits to be woken.
    Suspended,
}

/// The executor's state: the allocated tasks with their counts, the address
/// of the task in the slot, and whether a wake came in during its poll.
pub struct Scheduler<F> {
    pub tasks: Map<usize, Counted<Task<F>>>,
    pub task: Option<usize>,
    pub woken: bool,
}

/// Executor storing one task.
pub struct Executor<F> {
    tasks: WakeTable<Task<F>>,
    task: Option<usize>,
    woken: bool,
}

impl<F> View for Executor<F> {
    type V = Scheduler<F>;

    closed spec fn view(&self) -> Scheduler<F> {
        Scheduler { tasks: self.tasks@, task: self.task, woken: self.woken }
    }
}

impl<F> Scheduler<F> {
    /// Whether the task at `data` is out for a poll.
    pub open spec fn polling(self, data: usize) -> bool {
        self.tasks.contains_key(data) && self.tasks[data].value.polling
    }

    /// Where the executor stands.
    pub open spec fn phase(self) -> Phase {
        match self.task {
            None => Phase::Empty,
            Some(data) => if self.polling(data) {
                Phase::Running
            } else {
                Phase::Suspended
            },
        }
    }

    /// Whether the executor itself holds a capability for `data`: it does for
    /// the task in the slot and for every task that is out for a poll.
    pub open spec fn held(self, data: usize) -> bool {
        self.task == Some(data) || self.polling(data)
    }

    /// The slot names a live task; a task that is out for a poll holds no
    /// computation and the suspended task in the slot holds one; a wake is
    /// only ever pending for a poll in progress.
    pub open spec fn well_formed(self) -> bool {
        &&& forall|data: usize| #[trigger]
            self.tasks.contains_key(data) ==> {
                &&& self.tasks[data].refs >= 1
                &&& self.tasks[data].value.polling ==> self.tasks[data].value.future is None
            }
        &&& self.task matches Some(data) ==> {
            &&& self.tasks.contains_key(data)
            &&& !self.polling(data) ==> self.tasks[data].value.future is Some
        }
        &&& self.woken ==> (self.task matches Some(data) && self.polling(data))
    }

    /// The tasks with `data`'s value replaced by `value`.
    pub open spec fn with_value(self, data: usize, value: Task<F>) -> Map<usize, Counted<Task<F>>> {
        self.tasks.insert(data, Counted { value, refs: self.tasks[data].refs })
    }

    /// The tasks after the executor has dropped the task in the slot, if it
    /// is suspended there. A task that is out for a poll is kept until its
    /// poll is settled.
    pub open spec fn vacated(self) -> Map<usize, Counted<Task<F>>> {
        match self.task {
            Some(previous) if !self.polling(previous) => released(self.tasks, previous),
            _ => self.tasks,
        }
    }

    /// The state after `spawn` has put a new task at the address `data`.
    pub open spec fn spawned(self, data: usize) -> Scheduler<F> {
        Scheduler {
            tasks: self.vacated().insert(
                data,
                Counted { value: Task { future: None, polling: true }, refs: 1 },
            ),
            task: Some(data),
            woken: false,
        }
    }

    /// Whether driving the executor starts a poll: the slot holds a task
    /// that is suspended.
    pub open spec fn ready(self) -> bool {
        self.task matches Some(data) && !self.polling(data)
    }

    /// The state after the executor has been driven once.
    pub open spec fn driven(self) -> Scheduler<F> {
        match self.task {
            Some(data) => if self.polling(data) {
                Scheduler { woken: true, ..self }
            } else {
                Scheduler {
                    tasks: self.with_value(data, Task { future: None, polling: true }),
                    task: self.task,
                    woken: false,
                }
            },
            None => self,
        }
    }

    /// The tasks after a capability for `data` has been given up by someone
    /// other than the executor. The capability that the executor holds is
    /// not theirs to give up.
    pub open spec fn let_go(self, data: usize) -> Map<usize, Counted<Task<F>>> {
        if self.tasks.contains_key(data) && self.tasks[data].refs == 1 && self.held(data) {
            self.tasks
        } else {
            released(self.tasks, data)
        }
    }

    /// Whether settling a poll of `data` that was not ready starts the next
    /// poll at once: `data` is in the slot and a wake came in meanwhile.
    pub open spec fn repoll(self, data: usize) -> bool {
        self.polling(data) && self.task == Some(data) && self.woken
    }

    /// The state after the poll of `data` has been settled; `pending` is the
    /// computation if it was not ready.
    pub open spec fn settled(self, data: usize, pending: Option<F>) -> Scheduler<F> {
        if !self.polling(data) {
            self
        } else if self.task == Some(data) {
            match pending {
                None => Scheduler {
                    tasks: released(
                        self.with_value(data, Task { future: None, polling: false }),
                        data,
                    ),
                    task: None,
                    woken: false,
                },
                Some(future) => if self.woken {
                    Scheduler { woken: false, ..self }
                } else {
                    Scheduler {
                        tasks: self.with_value(data, Task { future: Some(future), polling: false }),
                        ..self
                    }
                },
            }
        } else {
            Scheduler {
                tasks: released(self.with_value(data, Task { future: None, polling: false }), data),
                ..self
            }
        }
    }
}

impl<F> Executor<F> {
    /// The counts of the allocated tasks are kept as the table keeps them.
    pub closed spec fn counted(&self) -> bool {
        self.tasks.wf()
    }

    /// The executor's invariant.
    pub open spec fn wf(&self) -> bool {
        self.counted() && self@.well_formed()
    }

    /// The address of the task in the slot.
    pub fn task(&self) -> (task: Option<usize>)
        ensures
            task == self@.task,
    {
        self.task
    }

    /// The number of capabilities for the task at `data`, the executor's own
    /// among them; 0 if no task is allocated there.
    pub fn count(&self, data: usize) -> (refs: usize)
        ensures
            refs == if self@.tasks.contains_key(data) {
                self@.tasks[data].refs
            } else {
                0
            },
    {
        self.tasks.count(data)
    }

    /// Where the executor stands.
    pub fn phase(&self) -> (phase: Phase)
        requires
            self.wf(),
        ensures
            phase == self@.phase(),
    {
        match self.task {
            None => Phase::Empty,
            Some(data) => if self.tasks.get(data).unwrap().polling {
                Phase::Running
            } else {
                Phase::Suspended
            },
        }
    }

    /// An executor with an empty slot.
    pub fn new() -> (executor: Executor<F>)
        ensures
            executor.wf(),
            executor@ == (Scheduler::<F> { tasks: Map::empty(), task: None, woken: false }),
    {
        Executor { tasks: WakeTable::new(), task: None, woken: false }
    }
}

impl<F> Executor<F> {
    /// Drives the executor: if the slot holds a suspended task, its
    /// computation is taken out and handed over to be polled once. While a
    /// poll is in progress nothing is handed over; the wake is kept and
    /// answered when that poll is settled. With an empty slot nothing happens.
    pub fn run(&mut self) -> (step: Step<F>)
        requires
            old(self).wf(),
        ensures
            final(self).wf(),
            final(self)@ == old(self)@.driven(),
            match step {
                Step::Poll { waker, future } => {
                    &&& old(self)@.ready()
                    &&& old(self)@.task == Some(waker@)
                    &&& old(self)@.tasks[waker@].value.future == Some(future)
                },
                Step::Idle => !old(self)@.ready(),
            },
    {
        match self.task {
            None => Step::Idle,
            Some(data) => {
                let polling = self.tasks.get(data).unwrap().polling;
                if polling {
                    self.woken = true;
                    Step::Idle
                } else {
                    let task = self.tasks.get_mut(data).unwrap();
                    let future = task.future.take().unwrap();
                    task.polling = true;
                    self.woken = false;
                    assert(self@.tasks =~= old(self)@.with_value(
                        data,
                        Task { future: None, polling: true },
                    ));
                    Step::Poll { waker: waker_ref(data), future }
                }
            },
        }
    }

    /// Installs `future` as the task, replacing the one in the slot without
    /// notice, and drives it at once: the step is always the first poll of
    /// the new task.
    pub fn spawn(&mut self, future: F) -> (step: Step<F>)
        requires
            old(self).wf(),
        ensures
            final(self).wf(),
            match step {
                Step::Poll { waker, future: first } => {
                    &&& first == future
                    &&& next_address(old(self)@.vacated(), waker@)
                    &&& final(self)@ == old(self)@.spawned(waker@)
                },
                Step::Idle => false,
            },
    {
        match self.task {
            Some(previous) => {
                let polling = self.tasks.get(previous).unwrap().polling;
                if !polling {
                    let _ = self.tasks.release(previous);
                }
            },
            None => {},
        }
        assert(self.tasks@ == old(self)@.vacated());
        let data = self.tasks.insert(Task { future: None, polling: true });
        self.task = Some(data);
        self.woken = false;
        assert(self@ == old(self)@.spawned(data));
        Step::Poll { waker: waker_ref(data), future }
    }
}

impl<F> Executor<F> {
    /// Takes back the outcome of the poll of `data`: `None` if the
    /// computation completed, the computation itself if it was not ready.
    ///
    /// A completed task leaves the slot empty. A task that was not ready is
    /// put back, unless a wake came in during its poll: then it is handed
    /// over again at once. A task that was replaced during its poll is
    /// dropped, and so is an outcome for an address that is not out for a
    /// poll.
    pub fn settle(&mut self, data: usize, pending: Option<F>) -> (step: Step<F>)
        requires
            old(self).wf(),
        ensures
            final(self).wf(),
            final(self)@ == old(self)@.settled(data, pending),
            match step {
                Step::Poll { waker, future } => {
                    &&& old(self)@.repoll(data)
                    &&& waker@ == data
                    &&& pending == Some(future)
                },
                Step::Idle => !(old(self)@.repoll(data) && pending is Some),
            },
    {
        let polling = match self.tasks.get(data) {
            Some(task) => task.polling,
            None => false,
        };
        if !polling {
            return Step::Idle;
        }
        let current = match self.task {
            Some(task) => task == data,
            None => false,
        };
        if !current {
            self.tasks.get_mut(data).unwrap().polling = false;
            assert(self.tasks@ =~= old(self)@.with_value(
                data,
                Task { future: None, polling: false },
            ));
            let _ = self.tasks.release(data);
            return Step::Idle;
        }
        match pending {
            None => {
                self.tasks.get_mut(data).unwrap().polling = false;
                assert(self.tasks@ =~= old(self)@.with_value(
                    data,
                    Task { future: None, polling: false },
                ));
                let _ = self.tasks.release(data);
                self.task = None;
                self.woken = false;
                Step::Idle
            },
            Some(future) => {
                if self.woken {
                    self.woken = false;
                    Step::Poll { waker: waker_ref(data), future }
                } else {
                    let task = self.tasks.get_mut(data).unwrap();
                    task.future = Some(future);
                    task.polling = false;
                    assert(self.tasks@ =~= old(self)@.with_value(
                        data,
                        Task { future: Some(future), polling: false },
                    ));
                    Step::Idle
                }
            },
        }
    }

    /// Gives up one capability for `data` on behalf of its holder. The
    /// capability that the executor itself holds stays.
    fn let_go(&mut self, data: usize)
        requires
            old(self).wf(),
        ensures
            final(self).wf(),
            final(self)@ == (Scheduler { tasks: old(self)@.let_go(data), ..old(self)@ }),
    {
        let held = match self.tasks.get(data) {
            Some(task) => task.polling || self.task == Some(data),
            None => false,
        };
        if !(held && self.tasks.count(data) == 1) {
            let _ = self.tasks.release(data);
        }
    }

    /// The clone operation of a capability for `data`: one more capability
    /// with the same address. `None`, and nothing changed, where `data` is
    /// not live or its count is at the limit.
    pub fn clone_waker(&mut self, data: usize) -> (made: Option<RawWaker>)
        requires
            old(self).wf(),
        ensures
            final(self).wf(),
            final(self)@ == (Scheduler {
                tasks: acquired(old(self)@.tasks, data),
                ..old(self)@
            }),
            match made {
                Some(waker) => waker.data == data && old(self)@.tasks.contains_key(data) && old(
                    self,
                )@.tasks[data].refs < usize::MAX,
                None => !(old(self)@.tasks.contains_key(data) && old(self)@.tasks[data].refs
                    < usize::MAX),
            },
    {
        if self.tasks.acquire(data) {
            Some(RawWaker { data })
        } else {
            None
        }
    }

    /// The release operation of a capability for `data`.
    pub fn drop_waker(&mut self, data: usize)
        requires
            old(self).wf(),
        ensures
            final(self).wf(),
            final(self)@ == (Scheduler { tasks: old(self)@.let_go(data), ..old(self)@ }),
    {
        self.let_go(data)
    }

    /// The wake-by-reference operation of a capability for `data`: drives
    /// the executor and keeps the capability. A capability whose allocation
    /// is gone wakes nothing.
    pub fn wake_by_ref(&mut self, data: usize) -> (step: Step<F>)
        requires
            old(self).wf(),
        ensures
            final(self).wf(),
            final(self)@ == if old(self)@.tasks.contains_key(data) {
                old(self)@.driven()
            } else {
                old(self)@
            },
            match step {
                Step::Poll { waker, future } => {
                    &&& old(self)@.tasks.contains_key(data)
                    &&& old(self)@.ready()
                    &&& old(self)@.task == Some(waker@)
                    &&& old(self)@.tasks[waker@].value.future == Some(future)
                },
                Step::Idle => !(old(self)@.tasks.contains_key(data) && old(self)@.ready()),
            },
    {
        if self.tasks.contains(data) {
            self.run()
        } else {
            Step::Idle
        }
    }

    /// The wake operation of a capability for `data`: drives the executor,
    /// then gives the capability up.
    pub fn wake(&mut self, data: usize) -> (step: Step<F>)
        requires
            old(self).wf(),
        ensures
            final(self).wf(),
            final(self)@ == if old(self)@.tasks.contains_key(data) {
                Scheduler { tasks: old(self)@.driven().let_go(data), ..old(self)@.driven() }
            } else {
                old(self)@
            },
            match step {
                Step::Poll { waker, future } => {
                    &&& old(self)@.tasks.contains_key(data)
                    &&& old(self)@.ready()
                    &&& old(self)@.task == Some(waker@)
                    &&& old(self)@.tasks[waker@].value.future == Some(future)
                },
                Step::Idle => !(old(self)@.tasks.contains_key(data) && old(self)@.ready()),
            },
    {
        if self.tasks.contains(data) {
            let step = self.run();
            self.let_go(data);
            step
        } else {
            Step::Idle
        }
    }
}

/// The executor goes from empty to running to suspended and back: a spawn
/// leaves it running; a poll that is not ready leaves it suspended, or
/// running again if a wake came in meanwhile; driving a suspended executor
/// leaves it running; a poll that completes leaves it empty; and nothing
/// drives an executor that is empty or running into another phase.
pub proof fn lemma_phases<F>(state: Scheduler<F>, data: usize, future: F)
    requires
        state.well_formed(),
    ensures
        !state.vacated().contains_key(data) ==> state.spawned(data).phase() == Phase::Running,
        state.phase() == Phase::Suspended ==> state.driven().phase() == Phase::Running,
        state.phase() != Phase::Suspended ==> state.driven().phase() == state.phase(),
        state.phase() == Phase::Running && state.task == Some(data) ==> {
            &&& state.settled(data, None).phase() == Phase::Empty
            &&& state.settled(data, Some(future)).phase() == if state.woken {
                Phase::Running
            } else {
                Phase::Suspended
            }
        },
        state.task != Some(data) ==> state.settled(data, Some(future)).phase() == state.phase(),
        state.task != Some(data) ==> state.settled(data, None).phase() == state.phase(),
{
}

/// A task that has been replaced is never handed over again. While its
/// allocation lasts it does not come back into the slot, whatever the
/// executor is asked to do, and only the task in the slot is ever polled:
/// driving hands over the slot's task, and a poll of another task is never
/// followed by a second one.
pub proof fn lemma_replaced_task_is_never_polled<F>(state: Scheduler<F>, replaced: usize)
    requires
        state.well_formed(),
        state.tasks.contains_key(replaced),
        state.task != Some(replaced),
    ensures
        !state.repoll(replaced),
        state.driven().task != Some(replaced),
        forall|data: usize, pending: Option<F>|
            (#[trigger] state.settled(data, pending)).task != Some(replaced),
        forall|data: usize|
            !state.vacated().contains_key(data) ==> (#[trigger] state.spawned(data)).task != Some(
                replaced,
            ),
{
}

/// Spawning puts the new task into the slot in place of the old one, and
/// only the new task can be polled from then on.
pub proof fn lemma_spawn_replaces<F>(state: Scheduler<F>, data: usize)
    requires
        state.well_formed(),
        !state.vacated().contains_key(data),
    ensures
        state.spawned(data).well_formed(),
        state.spawned(data).task == Some(data),
        forall|other: usize| other != data ==> !(#[trigger] state.spawned(data).repoll(other)),
{
}

} // verus!
