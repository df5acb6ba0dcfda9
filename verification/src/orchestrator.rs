use vstd::prelude::*;

use crate::task::CompressionTask;
use crate::codec::full_codec_set;

verus! {

/// The phases of one compression run. A run starts `Idle`, moves to
/// `Scanning` while the traversal yields paths, to `Draining` once the
/// traversal is exhausted, and ends in the terminal phase `Done`.
#[derive(Clone, Copy, PartialEq, Eq, Structural, Debug)]
pub enum Phase {
    Idle,
    Scanning,
    Draining,
    Done,
}

/// Aggregate state of one compression run.
///
/// `discovered` counts the files the traversal has yielded (one task is
/// created per discovery), `running` counts the tasks currently holding a
/// concurrency ticket, `executed` counts the tasks whose work has finished
/// and whose ticket has been given back, and `completed` counts the task
/// completions the orchestrator has observed while draining. `cap` is the
/// concurrency cap the run was configured with.
pub struct Orchestrator {
    pub phase: Phase,
    pub cap: u64,
    pub discovered: u64,
    pub running: u64,
    pub executed: u64,
    pub completed: u64,
}

/// One atomic change of the orchestrator's state.
pub enum Event {
    /// The traversal begins.
    BeginScan,
    /// The traversal yields one file; a task is created and submitted.
    Discover,
    /// The traversal is exhausted; the run starts awaiting outstanding tasks.
    BeginDrain,
    /// A submitted task obtains a concurrency ticket and starts executing.
    Acquire,
    /// An executing task finishes its work and gives its ticket back.
    Release,
    /// The draining loop observes one finished task.
    Observe,
    /// Every discovery has been observed; the run ends.
    FinishDrain,
}

impl Orchestrator {
    /// Well-formedness of a run state: the counters never contradict each
    /// other, no more tasks run than the cap allows, an idle run has counted
    /// nothing, and a finished run has observed every discovery.
    pub open spec fn wf(self) -> bool {
        &&& self.running <= self.cap
        &&& self.completed <= self.executed
        &&& self.executed + self.running <= self.discovered
        &&& (self.phase is Idle ==> self.discovered == 0 && self.running == 0
            && self.executed == 0 && self.completed == 0)
        &&& (self.phase is Done ==> self.completed == self.discovered && self.running == 0)
    }
}

/// When an event may happen in a given state.
pub open spec fn enabled(s: Orchestrator, e: Event) -> bool {
    match e {
        Event::BeginScan => s.phase is Idle,
        Event::Discover => s.phase is Scanning && s.discovered < u64::MAX,
        Event::BeginDrain => s.phase is Scanning,
        Event::Acquire => (s.phase is Scanning || s.phase is Draining)
            && s.running < s.cap
            && s.executed + s.running < s.discovered,
        Event::Release => s.running >= 1,
        Event::Observe => s.phase is Draining && s.completed < s.executed,
        Event::FinishDrain => s.phase is Draining && s.completed == s.discovered,
    }
}

/// The state after one event.
pub open spec fn step(s: Orchestrator, e: Event) -> Orchestrator {
    match e {
        Event::BeginScan => Orchestrator { phase: Phase::Scanning, ..s },
        Event::Discover => Orchestrator { discovered: (s.discovered + 1) as u64, ..s },
        Event::BeginDrain => Orchestrator { phase: Phase::Draining, ..s },
        Event::Acquire => Orchestrator { running: (s.running + 1) as u64, ..s },
        Event::Release => Orchestrator {
            running: (s.running - 1) as u64,
            executed: (s.executed + 1) as u64,
            ..s
        },
        Event::Observe => Orchestrator { completed: (s.completed + 1) as u64, ..s },
        Event::FinishDrain => Orchestrator { phase: Phase::Done, ..s },
    }
}

/// The state after a sequence of events.
pub open spec fn run(s: Orchestrator, es: Seq<Event>) -> Orchestrator
    decreases es.len(),
{
    if es.len() == 0 {
        s
    } else {
        step(run(s, es.drop_last()), es.last())
    }
}

/// Whether every event of the sequence is enabled in the state it meets.
pub open spec fn valid_run(s: Orchestrator, es: Seq<Event>) -> bool
    decreases es.len(),
{
    es.len() == 0 || (valid_run(s, es.drop_last()) && enabled(run(s, es.drop_last()), es.last()))
}

/// How many times an event occurs in a sequence.
pub open spec fn count_occurrences(es: Seq<Event>, e: Event) -> nat
    decreases es.len(),
{
    if es.len() == 0 {
        0
    } else {
        count_occurrences(es.drop_last(), e) + if es.last() == e {
            1nat
        } else {
            0nat
        }
    }
}

/// Law: an enabled event keeps the state well-formed; in particular
/// `completed <= discovered` and `running <= cap` can never be broken by a
/// single step.
pub proof fn lemma_step_preserves_wf(s: Orchestrator, e: Event)
    requires
        s.wf(),
        enabled(s, e),
    ensures
        step(s, e).wf(),
{
}

/// Law: a valid run from a well-formed state ends in a well-formed state.
pub proof fn lemma_run_preserves_wf(s: Orchestrator, es: Seq<Event>)
    requires
        s.wf(),
        valid_run(s, es),
    ensures
        run(s, es).wf(),
    decreases es.len(),
{
    if es.len() > 0 {
        lemma_run_preserves_wf(s, es.drop_last());
        lemma_step_preserves_wf(run(s, es.drop_last()), es.last());
    }
}

/// Law: every prefix of a valid run is itself a valid run, so the
/// well-formedness bounds hold at every point in time, not only at the end.
pub proof fn lemma_valid_run_prefix(s: Orchestrator, es: Seq<Event>, n: int)
    requires
        valid_run(s, es),
        0 <= n <= es.len(),
    ensures
        valid_run(s, es.subrange(0, n)),
    decreases es.len(),
{
    if n < es.len() {
        assert(es.drop_last() == es.subrange(0, es.len() - 1));
        lemma_valid_run_prefix(s, es.drop_last(), n);
        assert(es.drop_last().subrange(0, n) == es.subrange(0, n));
    } else {
        assert(es.subrange(0, n) == es);
    }
}

/// Law: at every point of a valid run from a well-formed state,
/// `completed <= discovered` and the number of concurrently executing tasks
/// never exceeds the configured cap.
pub proof fn lemma_counters_bounded(s: Orchestrator, es: Seq<Event>, n: int)
    requires
        s.wf(),
        valid_run(s, es),
        0 <= n <= es.len(),
    ensures
        run(s, es.subrange(0, n)).completed <= run(s, es.subrange(0, n)).discovered,
        run(s, es.subrange(0, n)).running <= run(s, es.subrange(0, n)).cap,
{
    lemma_valid_run_prefix(s, es, n);
    lemma_run_preserves_wf(s, es.subrange(0, n));
}

/// Law: one task per discovery. A valid run grows `discovered` by exactly
/// the number of its `Discover` events, and each `Discover` event is the
/// creation of exactly one `CompressionTask`, so the number of tasks created
/// equals the number of files the traversal yielded.
pub proof fn lemma_discovered_counts_tasks(s: Orchestrator, es: Seq<Event>)
    requires
        valid_run(s, es),
    ensures
        run(s, es).discovered == s.discovered + count_occurrences(es, Event::Discover),
    decreases es.len(),
{
    if es.len() > 0 {
        lemma_discovered_counts_tasks(s, es.drop_last());
    }
}

/// Law: the progress counters are monotone: no event ever decreases
/// `discovered` or `completed`.
pub proof fn lemma_counters_monotone(s: Orchestrator, e: Event)
    requires
        enabled(s, e),
    ensures
        step(s, e).discovered >= s.discovered,
        step(s, e).completed >= s.completed,
{
}

/// Law: `completed` grows exactly once per observed task completion: a valid
/// run grows it by exactly the number of its `Observe` events.
pub proof fn lemma_completed_counts_observations(s: Orchestrator, es: Seq<Event>)
    requires
        valid_run(s, es),
    ensures
        run(s, es).completed == s.completed + count_occurrences(es, Event::Observe),
    decreases es.len(),
{
    if es.len() > 0 {
        lemma_completed_counts_observations(s, es.drop_last());
    }
}

/// Law: a run that has reached `Done` has observed every discovery: the
/// final `completed` equals the final `discovered`, every task has executed,
/// and none still runs.
pub proof fn lemma_done_is_drained(s: Orchestrator)
    requires
        s.wf(),
        s.phase is Done,
    ensures
        s.completed == s.discovered,
        s.executed == s.discovered,
        s.running == 0,
{
}

/// Law: with a positive cap, a well-formed draining state is never stuck:
/// either the run can finish, or some event that makes progress towards
/// observing every discovery is enabled.
pub proof fn lemma_drain_never_stuck(s: Orchestrator)
    requires
        s.wf(),
        s.cap >= 1,
        s.phase is Draining,
    ensures
        enabled(s, Event::FinishDrain) || enabled(s, Event::Observe) || enabled(
            s,
            Event::Release,
        ) || enabled(s, Event::Acquire),
{
}

impl Orchestrator {
    /// A fresh run with the given concurrency cap: idle, with nothing counted.
    pub fn new(cap: u64) -> (s: Orchestrator)
        ensures
            s.wf(),
            s.phase is Idle,
            s.cap == cap,
            s.discovered == 0,
            s.running == 0,
            s.executed == 0,
            s.completed == 0,
    {
        Orchestrator { phase: Phase::Idle, cap, discovered: 0, running: 0, executed: 0, completed: 0 }
    }

    /// The traversal begins.
    pub fn begin_scan(&mut self)
        requires
            old(self).wf(),
            old(self).phase is Idle,
        ensures
            *final(self) == step(*old(self), Event::BeginScan),
            final(self).wf(),
    {
        proof {
            lemma_step_preserves_wf(*self, Event::BeginScan);
        }
        self.phase = Phase::Scanning;
    }

    /// The traversal yields one file: count it and create the one task that
    /// will compress it, bound to the full codec set.
    pub fn discover(&mut self, path: String) -> (t: CompressionTask)
        requires
            old(self).wf(),
            old(self).phase is Scanning,
            old(self).discovered < u64::MAX,
        ensures
            *final(self) == step(*old(self), Event::Discover),
            final(self).wf(),
            t.path == path,
            t.codecs@ == full_codec_set(),
    {
        proof {
            lemma_step_preserves_wf(*self, Event::Discover);
        }
        self.discovered = self.discovered + 1;
        CompressionTask::new(path)
    }

    /// The traversal is exhausted.
    pub fn begin_drain(&mut self)
        requires
            old(self).wf(),
            old(self).phase is Scanning,
        ensures
            *final(self) == step(*old(self), Event::BeginDrain),
            final(self).wf(),
    {
        proof {
            lemma_step_preserves_wf(*self, Event::BeginDrain);
        }
        self.phase = Phase::Draining;
    }

    /// A submitted task asks for a concurrency ticket. The ticket is granted
    /// if and only if a ticket is free under the cap and some submitted task
    /// has neither executed nor is already running.
    pub fn try_acquire_ticket(&mut self) -> (granted: bool)
        requires
            old(self).wf(),
        ensures
            granted == enabled(*old(self), Event::Acquire),
            granted ==> *final(self) == step(*old(self), Event::Acquire),
            !granted ==> *final(self) == *old(self),
            final(self).wf(),
    {
        let scanning_or_draining = match self.phase {
            Phase::Scanning => true,
            Phase::Draining => true,
            _ => false,
        };
        if scanning_or_draining && self.running < self.cap && self.executed + self.running
            < self.discovered {
            proof {
                lemma_step_preserves_wf(*self, Event::Acquire);
            }
            self.running = self.running + 1;
            true
        } else {
            false
        }
    }

    /// An executing task finishes its work, successfully or not, and gives
    /// its ticket back. The release is unconditional: failure inside the
    /// task never leaks a ticket.
    pub fn release_ticket(&mut self)
        requires
            old(self).wf(),
            old(self).running >= 1,
        ensures
            *final(self) == step(*old(self), Event::Release),
            final(self).wf(),
    {
        proof {
            lemma_step_preserves_wf(*self, Event::Release);
        }
        self.running = self.running - 1;
        self.executed = self.executed + 1;
    }

    /// The draining loop observes one finished task, whatever that task's
    /// internal success or failure outcome was.
    pub fn observe_completion(&mut self)
        requires
            old(self).wf(),
            old(self).phase is Draining,
            old(self).completed < old(self).executed,
        ensures
            *final(self) == step(*old(self), Event::Observe),
            final(self).wf(),
    {
        proof {
            lemma_step_preserves_wf(*self, Event::Observe);
        }
        self.completed = self.completed + 1;
    }

    /// Every discovery has been observed: the run ends.
    pub fn finish_drain(&mut self)
        requires
            old(self).wf(),
            old(self).phase is Draining,
            old(self).completed == old(self).discovered,
        ensures
            *final(self) == step(*old(self), Event::FinishDrain),
            final(self).wf(),
    {
        proof {
            lemma_step_preserves_wf(*self, Event::FinishDrain);
        }
        self.phase = Phase::Done;
    }
}

} // verus!
