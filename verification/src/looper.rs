//! The periodic task runner.
//!
//! A job is run once per interval, for ever. The runner is a state machine
//! with two states, idle and running: the caller sleeps and runs the unit of
//! work as it is told, and reports back. A failed run is reported for the
//! log and changes nothing else: the next run comes one interval later.

use vstd::prelude::*;

verus! {

/// One periodic job: its name, for the log, and the time between two runs.
pub struct LoopDescriptor {
    name: String,
    millis: u64,
}

impl LoopDescriptor {
    #[verifier::type_invariant]
    spec fn positive_interval(&self) -> bool {
        self.millis > 0
    }

    pub closed spec fn name_spec(&self) -> Seq<char> {
        self.name@
    }

    pub closed spec fn interval(&self) -> u64 {
        self.millis
    }

    /// A job called `name` that runs every `millis` milliseconds. There is no
    /// job with an interval of zero.
    pub fn new(name: String, millis: u64) -> (descriptor: Option<LoopDescriptor>)
        ensures
            millis == 0 <==> descriptor is None,
            descriptor matches Some(d) ==> d.name_spec() == name@ && d.interval() == millis,
    {
        if millis == 0 {
            None
        } else {
            Some(LoopDescriptor { name, millis })
        }
    }

    pub fn name(&self) -> (name: &str)
        ensures
            name@ == self.name_spec(),
    {
        self.name.as_str()
    }

    /// The interval in milliseconds, which is never zero.
    pub fn millis(&self) -> (millis: u64)
        ensures
            millis == self.interval(),
            millis > 0,
    {
        proof {
            use_type_invariant(self);
        }
        self.millis
    }
}

/// What the caller of the runner reports.
#[derive(Debug, PartialEq, Eq)]
pub enum LooperEvent {
    /// The sleep is over.
    Tick,
    /// The unit of work has returned, with the error's detail if it failed.
    Finished(Result<(), String>),
}

/// What the caller of the runner does next.
#[derive(Debug, Clone, Copy, PartialEq, Eq)]
pub enum LooperAction {
    /// Sleep for this many milliseconds, then report [`LooperEvent::Tick`].
    Sleep { millis: u64 },
    /// Run the unit of work once, then report [`LooperEvent::Finished`].
    Invoke,
    /// Nothing: the event did not fit the state and was ignored.
    Ignore,
}

/// The answer of the runner to one event.
#[derive(Debug, PartialEq, Eq)]
pub struct LooperStep {
    pub action: LooperAction,
    /// The detail of a failed run, to be logged with the job's name.
    pub failure: Option<String>,
}

/// Whether the job is running after `event`, given whether it ran before.
///
/// A tick starts a run of an idle job, and the end of a run makes a running
/// job idle, whether the run failed or not. A tick for a running job and an
/// end for an idle one change nothing.
pub open spec fn running_after(running: bool, event: LooperEvent) -> bool {
    match event {
        LooperEvent::Tick => true,
        LooperEvent::Finished(_) => false,
    }
}

/// The answer to `event` of a runner whose job has the interval `millis`.
pub open spec fn step_for(running: bool, millis: u64, event: LooperEvent) -> LooperStep {
    match event {
        LooperEvent::Tick => LooperStep {
            action: if running {
                LooperAction::Ignore
            } else {
                LooperAction::Invoke
            },
            failure: None,
        },
        LooperEvent::Finished(result) => if running {
            LooperStep {
                action: LooperAction::Sleep { millis },
                failure: match result {
                    Ok(_) => None,
                    Err(detail) => Some(detail),
                },
            }
        } else {
            LooperStep { action: LooperAction::Ignore, failure: None }
        },
    }
}

/// The runner of one job.
pub struct Looper {
    descriptor: LoopDescriptor,
    running: bool,
}

impl Looper {
    pub closed spec fn descriptor_spec(&self) -> LoopDescriptor {
        self.descriptor
    }

    /// Whether the unit of work is running.
    pub closed spec fn running(&self) -> bool {
        self.running
    }

    /// A runner for the job, idle. Nothing runs before the first interval has
    /// passed: see [`Looper::start`].
    pub fn new(descriptor: LoopDescriptor) -> (looper: Looper)
        ensures
            looper.descriptor_spec() == descriptor,
            !looper.running(),
    {
        Looper { descriptor, running: false }
    }

    pub fn descriptor(&self) -> (descriptor: &LoopDescriptor)
        ensures
            *descriptor == self.descriptor_spec(),
    {
        &self.descriptor
    }

    pub fn is_running(&self) -> (running: bool)
        ensures
            running == self.running(),
    {
        self.running
    }

    /// What to do first: sleep for one interval.
    pub fn start(&self) -> (action: LooperAction)
        ensures
            action == (LooperAction::Sleep { millis: self.descriptor_spec().interval() }),
            self.descriptor_spec().interval() > 0,
    {
        LooperAction::Sleep { millis: self.descriptor.millis() }
    }

    /// Takes one event and says what to do next.
    ///
    /// A tick while idle starts a run. The end of a run, failed or not, is
    /// answered with a sleep of one interval; the failure's detail is handed
    /// back for the log. A tick while running starts no second run.
    pub fn step(&mut self, event: LooperEvent) -> (step: LooperStep)
        ensures
            final(self).descriptor_spec() == old(self).descriptor_spec(),
            final(self).running() == running_after(old(self).running(), event),
            step == step_for(old(self).running(), old(self).descriptor_spec().interval(), event),
    {
        match event {
            LooperEvent::Tick => {
                if self.running {
                    LooperStep { action: LooperAction::Ignore, failure: None }
                } else {
                    self.running = true;
                    LooperStep { action: LooperAction::Invoke, failure: None }
                }
            },
            LooperEvent::Finished(result) => {
                if self.running {
                    self.running = false;
                    let failure = match result {
                        Ok(_) => None,
                        Err(detail) => Some(detail),
                    };
                    LooperStep {
                        action: LooperAction::Sleep { millis: self.descriptor.millis() },
                        failure,
                    }
                } else {
                    LooperStep { action: LooperAction::Ignore, failure: None }
                }
            },
        }
    }
}

/// The events of `results.len()` ticks in a row, each followed by the end of
/// its run with the result given for it.
pub open spec fn ticks(results: Seq<Result<(), String>>) -> Seq<LooperEvent>
    decreases results.len(),
{
    if results.len() == 0 {
        Seq::empty()
    } else {
        ticks(results.drop_last()).push(LooperEvent::Tick).push(
            LooperEvent::Finished(results.last()),
        )
    }
}

/// Whether the job is running after an idle runner has seen `events`.
pub open spec fn running_after_all(events: Seq<LooperEvent>) -> bool
    decreases events.len(),
{
    if events.len() == 0 {
        false
    } else {
        running_after(running_after_all(events.drop_last()), events.last())
    }
}

/// How many times an idle runner that sees `events` answers with `action`.
pub open spec fn count_action(millis: u64, events: Seq<LooperEvent>, action: LooperAction) -> nat
    decreases events.len(),
{
    if events.len() == 0 {
        0
    } else {
        let before = events.drop_last();
        count_action(millis, before, action) + if step_for(
            running_after_all(before),
            millis,
            events.last(),
        ).action == action {
            1nat
        } else {
            0nat
        }
    }
}

/// How many failures an idle runner that sees `events` hands back for the
/// log.
pub open spec fn count_failures(millis: u64, events: Seq<LooperEvent>) -> nat
    decreases events.len(),
{
    if events.len() == 0 {
        0
    } else {
        let before = events.drop_last();
        count_failures(millis, before) + if step_for(
            running_after_all(before),
            millis,
            events.last(),
        ).failure is Some {
            1nat
        } else {
            0nat
        }
    }
}

/// How many of `results` are failures.
pub open spec fn failed(results: Seq<Result<(), String>>) -> nat
    decreases results.len(),
{
    if results.len() == 0 {
        0
    } else {
        failed(results.drop_last()) + if results.last() is Err {
            1nat
        } else {
            0nat
        }
    }
}

/// What one more event adds to the counts.
proof fn lemma_one_more_event(
    millis: u64,
    events: Seq<LooperEvent>,
    event: LooperEvent,
    action: LooperAction,
)
    ensures
        running_after_all(events.push(event)) == running_after(running_after_all(events), event),
        count_action(millis, events.push(event), action) == count_action(millis, events, action)
            + if step_for(running_after_all(events), millis, event).action == action {
            1nat
        } else {
            0nat
        },
        count_failures(millis, events.push(event)) == count_failures(millis, events) + if step_for(
            running_after_all(events),
            millis,
            event,
        ).failure is Some {
            1nat
        } else {
            0nat
        },
{
    assert(events.push(event).drop_last() =~= events);
    assert(events.push(event).last() == event);
}

/// A failing job does not stop the schedule.
///
/// Over any number of ticks, and whatever each run came to, the unit of work
/// is invoked once per tick, every run is followed by a sleep of exactly one
/// interval, each failure is handed back for the log once, and the runner is
/// idle at the end. These are all the answers there are: none of the events
/// is ignored. A job that fails every time is still invoked every time.
pub proof fn lemma_failures_do_not_stop_the_schedule(
    millis: u64,
    results: Seq<Result<(), String>>,
)
    ensures
        ticks(results).len() == 2 * results.len(),
        !running_after_all(ticks(results)),
        count_action(millis, ticks(results), LooperAction::Invoke) == results.len(),
        count_action(millis, ticks(results), LooperAction::Sleep { millis }) == results.len(),
        count_action(millis, ticks(results), LooperAction::Ignore) == 0,
        count_failures(millis, ticks(results)) == failed(results),
    decreases results.len(),
{
    if results.len() > 0 {
        let before = ticks(results.drop_last());
        let tick = LooperEvent::Tick;
        let end = LooperEvent::Finished(results.last());
        lemma_failures_do_not_stop_the_schedule(millis, results.drop_last());
        lemma_one_more_event(millis, before, tick, LooperAction::Invoke);
        lemma_one_more_event(millis, before, tick, LooperAction::Sleep { millis });
        lemma_one_more_event(millis, before, tick, LooperAction::Ignore);
        lemma_one_more_event(millis, before.push(tick), end, LooperAction::Invoke);
        lemma_one_more_event(millis, before.push(tick), end, LooperAction::Sleep { millis });
        lemma_one_more_event(millis, before.push(tick), end, LooperAction::Ignore);
    }
}

} // verus!
