//! The bridge as a mathematical state machine.
//!
//! Every operation of the executable bridge is described here as a function
//! from one `BridgeState` to the next. The ordering laws of the bridge are
//! stated and proved over sequences of such steps.

use vstd::prelude::*;

verus! {

/// A termination request raised by the engine.
#[derive(Debug, Clone, Copy, PartialEq, Eq, Structural)]
pub struct ExitRequest {
    pub status: i32,
    pub unload: bool,
    pub quit: bool,
}

/// What a caller asks of the engine, with every text as its characters.
pub enum RequestView {
    Circuit(Seq<Seq<char>>),
    Command(Seq<char>),
    CurrentPlotName,
    AllPlotNames,
    AllVectorNames(Seq<char>),
    VectorInfo(Seq<char>),
}

/// An accepted request together with the ticket that was handed out for it.
pub struct JobView {
    pub ticket: u64,
    pub request: RequestView,
}

/// What the worker is told when it asks for work.
pub enum WorkView {
    /// Nothing to do now.
    Idle,
    /// Hand this job to the engine.
    Run(JobView),
    /// Answer this ticket with `EngineTerminated`, without touching the engine.
    Abort(u64),
}

/// Everything the bridge knows at one moment.
pub struct BridgeState {
    /// The engine has raised its exit request.
    pub terminated: bool,
    /// How many tickets have been handed out.
    pub submitted: nat,
    /// Jobs accepted and not yet taken by the worker, oldest first.
    pub pending: Seq<JobView>,
    /// The ticket of the job that the worker currently holds, if any.
    pub running: Option<u64>,
    /// Lines emitted by the engine and not yet collected, oldest first.
    pub lines: Seq<Seq<char>>,
    /// Exit requests raised by the engine and not yet collected, oldest first.
    pub exits: Seq<ExitRequest>,
}

/// One thing that can happen to the bridge.
pub enum Event {
    /// A caller submits a request.
    Submit(RequestView),
    /// The worker asks for work.
    Take,
    /// The worker reports that the job with this ticket is done.
    Finish(u64),
    /// The engine emits a line of output.
    Emit(Seq<char>),
    /// The front end collects the oldest emitted line.
    CollectLine,
    /// The engine raises its exit request.
    Exit(ExitRequest),
    /// The front end collects the oldest exit request.
    CollectExit,
}

impl BridgeState {
    /// The state of a bridge that has just been constructed around queues
    /// that already hold `lines` and `exits`.
    pub open spec fn initial(lines: Seq<Seq<char>>, exits: Seq<ExitRequest>) -> BridgeState {
        BridgeState {
            terminated: false,
            submitted: 0,
            pending: Seq::empty(),
            running: None,
            lines,
            exits,
        }
    }

    /// How many jobs the worker has taken from the queue so far.
    pub open spec fn taken_count(self) -> int {
        self.submitted - self.pending.len()
    }

    /// Tickets are handed out consecutively from zero, the queue holds the
    /// most recent ones in order, and a job in the worker's hands has left
    /// the queue before.
    pub open spec fn wf(self) -> bool {
        &&& self.submitted <= u64::MAX
        &&& self.pending.len() <= self.submitted
        &&& forall|i: int|
            0 <= i < self.pending.len() ==> (#[trigger] self.pending[i]).ticket
                == self.taken_count() + i
        &&& match self.running {
            Some(ticket) => ticket < self.taken_count(),
            None => true,
        }
    }

    /// Whether a submission is accepted in this state.
    pub open spec fn accepts(self) -> bool {
        !self.terminated && self.submitted < u64::MAX
    }

    /// The state after a submission of `request`.
    pub open spec fn submit(self, request: RequestView) -> BridgeState {
        if self.accepts() {
            BridgeState {
                submitted: self.submitted + 1,
                pending: self.pending.push(JobView { ticket: self.submitted as u64, request }),
                ..self
            }
        } else {
            self
        }
    }

    /// What the worker is told when it asks for work in this state.
    pub open spec fn work(self) -> WorkView {
        if self.pending.len() == 0 {
            WorkView::Idle
        } else if self.terminated {
            WorkView::Abort(self.pending[0].ticket)
        } else if self.running is Some {
            WorkView::Idle
        } else {
            WorkView::Run(self.pending[0])
        }
    }

    /// The state after the worker has asked for work.
    pub open spec fn take(self) -> BridgeState {
        match self.work() {
            WorkView::Idle => self,
            WorkView::Abort(_) => BridgeState { pending: self.pending.drop_first(), ..self },
            WorkView::Run(job) => BridgeState {
                pending: self.pending.drop_first(),
                running: Some(job.ticket),
                ..self
            },
        }
    }

    /// The state after the worker has reported the job with `ticket` done.
    pub open spec fn finish(self, ticket: u64) -> BridgeState {
        if self.running == Some(ticket) {
            BridgeState { running: None, ..self }
        } else {
            self
        }
    }

    /// The state after the engine has emitted `line`.
    pub open spec fn emit(self, line: Seq<char>) -> BridgeState {
        BridgeState { lines: self.lines.push(line), ..self }
    }

    /// The state after the front end has collected a line.
    pub open spec fn collect_line(self) -> BridgeState {
        if self.lines.len() > 0 {
            BridgeState { lines: self.lines.drop_first(), ..self }
        } else {
            self
        }
    }

    /// The state after the engine has raised `request`.
    pub open spec fn exit(self, request: ExitRequest) -> BridgeState {
        BridgeState { terminated: true, exits: self.exits.push(request), ..self }
    }

    /// The state after the front end has collected an exit request.
    pub open spec fn collect_exit(self) -> BridgeState {
        if self.exits.len() > 0 {
            BridgeState { exits: self.exits.drop_first(), ..self }
        } else {
            self
        }
    }

    /// The state after `event`.
    pub open spec fn step(self, event: Event) -> BridgeState {
        match event {
            Event::Submit(request) => self.submit(request),
            Event::Take => self.take(),
            Event::Finish(ticket) => self.finish(ticket),
            Event::Emit(line) => self.emit(line),
            Event::CollectLine => self.collect_line(),
            Event::Exit(request) => self.exit(request),
            Event::CollectExit => self.collect_exit(),
        }
    }

    /// The state after all of `events`, in order.
    pub open spec fn run(self, events: Seq<Event>) -> BridgeState
        decreases events.len(),
    {
        if events.len() == 0 {
            self
        } else {
            self.step(events[0]).run(events.drop_first())
        }
    }

    /// The jobs that `event` adds to the queue: one if it is an accepted
    /// submission, none otherwise.
    pub open spec fn accepted_by(self, event: Event) -> Seq<JobView> {
        match event {
            Event::Submit(request) => if self.accepts() {
                seq![JobView { ticket: self.submitted as u64, request }]
            } else {
                Seq::empty()
            },
            _ => Seq::empty(),
        }
    }

    /// The jobs that `event` removes from the queue: one if the worker asks
    /// for work and is given or told to abort a job, none otherwise.
    pub open spec fn taken_by(self, event: Event) -> Seq<JobView> {
        match event {
            Event::Take => match self.work() {
                WorkView::Idle => Seq::empty(),
                _ => seq![self.pending[0]],
            },
            _ => Seq::empty(),
        }
    }

    /// The jobs that `event` hands to the engine.
    pub open spec fn executed_by(self, event: Event) -> Seq<JobView> {
        match event {
            Event::Take => match self.work() {
                WorkView::Run(job) => seq![job],
                _ => Seq::empty(),
            },
            _ => Seq::empty(),
        }
    }

    /// The lines that `event` puts into the output queue.
    pub open spec fn emitted_by(self, event: Event) -> Seq<Seq<char>> {
        match event {
            Event::Emit(line) => seq![line],
            _ => Seq::empty(),
        }
    }

    /// The lines that `event` delivers to the front end.
    pub open spec fn collected_by(self, event: Event) -> Seq<Seq<char>> {
        match event {
            Event::CollectLine => if self.lines.len() > 0 {
                seq![self.lines[0]]
            } else {
                Seq::empty()
            },
            _ => Seq::empty(),
        }
    }

    /// The ticket that `event` reports done: the one in the worker's hands,
    /// if the event names it.
    pub open spec fn finished_by(self, event: Event) -> Seq<u64> {
        match event {
            Event::Finish(ticket) => if self.running == Some(ticket) {
                seq![ticket]
            } else {
                Seq::empty()
            },
            _ => Seq::empty(),
        }
    }

    /// The ticket of the job in the worker's hands, as a sequence of at most
    /// one.
    pub open spec fn in_hand(self) -> Seq<u64> {
        match self.running {
            Some(ticket) => seq![ticket],
            None => Seq::empty(),
        }
    }

    /// All jobs that `events` add to the queue, in order of submission.
    pub open spec fn accepted(self, events: Seq<Event>) -> Seq<JobView>
        decreases events.len(),
    {
        if events.len() == 0 {
            Seq::empty()
        } else {
            self.accepted_by(events[0]) + self.step(events[0]).accepted(events.drop_first())
        }
    }

    /// All jobs that the worker takes from the queue during `events`, in the
    /// order in which it takes them.
    pub open spec fn taken(self, events: Seq<Event>) -> Seq<JobView>
        decreases events.len(),
    {
        if events.len() == 0 {
            Seq::empty()
        } else {
            self.taken_by(events[0]) + self.step(events[0]).taken(events.drop_first())
        }
    }

    /// All jobs handed to the engine during `events`, in order of execution.
    pub open spec fn executed(self, events: Seq<Event>) -> Seq<JobView>
        decreases events.len(),
    {
        if events.len() == 0 {
            Seq::empty()
        } else {
            self.executed_by(events[0]) + self.step(events[0]).executed(events.drop_first())
        }
    }

    /// The tickets of all jobs reported done during `events`, in order of
    /// completion.
    pub open spec fn finished(self, events: Seq<Event>) -> Seq<u64>
        decreases events.len(),
    {
        if events.len() == 0 {
            Seq::empty()
        } else {
            self.finished_by(events[0]) + self.step(events[0]).finished(events.drop_first())
        }
    }

    /// All lines that the engine emits during `events`, in order of emission.
    pub open spec fn emitted(self, events: Seq<Event>) -> Seq<Seq<char>>
        decreases events.len(),
    {
        if events.len() == 0 {
            Seq::empty()
        } else {
            self.emitted_by(events[0]) + self.step(events[0]).emitted(events.drop_first())
        }
    }

    /// All lines delivered to the front end during `events`, in order of
    /// delivery.
    pub open spec fn collected(self, events: Seq<Event>) -> Seq<Seq<char>>
        decreases events.len(),
    {
        if events.len() == 0 {
            Seq::empty()
        } else {
            self.collected_by(events[0]) + self.step(events[0]).collected(events.drop_first())
        }
    }
}

/// Every step leads from a well-formed state to a well-formed state.
pub proof fn step_preserves_wf(state: BridgeState, event: Event)
    requires
        state.wf(),
    ensures
        state.step(event).wf(),
{
    let next = state.step(event);
    match event {
        Event::Submit(_) => {
            assert forall|i: int| 0 <= i < next.pending.len() implies (#[trigger] next.pending[i]).ticket
                == next.taken_count() + i by {
                if i < state.pending.len() {
                    assert(next.pending[i] == state.pending[i]);
                }
            }
        },
        Event::Take => {
            assert forall|i: int| 0 <= i < next.pending.len() implies (#[trigger] next.pending[i]).ticket
                == next.taken_count() + i by {
                if next.pending.len() < state.pending.len() {
                    assert(next.pending[i] == state.pending[i + 1]);
                }
            }
            if state.pending.len() > 0 {
                assert(state.pending[0].ticket == state.taken_count());
            }
        },
        _ => {},
    }
}

/// Every state reached from a well-formed state is well-formed: tickets are
/// handed out consecutively, and the queue holds them in that order.
pub proof fn run_preserves_wf(state: BridgeState, events: Seq<Event>)
    requires
        state.wf(),
    ensures
        state.run(events).wf(),
    decreases events.len(),
{
    if events.len() > 0 {
        step_preserves_wf(state, events[0]);
        run_preserves_wf(state.step(events[0]), events.drop_first());
    }
}

/// Once the engine has asked to exit, the bridge stays terminated whatever
/// happens: no submission is accepted, and no job is handed to the engine.
pub proof fn termination_is_final(state: BridgeState, events: Seq<Event>)
    requires
        state.terminated,
    ensures
        state.run(events).terminated,
        state.accepted(events) == Seq::<JobView>::empty(),
        state.executed(events) == Seq::<JobView>::empty(),
    decreases events.len(),
{
    if events.len() > 0 {
        termination_is_final(state.step(events[0]), events.drop_first());
        assert(state.accepted(events) =~= Seq::<JobView>::empty());
        assert(state.executed(events) =~= Seq::<JobView>::empty());
    }
}

/// Jobs leave the queue in the order in which they were submitted: whatever
/// was queued at the start, followed by what was accepted since, is what the
/// worker has taken, followed by what is still queued.
pub proof fn queue_is_fifo(state: BridgeState, events: Seq<Event>)
    ensures
        state.pending + state.accepted(events) == state.taken(events) + state.run(events).pending,
    decreases events.len(),
{
    if events.len() == 0 {
        assert(state.pending + state.accepted(events) =~= state.taken(events) + state.run(
            events,
        ).pending);
    } else {
        let next = state.step(events[0]);
        let rest = events.drop_first();
        queue_is_fifo(next, rest);
        assert(state.pending + state.accepted_by(events[0]) =~= state.taken_by(events[0])
            + next.pending);
        assert(state.pending + state.accepted(events) =~= (state.pending + state.accepted_by(
            events[0],
        )) + next.accepted(rest));
        assert(state.taken(events) + state.run(events).pending =~= state.taken_by(events[0]) + (
        next.taken(rest) + next.run(rest).pending));
        assert((state.taken_by(events[0]) + next.pending) + next.accepted(rest)
            =~= state.taken_by(events[0]) + (next.pending + next.accepted(rest)));
    }
}

/// The jobs handed to the engine are the first of those that the worker
/// took from the queue: after the first job that was not run, none is.
pub proof fn executed_before_aborted(state: BridgeState, events: Seq<Event>)
    ensures
        state.executed(events).is_prefix_of(state.taken(events)),
    decreases events.len(),
{
    if events.len() > 0 {
        let next = state.step(events[0]);
        let rest = events.drop_first();
        executed_before_aborted(next, rest);
        if state.executed_by(events[0]).len() == 0 {
            if state.taken_by(events[0]).len() > 0 {
                termination_is_final(next, rest);
            } else {
                assert(state.executed(events) =~= next.executed(rest));
                assert(state.taken(events) =~= next.taken(rest));
            }
        } else {
            assert(state.executed_by(events[0]) == state.taken_by(events[0]));
            assert(state.executed(events) =~= state.taken(events).subrange(
                0,
                state.executed(events).len() as int,
            ));
        }
    }
}

/// The engine runs jobs in the order in which they were submitted: the jobs
/// handed to it are the first of those queued at the start followed by those
/// accepted since, in that order and with none left out.
pub proof fn execution_follows_submission(state: BridgeState, events: Seq<Event>)
    ensures
        state.executed(events).is_prefix_of(state.pending + state.accepted(events)),
{
    queue_is_fifo(state, events);
    executed_before_aborted(state, events);
    let executed = state.executed(events);
    let taken = state.taken(events);
    let all = state.pending + state.accepted(events);
    assert(executed =~= all.subrange(0, executed.len() as int)) by {
        assert(executed == taken.subrange(0, executed.len() as int));
    }
}

/// The tickets of `jobs`, in the same order.
pub open spec fn tickets(jobs: Seq<JobView>) -> Seq<u64> {
    jobs.map_values(|job: JobView| job.ticket)
}

/// Jobs complete in the order in which they were handed to the engine, and
/// each before the next is handed out: the job in the worker's hands at the
/// start, followed by those handed to the engine since, is what has been
/// reported done, followed by the job in the worker's hands at the end.
pub proof fn completion_follows_execution(state: BridgeState, events: Seq<Event>)
    ensures
        state.in_hand() + tickets(state.executed(events)) == state.finished(events) + state.run(
            events,
        ).in_hand(),
    decreases events.len(),
{
    if events.len() == 0 {
        assert(state.in_hand() + tickets(state.executed(events)) =~= state.finished(events)
            + state.run(events).in_hand());
    } else {
        let next = state.step(events[0]);
        let rest = events.drop_first();
        completion_follows_execution(next, rest);
        assert(state.in_hand() + tickets(state.executed_by(events[0])) =~= state.finished_by(
            events[0],
        ) + next.in_hand());
        assert(tickets(state.executed(events)) =~= tickets(state.executed_by(events[0])) + tickets(
            next.executed(rest),
        ));
        assert(state.in_hand() + tickets(state.executed(events)) =~= (state.in_hand() + tickets(
            state.executed_by(events[0]),
        )) + tickets(next.executed(rest)));
        assert((state.finished_by(events[0]) + next.in_hand()) + tickets(next.executed(rest))
            =~= state.finished_by(events[0]) + (next.in_hand() + tickets(next.executed(rest))));
        assert(state.finished(events) + state.run(events).in_hand() =~= state.finished_by(
            events[0],
        ) + (next.finished(rest) + next.run(rest).in_hand()));
    }
}

/// Lines reach the front end in the order in which the engine emitted them,
/// whatever else happens in between: what was queued at the start, followed
/// by what was emitted since, is what has been delivered, followed by what
/// is still queued.
pub proof fn output_keeps_order(state: BridgeState, events: Seq<Event>)
    ensures
        state.lines + state.emitted(events) == state.collected(events) + state.run(events).lines,
    decreases events.len(),
{
    if events.len() == 0 {
        assert(state.lines + state.emitted(events) =~= state.collected(events) + state.run(
            events,
        ).lines);
    } else {
        let next = state.step(events[0]);
        let rest = events.drop_first();
        output_keeps_order(next, rest);
        assert(state.lines + state.emitted_by(events[0]) =~= state.collected_by(events[0])
            + next.lines);
        assert(state.lines + state.emitted(events) =~= (state.lines + state.emitted_by(events[0]))
            + next.emitted(rest));
        assert(state.collected(events) + state.run(events).lines =~= state.collected_by(events[0])
            + (next.collected(rest) + next.run(rest).lines));
        assert((state.collected_by(events[0]) + next.lines) + next.emitted(rest)
            =~= state.collected_by(events[0]) + (next.lines + next.emitted(rest)));
    }
}

/// The worker never holds two jobs at once: a job is handed to the engine
/// only while no other is running.
pub proof fn one_job_at_a_time(state: BridgeState)
    ensures
        state.work() is Run ==> state.running is None && !state.terminated,
        state.running is Some ==> state.take().running == state.running,
{
}

} // verus!
