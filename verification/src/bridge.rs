//! The executable bridge: the guard of the single engine instance, the queue
//! of requests that the worker drains one at a time, and the relay of what
//! the engine emits.

use std::collections::VecDeque;
use vstd::prelude::*;
use crate::error::EngineError;
use crate::model::{step_preserves_wf, BridgeState, Event, ExitRequest, JobView, RequestView, WorkView};
use crate::output::{stream_of, text_of, OutputLine};

verus! {

/// What a caller asks of the engine.
#[derive(Debug, Clone, PartialEq, Eq)]
pub enum Request {
    /// Load the netlist given line by line.
    Circuit(Vec<String>),
    /// Run one control command.
    Command(String),
    /// Name the plot that is current.
    CurrentPlotName,
    /// Name all plots.
    AllPlotNames,
    /// Name all vectors of the plot with this name.
    AllVectorNames(String),
    /// Read the vector with this name.
    VectorInfo(String),
}

impl DeepView for Request {
    type V = RequestView;

    open spec fn deep_view(&self) -> RequestView {
        match *self {
            Request::Circuit(lines) => RequestView::Circuit(lines.deep_view()),
            Request::Command(command) => RequestView::Command(command@),
            Request::CurrentPlotName => RequestView::CurrentPlotName,
            Request::AllPlotNames => RequestView::AllPlotNames,
            Request::AllVectorNames(plot_name) => RequestView::AllVectorNames(plot_name@),
            Request::VectorInfo(vector_name) => RequestView::VectorInfo(vector_name@),
        }
    }
}

/// An accepted request together with the ticket that was handed out for it.
#[derive(Debug, Clone, PartialEq, Eq)]
pub struct Job {
    pub ticket: u64,
    pub request: Request,
}

impl DeepView for Job {
    type V = JobView;

    open spec fn deep_view(&self) -> JobView {
        JobView { ticket: self.ticket, request: self.request.deep_view() }
    }
}

/// What the worker is told when it asks for work.
#[derive(Debug, Clone, PartialEq, Eq)]
pub enum Work {
    /// Nothing to do now.
    Idle,
    /// Hand this job to the engine.
    Run(Job),
    /// Answer this ticket with `EngineError::EngineTerminated`, without
    /// touching the engine.
    Abort(u64),
}

impl DeepView for Work {
    type V = WorkView;

    open spec fn deep_view(&self) -> WorkView {
        match *self {
            Work::Idle => WorkView::Idle,
            Work::Run(job) => WorkView::Run(job.deep_view()),
            Work::Abort(ticket) => WorkView::Abort(ticket),
        }
    }
}

/// The reason given when no further ticket can be handed out.
pub open spec fn tickets_exhausted() -> Seq<char> {
    "No ticket is left for another request"@
}

/// Whether `ticket` is the answer owed to a submission made in the state
/// `before`: the next ticket where the submission is accepted,
/// `EngineTerminated` once the engine has asked to exit, and otherwise
/// `EngineCallFailed` with the reason `tickets_exhausted()`.
pub open spec fn answers_submission(before: BridgeState, ticket: Result<u64, EngineError>) -> bool {
    if before.terminated {
        ticket == Err::<u64, EngineError>(EngineError::EngineTerminated)
    } else if before.accepts() {
        ticket == Ok::<u64, EngineError>(before.submitted as u64)
    } else {
        match ticket {
            Err(EngineError::EngineCallFailed(reason)) => reason@ == tickets_exhausted(),
            _ => false,
        }
    }
}

/// The process-wide guard of the single engine instance. A process keeps
/// one of these; it can be claimed once and is never released.
#[derive(Debug)]
pub struct EngineSlot {
    claimed: bool,
}

impl EngineSlot {
    /// Whether the engine of this slot has been constructed.
    pub closed spec fn claimed(&self) -> bool {
        self.claimed
    }

    /// A slot whose engine has not been constructed.
    pub fn new() -> (slot: EngineSlot)
        ensures
            !slot.claimed(),
    {
        EngineSlot { claimed: false }
    }

    /// Whether the engine of this slot has been constructed.
    pub fn is_claimed(&self) -> (claimed: bool)
        ensures
            claimed == self.claimed(),
    {
        self.claimed
    }
}

/// Whether the construction of the engine succeeds on a slot that is
/// `claimed` or not: it does exactly on an unclaimed slot.
pub open spec fn succeeds(claimed: bool) -> bool {
    !claimed
}

/// How many of `attempts` constructions in a row succeed on a slot that is
/// `claimed` or not at the start, given that each leaves the slot claimed.
pub open spec fn constructions(claimed: bool, attempts: nat) -> nat
    decreases attempts,
{
    if attempts == 0 {
        0
    } else if succeeds(claimed) {
        1 + constructions(true, (attempts - 1) as nat)
    } else {
        constructions(true, (attempts - 1) as nat)
    }
}

/// However often construction is attempted on one slot, at most one engine
/// is constructed, and none on a slot that is claimed already.
pub proof fn at_most_one_engine(claimed: bool, attempts: nat)
    ensures
        constructions(claimed, attempts) <= 1,
        claimed ==> constructions(claimed, attempts) == 0,
        !claimed && attempts > 0 ==> constructions(claimed, attempts) == 1,
    decreases attempts,
{
    if attempts > 0 {
        at_most_one_engine(true, (attempts - 1) as nat);
    }
}

/// The relay of what the engine emits: lines of output and exit requests,
/// each kept in the order in which the engine produced them until the front
/// end collects them.
#[derive(Debug)]
pub struct Callbacks {
    lines: VecDeque<String>,
    exits: VecDeque<ExitRequest>,
}

impl Callbacks {
    /// The lines emitted and not yet collected, oldest first.
    pub closed spec fn lines(&self) -> Seq<Seq<char>> {
        self.lines.deep_view()
    }

    /// The exit requests raised and not yet collected, oldest first.
    pub closed spec fn exits(&self) -> Seq<ExitRequest> {
        self.exits@
    }

    /// An empty relay.
    pub fn new() -> (callbacks: Callbacks)
        ensures
            callbacks.lines() == Seq::<Seq<char>>::empty(),
            callbacks.exits() == Seq::<ExitRequest>::empty(),
    {
        let callbacks = Callbacks { lines: VecDeque::new(), exits: VecDeque::new() };
        assert(callbacks.lines.deep_view() =~= Seq::<Seq<char>>::empty());
        callbacks
    }

    /// Called by the engine for each line it emits: the line joins the queue
    /// behind all earlier ones.
    pub fn send_char(&mut self, string: &str)
        ensures
            final(self).lines() == old(self).lines().push(string@),
            final(self).exits() == old(self).exits(),
    {
        self.lines.push_back(string.to_owned());
        assert(self.lines.deep_view() =~= old(self).lines.deep_view().push(string@));
    }

    /// Called by the engine when it asks to exit: the request joins the
    /// queue behind all earlier ones.
    pub fn controlled_exit(&mut self, status: i32, unload: bool, quit: bool)
        ensures
            final(self).exits() == old(self).exits().push((ExitRequest { status, unload, quit })),
            final(self).lines() == old(self).lines(),
    {
        self.exits.push_back(ExitRequest { status, unload, quit });
    }

    /// Hands the oldest uncollected line to the front end, if there is one.
    pub fn next_line(&mut self) -> (line: Option<String>)
        ensures
            final(self).exits() == old(self).exits(),
            match line {
                Some(text) => {
                    &&& old(self).lines().len() > 0
                    &&& text@ == old(self).lines()[0]
                    &&& final(self).lines() == old(self).lines().drop_first()
                },
                None => {
                    &&& old(self).lines().len() == 0
                    &&& final(self).lines() == old(self).lines()
                },
            },
    {
        let line = self.lines.pop_front();
        assert(line is Some ==> self.lines.deep_view() =~= old(self).lines.deep_view().drop_first());
        line
    }

    /// Hands the oldest uncollected exit request to the front end, if there
    /// is one.
    pub fn next_exit(&mut self) -> (request: Option<ExitRequest>)
        ensures
            final(self).lines() == old(self).lines(),
            match request {
                Some(exit) => {
                    &&& old(self).exits().len() > 0
                    &&& exit == old(self).exits()[0]
                    &&& final(self).exits() == old(self).exits().drop_first()
                },
                None => {
                    &&& old(self).exits().len() == 0
                    &&& final(self).exits() == old(self).exits()
                },
            },
    {
        let request = self.exits.pop_front();
        assert(request is Some ==> self.exits@ =~= old(self).exits@.drop_first());
        request
    }
}

/// The bridge to the one engine of the process.
///
/// Callers submit requests and receive tickets; a single worker takes the
/// jobs one at a time, in the order of their tickets, and reports each done
/// before it is given the next. What the engine emits is queued until the
/// front end collects it. Once the engine has asked to exit, nothing is
/// accepted or handed to it any more.
#[derive(Debug)]
pub struct NgSpice {
    callbacks: Callbacks,
    queue: VecDeque<Job>,
    submitted: u64,
    running: Option<u64>,
    terminated: bool,
}

impl View for NgSpice {
    type V = BridgeState;

    closed spec fn view(&self) -> BridgeState {
        BridgeState {
            terminated: self.terminated,
            submitted: self.submitted as nat,
            pending: self.queue.deep_view(),
            running: self.running,
            lines: self.callbacks.lines(),
            exits: self.callbacks.exits(),
        }
    }
}

impl NgSpice {
    /// Constructs the bridge of the process, around the relay `callbacks`.
    ///
    /// Succeeds exactly when `slot` has not been claimed before, and claims
    /// it; on a claimed slot it fails with `AlreadyInitialized`.
    pub fn new(slot: &mut EngineSlot, callbacks: Callbacks) -> (bridge: Result<NgSpice, EngineError>)
        ensures
            final(slot).claimed(),
            bridge is Ok == succeeds(old(slot).claimed()),
            old(slot).claimed() ==> bridge == Err::<NgSpice, EngineError>(
                EngineError::AlreadyInitialized,
            ),
            !old(slot).claimed() ==> bridge is Ok && bridge->Ok_0@ == BridgeState::initial(
                callbacks.lines(),
                callbacks.exits(),
            ),
            bridge is Ok ==> bridge->Ok_0@.wf(),
    {
        if slot.claimed {
            return Err(EngineError::AlreadyInitialized);
        }
        slot.claimed = true;
        let bridge = NgSpice {
            callbacks,
            queue: VecDeque::new(),
            submitted: 0,
            running: None,
            terminated: false,
        };
        assert(bridge.queue.deep_view() =~= Seq::<JobView>::empty());
        Ok(bridge)
    }

    /// Queues `request` behind all earlier ones and hands out its ticket.
    ///
    /// Fails with `EngineTerminated` once the engine has asked to exit, and
    /// with `EngineCallFailed` when all tickets have been handed out; the
    /// bridge is then unchanged.
    pub fn submit(&mut self, request: Request) -> (ticket: Result<u64, EngineError>)
        ensures
            final(self)@ == old(self)@.submit(request.deep_view()),
            answers_submission(old(self)@, ticket),
            old(self)@.wf() ==> final(self)@.wf(),
    {
        if self.terminated {
            return Err(EngineError::EngineTerminated);
        }
        if self.submitted == u64::MAX {
            return Err(
                EngineError::EngineCallFailed("No ticket is left for another request".to_owned()),
            );
        }
        let ticket = self.submitted;
        let job = Job { ticket, request };
        self.queue.push_back(job);
        self.submitted = ticket + 1;
        proof {
            assert(self.queue.deep_view() =~= old(self).queue.deep_view().push(job.deep_view()));
            if old(self)@.wf() {
                step_preserves_wf(old(self)@, Event::Submit(request.deep_view()));
            }
        }
        Ok(ticket)
    }

    /// Submits the netlist `circuit`, given line by line.
    pub fn circuit(&mut self, circuit: Vec<String>) -> (ticket: Result<u64, EngineError>)
        ensures
            final(self)@ == old(self)@.submit(RequestView::Circuit(circuit.deep_view())),
            answers_submission(old(self)@, ticket),
            old(self)@.wf() ==> final(self)@.wf(),
    {
        self.submit(Request::Circuit(circuit))
    }

    /// Submits a query for the name of the current plot.
    pub fn current_plot_name(&mut self) -> (ticket: Result<u64, EngineError>)
        ensures
            final(self)@ == old(self)@.submit(RequestView::CurrentPlotName),
            answers_submission(old(self)@, ticket),
            old(self)@.wf() ==> final(self)@.wf(),
    {
        self.submit(Request::CurrentPlotName)
    }

    /// Submits a query for the names of all plots.
    pub fn all_plot_names(&mut self) -> (ticket: Result<u64, EngineError>)
        ensures
            final(self)@ == old(self)@.submit(RequestView::AllPlotNames),
            answers_submission(old(self)@, ticket),
            old(self)@.wf() ==> final(self)@.wf(),
    {
        self.submit(Request::AllPlotNames)
    }

    /// Submits a query for the names of all vectors of the plot `plot_name`.
    pub fn all_vector_names(&mut self, plot_name: String) -> (ticket: Result<u64, EngineError>)
        ensures
            final(self)@ == old(self)@.submit(RequestView::AllVectorNames(plot_name@)),
            answers_submission(old(self)@, ticket),
            old(self)@.wf() ==> final(self)@.wf(),
    {
        self.submit(Request::AllVectorNames(plot_name))
    }

    /// Submits a query for the samples of the vector `vector_name`.
    pub fn vector_info(&mut self, vector_name: String) -> (ticket: Result<u64, EngineError>)
        ensures
            final(self)@ == old(self)@.submit(RequestView::VectorInfo(vector_name@)),
            answers_submission(old(self)@, ticket),
            old(self)@.wf() ==> final(self)@.wf(),
    {
        self.submit(Request::VectorInfo(vector_name))
    }

    /// Submits the control command `command`.
    pub fn command(&mut self, command: String) -> (ticket: Result<u64, EngineError>)
        ensures
            final(self)@ == old(self)@.submit(RequestView::Command(command@)),
            answers_submission(old(self)@, ticket),
            old(self)@.wf() ==> final(self)@.wf(),
    {
        self.submit(Request::Command(command))
    }

    /// Called by the worker when it is free: tells it what to do next.
    ///
    /// The oldest queued job leaves the queue. It is handed out to be run
    /// unless the engine has asked to exit, in which case its ticket is
    /// handed out to be answered with `EngineTerminated`. While a job is
    /// running, no other is handed out to be run.
    pub fn next_job(&mut self) -> (work: Work)
        ensures
            work.deep_view() == old(self)@.work(),
            final(self)@ == old(self)@.take(),
            old(self)@.wf() ==> final(self)@.wf(),
    {
        proof {
            if old(self)@.wf() {
                step_preserves_wf(old(self)@, Event::Take);
            }
        }
        if self.queue.len() == 0 {
            return Work::Idle;
        }
        if self.terminated {
            let job = self.queue.pop_front();
            assert(self.queue.deep_view() =~= old(self).queue.deep_view().drop_first());
            return match job {
                Some(job) => Work::Abort(job.ticket),
                None => Work::Idle,
            };
        }
        if self.running.is_some() {
            return Work::Idle;
        }
        let job = self.queue.pop_front();
        assert(self.queue.deep_view() =~= old(self).queue.deep_view().drop_first());
        match job {
            Some(job) => {
                self.running = Some(job.ticket);
                Work::Run(job)
            },
            None => Work::Idle,
        }
    }

    /// Called by the worker when the engine has returned from the job with
    /// `ticket`. Says whether that job was the one running.
    pub fn finish(&mut self, ticket: u64) -> (was_running: bool)
        ensures
            was_running == (old(self)@.running == Some(ticket)),
            final(self)@ == old(self)@.finish(ticket),
            old(self)@.wf() ==> final(self)@.wf(),
    {
        match self.running {
            Some(running) => {
                if running == ticket {
                    self.running = None;
                    true
                } else {
                    false
                }
            },
            None => false,
        }
    }

    /// Called by the engine for each line it emits.
    pub fn send_char(&mut self, string: &str)
        ensures
            final(self)@ == old(self)@.emit(string@),
            old(self)@.wf() ==> final(self)@.wf(),
    {
        self.callbacks.send_char(string);
    }

    /// Called by the engine when it asks to exit. From now on the bridge is
    /// terminated.
    pub fn controlled_exit(&mut self, status: i32, unload: bool, quit: bool)
        ensures
            final(self)@ == old(self)@.exit((ExitRequest { status, unload, quit })),
            old(self)@.wf() ==> final(self)@.wf(),
    {
        self.callbacks.controlled_exit(status, unload, quit);
        self.terminated = true;
    }

    /// Hands the oldest uncollected line to the front end, if there is one.
    pub fn next_line(&mut self) -> (line: Option<String>)
        ensures
            final(self)@ == old(self)@.collect_line(),
            old(self)@.wf() ==> final(self)@.wf(),
            match line {
                Some(text) => old(self)@.lines.len() > 0 && text@ == old(self)@.lines[0],
                None => old(self)@.lines.len() == 0,
            },
    {
        self.callbacks.next_line()
    }

    /// Hands the oldest uncollected line to the front end, if there is one,
    /// sorted by the stream that its mark names and without that mark.
    pub fn next_output(&mut self) -> (line: Option<OutputLine>)
        ensures
            final(self)@ == old(self)@.collect_line(),
            old(self)@.wf() ==> final(self)@.wf(),
            match line {
                Some(sorted) => {
                    &&& old(self)@.lines.len() > 0
                    &&& sorted.stream == stream_of(old(self)@.lines[0])
                    &&& sorted.text@ == text_of(old(self)@.lines[0])
                },
                None => old(self)@.lines.len() == 0,
            },
    {
        match self.callbacks.next_line() {
            Some(text) => Some(OutputLine::parse(text.as_str())),
            None => None,
        }
    }

    /// Hands the oldest uncollected exit request to the front end, if there
    /// is one.
    pub fn next_exit(&mut self) -> (request: Option<ExitRequest>)
        ensures
            final(self)@ == old(self)@.collect_exit(),
            old(self)@.wf() ==> final(self)@.wf(),
            match request {
                Some(exit) => old(self)@.exits.len() > 0 && exit == old(self)@.exits[0],
                None => old(self)@.exits.len() == 0,
            },
    {
        self.callbacks.next_exit()
    }

    /// Whether the engine has asked to exit.
    pub fn is_terminated(&self) -> (terminated: bool)
        ensures
            terminated == self@.terminated,
    {
        self.terminated
    }

    /// Whether the worker holds a job.
    pub fn is_busy(&self) -> (busy: bool)
        ensures
            busy == (self@.running is Some),
    {
        self.running.is_some()
    }

    /// How many jobs wait in the queue.
    pub fn pending(&self) -> (count: usize)
        ensures
            count == self@.pending.len(),
    {
        self.queue.len()
    }
}

} // verus!
