//! One poll of a list of hosts, step by step. The cycle says what is to be
//! done next: look a name up, open the probe, hand it an address, start it,
//! wait for a reply, release it. Whoever drives the cycle does that and
//! tells what came of it. So the order of the steps and the number of
//! replies that are waited for are decided here, and the lookups and the
//! probe are done elsewhere.

use crate::host::{
    batch_of, first_address, gaps, replies_view, status, statuses, submitted, Poll, PollError,
    Reply,
};
use crate::views::{places_view, strings_view};
use vstd::prelude::*;

verus! {

/// What is to be done next.
#[derive(Debug, PartialEq, Eq)]
pub enum Request {
    /// Look up the name of the host at this place.
    Resolve(usize),
    /// Open the probe, with this many milliseconds to wait for an answer.
    Open(u64),
    /// Hand this address to the probe.
    Submit(String),
    /// Start the probe.
    Run,
    /// Wait for the next reply.
    Await,
    /// Stop the probe and release what it holds.
    Close,
    /// Nothing more: take the states.
    Finish,
}

/// What came of the step that was asked for.
#[derive(Debug)]
pub enum Outcome {
    /// The answer to the lookup; `None` where it failed.
    Resolved(Option<Vec<String>>),
    /// The probe is open.
    Opened,
    /// The probe could not be opened.
    Refused,
    /// The address was handed to the probe.
    Submitted,
    /// The probe was started.
    Started,
    /// A reply came.
    Reply(Reply),
    /// The probe closed before a reply came.
    Closed,
    /// The probe was stopped and released.
    Released,
}

/// The probe, as the cycle knows it.
#[derive(Debug, Clone, Copy, PartialEq, Eq)]
pub enum Session {
    /// Nobody tried to open it yet.
    Unopened,
    /// It is open.
    Open,
    /// It could not be opened.
    Refused,
}

/// What is to be done next, over plain values.
pub enum Next {
    Resolve(nat),
    Open(u64),
    Submit(Seq<char>),
    Run,
    Await,
    Close,
    Finish,
}

/// A request over plain values.
pub open spec fn request_view(request: Request) -> Next {
    match request {
        Request::Resolve(i) => Next::Resolve(i as nat),
        Request::Open(timeout_ms) => Next::Open(timeout_ms),
        Request::Submit(addr) => Next::Submit(addr@),
        Request::Run => Next::Run,
        Request::Await => Next::Await,
        Request::Close => Next::Close,
        Request::Finish => Next::Finish,
    }
}

/// How far a cycle has come.
pub struct CycleState {
    /// The number of hosts.
    pub hosts: nat,
    /// The milliseconds that the probe waits for an answer.
    pub timeout_ms: u64,
    /// The answers to the lookups so far, in the order of the hosts.
    pub answers: Seq<Option<Vec<String>>>,
    /// Whether the probe is open.
    pub session: Session,
    /// How many addresses were handed to the probe.
    pub submitted: nat,
    /// Whether the probe was started.
    pub running: bool,
    /// The replies so far, in the order in which they came.
    pub replies: Seq<(Seq<char>, bool)>,
    /// Whether the probe closed early.
    pub closed: bool,
    /// Whether the probe was released.
    pub released: bool,
}

impl CycleState {
    /// A cycle for this many hosts, before its first step.
    pub open spec fn start(hosts: nat, timeout_ms: u64) -> CycleState {
        CycleState {
            hosts,
            timeout_ms,
            answers: Seq::empty(),
            session: Session::Unopened,
            submitted: 0,
            running: false,
            replies: Seq::empty(),
            closed: false,
            released: false,
        }
    }

    /// The addresses that are probed, as far as the names were looked up.
    pub open spec fn targets(self) -> Seq<Seq<char>> {
        submitted(batch_of(self.answers))
    }

    /// The probe could not be opened.
    pub open spec fn refused(self) -> bool {
        self.session is Refused
    }

    /// The steps were taken in their order: the probe is opened when every
    /// name was looked up, it is handed addresses only when it is open and
    /// started when it has them all, replies come only from a probe that
    /// was started, at most one for each address, and the probe is released
    /// only when no more reply is waited for.
    pub open spec fn wf(self) -> bool {
        &&& self.answers.len() <= self.hosts
        &&& self.submitted <= self.targets().len()
        &&& self.replies.len() <= self.targets().len()
        &&& (self.answers.len() < self.hosts ==> self.session is Unopened)
        &&& (!(self.session is Open) ==> self.submitted == 0 && !self.running)
        &&& (self.running ==> self.submitted == self.targets().len())
        &&& (!self.running ==> self.replies.len() == 0 && !self.closed && !self.released)
        &&& (self.released ==> self.closed || self.replies.len() == self.targets().len())
    }

    /// What is to be done next.
    pub open spec fn next(self) -> Next {
        if self.answers.len() < self.hosts {
            Next::Resolve(self.answers.len())
        } else if self.session is Unopened {
            Next::Open(self.timeout_ms)
        } else if self.refused() {
            Next::Finish
        } else if self.submitted < self.targets().len() {
            Next::Submit(self.targets()[self.submitted as int])
        } else if !self.running {
            Next::Run
        } else if !self.closed && self.replies.len() < self.targets().len() {
            Next::Await
        } else if !self.released {
            Next::Close
        } else {
            Next::Finish
        }
    }

    /// Whether `outcome` is an outcome of the step that is to be done next.
    pub open spec fn expects(self, outcome: Outcome) -> bool {
        match (self.next(), outcome) {
            (Next::Resolve(_), Outcome::Resolved(_)) => true,
            (Next::Open(_), Outcome::Opened) => true,
            (Next::Open(_), Outcome::Refused) => true,
            (Next::Submit(_), Outcome::Submitted) => true,
            (Next::Run, Outcome::Started) => true,
            (Next::Await, Outcome::Reply(_)) => true,
            (Next::Await, Outcome::Closed) => true,
            (Next::Close, Outcome::Released) => true,
            _ => false,
        }
    }

    /// The cycle after `outcome`. An outcome of another step than the one
    /// that is to be done next changes nothing.
    pub open spec fn after(self, outcome: Outcome) -> CycleState {
        if !self.expects(outcome) {
            self
        } else {
            match outcome {
                Outcome::Resolved(answer) => CycleState {
                    answers: self.answers.push(answer),
                    ..self
                },
                Outcome::Opened => CycleState { session: Session::Open, ..self },
                Outcome::Refused => CycleState { session: Session::Refused, ..self },
                Outcome::Submitted => CycleState { submitted: self.submitted + 1, ..self },
                Outcome::Started => CycleState { running: true, ..self },
                Outcome::Reply(reply) => CycleState { replies: self.replies.push(reply@), ..self },
                Outcome::Closed => CycleState { closed: true, ..self },
                Outcome::Released => CycleState { released: true, ..self },
            }
        }
    }

    /// The state of each host as far as it is known: a host whose name was
    /// not looked up yet or has no address is down, and so is one of whose
    /// address no reply speaks.
    pub open spec fn states(self) -> Seq<bool> {
        Seq::new(
            self.hosts,
            |i: int|
                if i < self.answers.len() {
                    status(first_address(self.answers[i]), self.replies)
                } else {
                    false
                },
        )
    }

    /// A bound on the number of steps that are still to be done.
    pub open spec fn fuel(self) -> nat {
        if self.refused() || self.released {
            0
        } else if self.closed {
            1
        } else {
            (1 + 3 * (self.hosts - self.answers.len()) + (if self.session is Unopened {
                1int
            } else {
                0int
            }) + (self.targets().len() - self.submitted) + (if self.running {
                0int
            } else {
                1int
            }) + (self.targets().len() - self.replies.len())) as nat
        }
    }
}

/// One poll of all hosts, step by step.
pub struct Cycle {
    hosts: usize,
    timeout_ms: u64,
    answers: Vec<Option<Vec<String>>>,
    targets: Vec<String>,
    session: Session,
    submitted: usize,
    running: bool,
    replies: Vec<Reply>,
    closed: bool,
    released: bool,
}

impl View for Cycle {
    type V = CycleState;

    closed spec fn view(&self) -> CycleState {
        CycleState {
            hosts: self.hosts as nat,
            timeout_ms: self.timeout_ms,
            answers: self.answers@,
            session: self.session,
            submitted: self.submitted as nat,
            running: self.running,
            replies: replies_view(self.replies@),
            closed: self.closed,
            released: self.released,
        }
    }
}

impl Cycle {
    /// The steps were taken in their order, and the addresses to probe are
    /// at hand once every name was looked up.
    pub closed spec fn wf(&self) -> bool {
        &&& self@.wf()
        &&& (self.answers.len() == self.hosts ==> strings_view(self.targets@) == self@.targets())
    }

    /// A cycle for this many hosts, before its first step. The probe will
    /// wait `timeout_ms` milliseconds for an answer.
    pub fn new(hosts: usize, timeout_ms: u64) -> (cycle: Cycle)
        ensures
            cycle.wf(),
            cycle@ == CycleState::start(hosts as nat, timeout_ms),
    {
        let cycle = Cycle {
            hosts,
            timeout_ms,
            answers: Vec::new(),
            targets: Vec::new(),
            session: Session::Unopened,
            submitted: 0,
            running: false,
            replies: Vec::new(),
            closed: false,
            released: false,
        };
        proof {
            assert(cycle@.replies =~= Seq::empty());
            assert(batch_of(cycle.answers@) =~= Seq::empty());
            assert(strings_view(cycle.targets@) =~= Seq::empty());
        }
        cycle
    }

    /// A cycle for a poll of all of this many hosts: the probe waits a
    /// second for an answer.
    pub fn sweep(hosts: usize) -> (cycle: Cycle)
        ensures
            cycle.wf(),
            cycle@ == CycleState::start(hosts as nat, 1000),
    {
        Cycle::new(hosts, Poll::SWEEP_TIMEOUT_MS)
    }

    /// A cycle for a poll of one host: the probe waits half a second for an
    /// answer.
    pub fn single() -> (cycle: Cycle)
        ensures
            cycle.wf(),
            cycle@ == CycleState::start(1, 500),
    {
        Cycle::new(1, Poll::SINGLE_TIMEOUT_MS)
    }

    /// What is to be done next.
    pub fn request(&self) -> (request: Request)
        requires
            self.wf(),
        ensures
            request_view(request) == self@.next(),
    {
        if self.answers.len() < self.hosts {
            Request::Resolve(self.answers.len())
        } else {
            match self.session {
                Session::Unopened => Request::Open(self.timeout_ms),
                Session::Refused => Request::Finish,
                Session::Open => {
                    if self.submitted < self.targets.len() {
                        Request::Submit(self.targets[self.submitted].clone())
                    } else if !self.running {
                        Request::Run
                    } else if !self.closed && self.replies.len() < self.targets.len() {
                        Request::Await
                    } else if !self.released {
                        Request::Close
                    } else {
                        Request::Finish
                    }
                },
            }
        }
    }

    /// Whether the probe is open.
    fn is_open(&self) -> (open: bool)
        ensures
            open == (self@.session is Open),
    {
        match self.session {
            Session::Open => true,
            _ => false,
        }
    }

    /// Whether the probe is still to be opened.
    fn is_unopened(&self) -> (unopened: bool)
        ensures
            unopened == (self@.session is Unopened),
    {
        match self.session {
            Session::Unopened => true,
            _ => false,
        }
    }

    /// Whether the probe is open and every address was handed to it.
    fn loaded(&self) -> (loaded: bool)
        requires
            self.wf(),
        ensures
            loaded == (self@.answers.len() == self@.hosts && self@.session is Open
                && self@.submitted == self@.targets().len()),
    {
        self.answers.len() == self.hosts && self.is_open() && self.submitted == self.targets.len()
    }

    /// Whether a reply is waited for.
    fn waiting(&self) -> (waiting: bool)
        requires
            self.wf(),
        ensures
            waiting == (self@.next() is Await),
    {
        let loaded = self.loaded();
        proof {
            if self@.answers.len() == self@.hosts {
                assert(strings_view(self.targets@).len() == self.targets.len());
            }
        }
        loaded && self.running && !self.closed && self.replies.len() < self.targets.len()
    }

    /// Takes in what came of a step. An outcome of another step than the one
    /// that is to be done next changes nothing.
    pub fn advance(&mut self, outcome: Outcome)
        requires
            old(self).wf(),
        ensures
            final(self).wf(),
            final(self)@ == old(self)@.after(outcome),
    {
        proof {
            lemma_step(self@, outcome);
            if self@.answers.len() == self@.hosts {
                assert(strings_view(self.targets@).len() == self.targets.len());
            }
        }
        match outcome {
            Outcome::Resolved(answer) => {
                if self.answers.len() < self.hosts {
                    self.answers.push(answer);
                    if self.answers.len() == self.hosts {
                        self.targets = Poll::new(&self.answers).targets();
                    }
                }
            },
            Outcome::Opened => {
                if self.answers.len() == self.hosts && self.is_unopened() {
                    self.session = Session::Open;
                }
            },
            Outcome::Refused => {
                if self.answers.len() == self.hosts && self.is_unopened() {
                    self.session = Session::Refused;
                }
            },
            Outcome::Submitted => {
                if self.answers.len() == self.hosts && self.is_open() && self.submitted
                    < self.targets.len() {
                    self.submitted = self.submitted + 1;
                }
            },
            Outcome::Started => {
                if self.loaded() && !self.running {
                    self.running = true;
                }
            },
            Outcome::Reply(reply) => {
                if self.waiting() {
                    let ghost before = replies_view(self.replies@);
                    self.replies.push(reply);
                    assert(replies_view(self.replies@) =~= before.push(reply@));
                }
            },
            Outcome::Closed => {
                if self.waiting() {
                    self.closed = true;
                }
            },
            Outcome::Released => {
                if self.loaded() && self.running && !self.waiting() && !self.released {
                    self.released = true;
                }
            },
        }
    }

    /// The answers to the lookups so far, in the order of the hosts.
    pub fn answers(&self) -> (answers: &Vec<Option<Vec<String>>>)
        ensures
            answers@ == self@.answers,
    {
        &self.answers
    }

    /// The replies so far, in the order in which they came.
    pub fn replies(&self) -> (replies: &Vec<Reply>)
        ensures
            replies_view(replies@) == self@.replies,
    {
        &self.replies
    }

    /// The state of each host, in the order of the hosts, as far as it is
    /// known. When nothing more is to be done these are the states of the
    /// poll.
    pub fn states(&self) -> (states: Vec<bool>)
        requires
            self.wf(),
        ensures
            states@ == self@.states(),
            states.len() == self@.hosts,
            self@.answers.len() == self@.hosts ==> states@ == statuses(
                batch_of(self@.answers),
                self@.replies,
            ),
    {
        let mut states = Poll::new(&self.answers).poll_all(&self.replies);
        while states.len() < self.hosts
            invariant
                self.answers.len() <= states.len() <= self.hosts,
                forall|i: int|
                    0 <= i < self.answers.len() ==> #[trigger] states[i] == status(
                        first_address(self.answers[i]),
                        replies_view(self.replies@),
                    ),
                forall|i: int| self.answers.len() <= i < states.len() ==> !#[trigger] states[i],
            decreases self.hosts - states.len(),
        {
            states.push(false);
        }
        assert(states@ =~= self@.states());
        assert(self@.answers.len() == self@.hosts ==> states@ =~= statuses(
            batch_of(self@.answers),
            self@.replies,
        ));
        states
    }

    /// The hosts that were probed, or are to be, and of whose address no
    /// reply speaks so far. When the probe closed early these are the hosts
    /// that are down for want of a reply.
    pub fn unanswered(&self) -> (places: Vec<usize>)
        requires
            self.wf(),
        ensures
            places_view(places@) == gaps(
                batch_of(self@.answers),
                self@.replies,
                self@.answers.len() as int,
            ),
    {
        Poll::new(&self.answers).unanswered(&self.replies)
    }

    /// What the poll gave: the state of each host, or the error where the
    /// probe could not be opened, in which case no state is known.
    pub fn result(&self) -> (result: Result<Vec<bool>, PollError>)
        requires
            self.wf(),
        ensures
            self@.refused() ==> result == Err::<Vec<bool>, PollError>(PollError::ProbeSession),
            !self@.refused() ==> result.is_ok() && result.unwrap()@ == self@.states(),
    {
        match self.session {
            Session::Refused => Err(PollError::ProbeSession),
            _ => Ok(self.states()),
        }
    }
}

/// One more answer gives at most one more address to probe, and leaves the
/// addresses before it as they were.
proof fn lemma_targets_grow(answers: Seq<Option<Vec<String>>>, answer: Option<Vec<String>>)
    ensures
        submitted(batch_of(answers.push(answer))) == match first_address(answer) {
            Some(addr) => submitted(batch_of(answers)).push(addr),
            None => submitted(batch_of(answers)),
        },
{
    let longer = batch_of(answers.push(answer));
    assert(longer =~= batch_of(answers).push(first_address(answer)));
    assert(longer.drop_last() =~= batch_of(answers));
}

/// Every outcome leaves the steps in their order; an outcome of the step
/// that was to be done next brings the cycle nearer to its end.
pub proof fn lemma_step(s: CycleState, outcome: Outcome)
    requires
        s.wf(),
    ensures
        s.after(outcome).wf(),
        s.after(outcome).hosts == s.hosts,
        s.expects(outcome) ==> s.after(outcome).fuel() < s.fuel(),
        !s.expects(outcome) ==> s.after(outcome) == s,
{
    match outcome {
        Outcome::Resolved(answer) => {
            lemma_targets_grow(s.answers, answer);
        },
        _ => {},
    }
}

/// A cycle for `hosts` hosts needs at most `3 * hosts + 3` steps. When
/// nothing more is to be done, every name was looked up; and then either the
/// probe could not be opened, or every address that was found was handed to
/// it, it was started, a reply came for each address unless it closed
/// early, and it was released.
pub proof fn lemma_finish(s: CycleState)
    requires
        s.wf(),
    ensures
        CycleState::start(s.hosts, s.timeout_ms).wf(),
        CycleState::start(s.hosts, s.timeout_ms).fuel() == 3 * s.hosts + 3,
        (s.next() is Finish) <==> s.fuel() == 0,
        s.next() is Finish ==> {
            &&& s.answers.len() == s.hosts
            &&& s.states() == statuses(batch_of(s.answers), s.replies)
            &&& (s.refused() || {
                &&& s.submitted == s.targets().len()
                &&& s.running
                &&& s.released
                &&& (s.closed || s.replies.len() == s.targets().len())
            })
        },
{
    let start = CycleState::start(s.hosts, s.timeout_ms);
    assert(batch_of(start.answers) =~= Seq::empty());
    if s.next() is Finish {
        assert(s.states() =~= statuses(batch_of(s.answers), s.replies));
    }
}

} // verus!
