//! One job attempt from the post to the end of its stream, as a state
//! machine: it says what is to be done next, and takes what came of it.

use crate::error::{ClientError, Stage};
use crate::event::StreamEvent;
use crate::listener::{event_view, Arrival, Listener, ListenerState, Signal, Termination};
use crate::report::{error_of, stream_error, JobOutcome};
use vstd::prelude::*;

verus! {

/// What the owner of the connections is to do next.
#[derive(Clone, Copy, Debug, PartialEq, Eq, Structural)]
pub enum Action {
    /// Post the body to the submission endpoint, once.
    Post,
    /// Open the event stream.
    Connect,
    /// Wait for the next frame of the stream.
    Read,
    /// Nothing more: the attempt is over.
    Stop,
}

/// What came of an action.
#[derive(Clone, Debug, PartialEq, Eq)]
pub enum Report {
    /// The post went through. What the service answered does not count.
    Sent,
    /// The post did not go through.
    NotSent,
    /// Something arrived from the stream, or failed to.
    Stream(Arrival),
}

/// What came of an action, as the state machine sees it.
pub enum JobSignal {
    Sent,
    NotSent,
    Stream(Signal),
}

impl Report {
    /// The signal that this report is to the state machine.
    pub open spec fn signal(&self) -> JobSignal {
        match self {
            Report::Sent => JobSignal::Sent,
            Report::NotSent => JobSignal::NotSent,
            Report::Stream(arrival) => JobSignal::Stream(arrival.signal()),
        }
    }
}

/// Where a job attempt stands.
#[derive(Clone, Copy, Debug, PartialEq, Eq)]
pub enum Job {
    /// The job has not been posted yet.
    Submitting,
    /// The post did not go through, and the attempt is over.
    NotSent,
    /// The job was posted, and this listener follows it.
    Following(Listener),
}

impl Job {
    /// A job that was posted is followed by a well-formed listener.
    pub open spec fn wf(self) -> bool {
        self matches Job::Following(listener) ==> listener.wf()
    }

    /// What is to be done next.
    pub open spec fn action_spec(self) -> Action {
        match self {
            Job::Submitting => Action::Post,
            Job::NotSent => Action::Stop,
            Job::Following(listener) => match listener.state {
                ListenerState::Connecting => Action::Connect,
                ListenerState::Streaming => Action::Read,
                ListenerState::Terminated(_) => Action::Stop,
                ListenerState::Failed(_) => Action::Stop,
            },
        }
    }

    /// How the attempt ended: `None` while it is under way.
    pub open spec fn outcome_spec(self) -> Option<JobOutcome> {
        match self {
            Job::Submitting => None,
            Job::NotSent => Some(Err((Stage::Submit, ClientError::Submission))),
            Job::Following(listener) => match listener.outcome_spec() {
                None => None,
                Some(Ok(reason)) => Some(Ok(reason)),
                Some(Err(failure)) => Some(Err((Stage::Stream, error_of(failure)))),
            },
        }
    }

    /// The job after one report. A report that answers no action of the
    /// state in which it comes changes nothing.
    pub open spec fn next(self, signal: JobSignal) -> Job {
        match self {
            Job::Submitting => match signal {
                JobSignal::Sent => Job::Following(
                    Listener { state: ListenerState::Connecting, queue_remaining: None },
                ),
                JobSignal::NotSent => Job::NotSent,
                JobSignal::Stream(_) => self,
            },
            Job::NotSent => self,
            Job::Following(listener) => match signal {
                JobSignal::Stream(inner) => Job::Following(listener.next(inner)),
                _ => self,
            },
        }
    }

    /// The event that the job hands on for one report.
    pub open spec fn emits(self, signal: JobSignal) -> Option<crate::event::StreamEventView> {
        match (self, signal) {
            (Job::Following(listener), JobSignal::Stream(inner)) => listener.emits(inner),
            _ => None,
        }
    }

    /// The job after a run of reports, taken in order.
    pub open spec fn run(self, signals: Seq<JobSignal>) -> Job
        decreases signals.len(),
    {
        if signals.len() == 0 {
            self
        } else {
            self.next(signals.first()).run(signals.drop_first())
        }
    }

    /// A job that is about to be posted.
    pub fn new() -> (job: Job)
        ensures
            job == Job::Submitting,
            job.wf(),
    {
        Job::Submitting
    }

    /// What is to be done next.
    pub fn action(&self) -> (action: Action)
        ensures
            action == self.action_spec(),
            action == Action::Stop <==> self.outcome_spec() is Some,
    {
        match self {
            Job::Submitting => Action::Post,
            Job::NotSent => Action::Stop,
            Job::Following(listener) => match listener.state {
                ListenerState::Connecting => Action::Connect,
                ListenerState::Streaming => Action::Read,
                ListenerState::Terminated(_) => Action::Stop,
                ListenerState::Failed(_) => Action::Stop,
            },
        }
    }

    /// How the attempt ended: `None` while it is under way.
    pub fn outcome(&self) -> (outcome: Option<JobOutcome>)
        ensures
            outcome == self.outcome_spec(),
    {
        match self {
            Job::Submitting => None,
            Job::NotSent => Some(Err((Stage::Submit, ClientError::Submission))),
            Job::Following(listener) => match listener.outcome() {
                None => None,
                Some(Ok(reason)) => Some(Ok(reason)),
                Some(Err(failure)) => Some(Err((Stage::Stream, stream_error(failure)))),
            },
        }
    }

    /// Takes the report of what came of the last action. Returns the event
    /// to hand on, if there is one.
    pub fn advance(&mut self, report: &Report) -> (emitted: Option<StreamEvent>)
        ensures
            *final(self) == old(self).next(report.signal()),
            event_view(emitted) == old(self).emits(report.signal()),
            old(self).wf() ==> final(self).wf(),
    {
        match self {
            Job::Submitting => {
                match report {
                    Report::Sent => {
                        *self = Job::Following(Listener::new());
                    },
                    Report::NotSent => {
                        *self = Job::NotSent;
                    },
                    Report::Stream(_) => {},
                }
                None
            },
            Job::NotSent => None,
            Job::Following(listener) => match report {
                Report::Stream(arrival) => listener.receive(arrival),
                _ => None,
            },
        }
    }
}

/// A run of stream signals as reports to a job.
pub open spec fn stream_signals(signals: Seq<Signal>) -> Seq<JobSignal> {
    Seq::new(signals.len(), |i: int| JobSignal::Stream(signals[i]))
}

impl Job {
    /// A job whose post did not go through is over at once: nothing that is
    /// reported later changes it, the stream is never opened, and the
    /// attempt counts as failed in the submit stage.
    pub proof fn lemma_unsent_job_is_over(signals: Seq<JobSignal>)
        ensures
            Job::Submitting.next(JobSignal::NotSent) == Job::NotSent,
            Job::NotSent.run(signals) == Job::NotSent,
            Job::NotSent.action_spec() == Action::Stop,
            Job::NotSent.outcome_spec() == Some(
                Err::<Termination, (Stage, ClientError)>((Stage::Submit, ClientError::Submission)),
            ),
        decreases signals.len(),
    {
        if signals.len() > 0 {
            Job::lemma_unsent_job_is_over(signals.drop_first());
        }
    }

    /// Once the job is posted, it goes where its listener goes: what holds of
    /// a listener's run holds of the job that follows it.
    pub proof fn lemma_job_follows_listener(listener: Listener, signals: Seq<Signal>)
        ensures
            Job::Submitting.next(JobSignal::Sent).action_spec() == Action::Connect,
            Job::Following(listener).run(stream_signals(signals)) == Job::Following(
                listener.run(signals),
            ),
        decreases signals.len(),
    {
        if signals.len() > 0 {
            Job::lemma_job_follows_listener(listener.next(signals.first()), signals.drop_first());
            assert(stream_signals(signals).drop_first() =~= stream_signals(signals.drop_first()));
        }
    }

    /// The attempt is over exactly when there is nothing more to do, and it
    /// ends well only by a listener that terminated.
    pub proof fn lemma_stop_means_outcome(self)
        ensures
            self.action_spec() == Action::Stop <==> self.outcome_spec() is Some,
            self.outcome_spec() matches Some(Ok(reason)) ==> self matches Job::Following(listener)
                && listener.state == ListenerState::Terminated(reason),
    {
    }
}

} // verus!
