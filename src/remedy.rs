use vstd::prelude::*;
use crate::report::GITLAB_SCOPE_ERROR;
use crate::text::{contains_text, occurs_in};

verus! {

/// Attempts made on one item before a transport failure becomes fatal.
pub const MAX_ATTEMPTS: usize = 3;

/// Explanation given when the remote side refuses a deletion for lack of scope.
pub const INSUFFICIENT_PRIVILEGES: &'static str =
    "Insufficient privileges: the access token needs the `api` scope and the maintainer role";

/// How one delete call against the remote system ended.
#[derive(Clone, Debug, PartialEq, Eq)]
pub enum DeleteOutcome {
    /// The item was deleted.
    Deleted,
    /// The remote API answered with a structured error message.
    Remote(String),
    /// A transport or client-level failure (reset, timeout, malformed answer).
    Transport(String),
    /// Any other failure.
    Other(String),
}

/// What a deletion batch asks for next.
#[derive(Clone, Debug, PartialEq, Eq)]
pub enum BatchStep {
    /// Send the delete call for the item at this index.
    Delete(usize),
    /// Every item was deleted.
    Done,
    /// The batch stopped for good on the item at `index`.
    Aborted { index: usize, message: String },
}

/// A sequential deletion of `total` items, in input order, that retries
/// transport failures and stops on the first fatal error.
///
/// The items at indices `0..deleted` are the ones deleted so far.
pub struct DeletionBatch {
    pub total: usize,
    pub deleted: usize,
    pub failed_attempts: usize,
    pub failure: Option<String>,
}

/// The abstract state of a batch.
pub struct BatchState {
    pub total: nat,
    pub deleted: nat,
    pub failed_attempts: nat,
    pub failure: Option<Seq<char>>,
}

/// The abstract form of an outcome.
pub enum OutcomeView {
    Deleted,
    Remote(Seq<char>),
    Transport(Seq<char>),
    Other(Seq<char>),
}

impl DeleteOutcome {
    pub open spec fn view(&self) -> OutcomeView {
        match self {
            DeleteOutcome::Deleted => OutcomeView::Deleted,
            DeleteOutcome::Remote(m) => OutcomeView::Remote(m@),
            DeleteOutcome::Transport(m) => OutcomeView::Transport(m@),
            DeleteOutcome::Other(m) => OutcomeView::Other(m@),
        }
    }
}

/// The explanation kept for a structured remote error.
pub open spec fn remote_failure(msg: Seq<char>) -> Seq<char> {
    if occurs_in(msg, GITLAB_SCOPE_ERROR@) {
        INSUFFICIENT_PRIVILEGES@
    } else {
        msg
    }
}

impl BatchState {
    pub open spec fn wf(self) -> bool {
        &&& self.deleted <= self.total
        &&& self.failed_attempts < MAX_ATTEMPTS
        &&& self.failure is Some ==> self.deleted < self.total
        &&& self.failure is Some ==> self.failed_attempts == 0
    }

    /// The batch still waits for an outcome of the current item.
    pub open spec fn running(self) -> bool {
        self.failure is None && self.deleted < self.total
    }

    /// The state after the outcome of a delete call on the current item.
    pub open spec fn after(self, outcome: OutcomeView) -> BatchState {
        match outcome {
            OutcomeView::Deleted => BatchState {
                deleted: self.deleted + 1,
                failed_attempts: 0,
                ..self
            },
            OutcomeView::Remote(m) => BatchState {
                failure: Some(remote_failure(m)),
                failed_attempts: 0,
                ..self
            },
            OutcomeView::Transport(m) => if self.failed_attempts + 1 >= MAX_ATTEMPTS {
                BatchState { failure: Some(m), failed_attempts: 0, ..self }
            } else {
                BatchState { failed_attempts: self.failed_attempts + 1, ..self }
            },
            OutcomeView::Other(m) => BatchState {
                failure: Some(m),
                failed_attempts: 0,
                ..self
            },
        }
    }

    /// Items settled so far: deleted, or failed for good.
    pub open spec fn settled(self) -> nat {
        if self.failure is Some {
            self.deleted + 1
        } else {
            self.deleted
        }
    }
}

/// Transport failures on the first two attempts at an item, then a success:
/// the item counts as deleted and the batch goes on.
pub proof fn lemma_retry_then_success(s: BatchState, m1: Seq<char>, m2: Seq<char>)
    requires
        s.wf(),
        s.running(),
        s.failed_attempts == 0,
    ensures
        s.after(OutcomeView::Transport(m1)).running(),
        s.after(OutcomeView::Transport(m1)).after(OutcomeView::Transport(m2)).running(),
        s.after(OutcomeView::Transport(m1)).after(OutcomeView::Transport(m2)).after(
            OutcomeView::Deleted,
        ) == (BatchState { deleted: s.deleted + 1, ..s }),
        s.after(OutcomeView::Transport(m1)).after(OutcomeView::Transport(m2)).after(
            OutcomeView::Deleted,
        ).wf(),
{
}

/// Transport failures on three attempts in a row at an item abort the batch
/// with the last failure, and the items deleted before stay counted.
pub proof fn lemma_three_transport_failures_abort(
    s: BatchState,
    m1: Seq<char>,
    m2: Seq<char>,
    m3: Seq<char>,
)
    requires
        s.wf(),
        s.running(),
        s.failed_attempts == 0,
    ensures
        ({
            let t = s.after(OutcomeView::Transport(m1)).after(OutcomeView::Transport(m2)).after(
                OutcomeView::Transport(m3),
            );
            &&& t.wf()
            &&& !t.running()
            &&& t.failure == Some(m3)
            &&& t.deleted == s.deleted
            &&& t.settled() == s.deleted + 1
        }),
{
}

/// A structured remote error that carries the scope-deficiency marker is
/// fatal at once, on any attempt, and is reported with the privileges
/// explanation.
pub proof fn lemma_scope_error_is_fatal(s: BatchState, m: Seq<char>)
    requires
        s.wf(),
        s.running(),
        occurs_in(m, GITLAB_SCOPE_ERROR@),
    ensures
        s.after(OutcomeView::Remote(m)).wf(),
        !s.after(OutcomeView::Remote(m)).running(),
        s.after(OutcomeView::Remote(m)).failure == Some(INSUFFICIENT_PRIVILEGES@),
        s.after(OutcomeView::Remote(m)).deleted == s.deleted,
{
}

/// Whatever a delete call returns, the items already deleted stay counted,
/// the batch stays well formed, and the progress figure grows by at most one.
pub proof fn lemma_progress_kept(s: BatchState, outcome: OutcomeView)
    requires
        s.wf(),
        s.running(),
    ensures
        s.after(outcome).wf(),
        s.after(outcome).total == s.total,
        s.after(outcome).deleted >= s.deleted,
        s.settled() <= s.after(outcome).settled() <= s.settled() + 1,
{
}

impl DeletionBatch {
    pub open spec fn view(&self) -> BatchState {
        BatchState {
            total: self.total as nat,
            deleted: self.deleted as nat,
            failed_attempts: self.failed_attempts as nat,
            failure: match self.failure {
                Some(m) => Some(m@),
                None => None,
            },
        }
    }

    pub open spec fn wf(&self) -> bool {
        self@.wf()
    }

    /// A batch over `total` items, none attempted yet.
    pub fn new(total: usize) -> (r: Self)
        ensures
            r.wf(),
            r@ == (BatchState { total: total as nat, deleted: 0, failed_attempts: 0, failure: None }),
    {
        DeletionBatch { total, deleted: 0, failed_attempts: 0, failure: None }
    }

    /// What the batch asks for next.
    pub fn next_step(&self) -> (r: BatchStep)
        requires
            self.wf(),
        ensures
            match r {
                BatchStep::Delete(i) => self@.running() && i == self.deleted,
                BatchStep::Done => self.failure is None && self.deleted == self.total,
                BatchStep::Aborted { index, message } => self.failure == Some(message)
                    && index == self.deleted,
            },
    {
        match &self.failure {
            Some(m) => BatchStep::Aborted { index: self.deleted, message: m.clone() },
            None => if self.deleted < self.total {
                BatchStep::Delete(self.deleted)
            } else {
                BatchStep::Done
            },
        }
    }

    /// Items settled so far, the progress figure of the batch.
    pub fn settled(&self) -> (r: usize)
        requires
            self.wf(),
        ensures
            r == self@.settled(),
    {
        if self.failure.is_some() {
            self.deleted + 1
        } else {
            self.deleted
        }
    }

    /// Takes in the outcome of the delete call on the current item.
    ///
    /// A structured remote error is fatal; when it names the scope
    /// deficiency, the explanation replaces it. A transport failure is
    /// retried until `MAX_ATTEMPTS` attempts failed in a row, and is then
    /// fatal. Any other failure is fatal at once.
    pub fn record(&mut self, outcome: DeleteOutcome)
        requires
            old(self).wf(),
            old(self)@.running(),
        ensures
            final(self).wf(),
            final(self)@ == old(self)@.after(outcome@),
    {
        match outcome {
            DeleteOutcome::Deleted => {
                self.deleted = self.deleted + 1;
                self.failed_attempts = 0;
            },
            DeleteOutcome::Remote(m) => {
                let scope = contains_text(m.as_str(), GITLAB_SCOPE_ERROR);
                if scope {
                    self.failure = Some(String::from_str(INSUFFICIENT_PRIVILEGES));
                } else {
                    self.failure = Some(m);
                }
                self.failed_attempts = 0;
            },
            DeleteOutcome::Transport(m) => {
                if self.failed_attempts + 1 >= MAX_ATTEMPTS {
                    self.failure = Some(m);
                    self.failed_attempts = 0;
                } else {
                    self.failed_attempts = self.failed_attempts + 1;
                }
            },
            DeleteOutcome::Other(m) => {
                self.failure = Some(m);
                self.failed_attempts = 0;
            },
        }
    }
}

} // verus!
