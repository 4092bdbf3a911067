use vstd::prelude::*;

use crate::errors::{FailReason, LocateError};
use crate::locate::RecordPair;

verus! {

/// Run-wide configuration, fixed for the whole disbursement run.
#[derive(Clone, Copy, Debug, PartialEq, Eq, Structural)]
pub struct Config {
    /// Microcredits transferred to each recipient.
    pub amount: u64,
    /// Microcredits paid as the fee of each transfer.
    pub fee: u64,
    /// Submission attempts allowed per recipient before the run aborts.
    pub max_retry_count: u64,
    /// Pacing delay, in milliseconds, after each successful submission.
    pub delay_ms: u64,
}

impl Config {
    /// At least one submission attempt must be allowed per recipient; with a
    /// budget of zero the retry loop would never reach its terminal count.
    pub open spec fn wf(self) -> bool {
        self.max_retry_count >= 1
    }
}

/// Where the machine stands for the current recipient. `R` is whatever the
/// ledger client hands out as a spendable record; the machine only carries
/// such values, it never looks inside them.
pub enum Phase<R> {
    /// About to invoke the record locator for the current recipient.
    Selecting,
    /// Holding the fixed record pair; submitting with a bounded retry count.
    /// `failures` counts the submissions that have failed for this recipient.
    Attempting { pair: RecordPair<R>, failures: u64 },
    /// The submission succeeded; one pacing delay is owed before advancing.
    Pacing,
    /// Every recipient was processed: normal completion.
    Complete,
    /// A fatal error: the whole run halts, later recipients are not touched.
    Failed { reason: FailReason },
}

/// What the driver must do next, as decided by the machine. The driver
/// performs the outside work (ledger queries, the transfer, the sleep) and
/// reports back through the `on_*` methods.
#[derive(Clone, Copy, Debug, PartialEq, Eq, Structural)]
pub enum Action {
    /// Run the record locator for the recipient at this index.
    Locate { recipient: usize },
    /// Submit a private transfer to the recipient at this index, spending the
    /// record pair held by the machine.
    Submit { recipient: usize },
    /// Sleep this many milliseconds (pacing after a successful submission).
    SleepMs { millis: u64 },
    /// The recipient list is exhausted: stop normally.
    Finished,
    /// A fatal error occurred: stop, reporting the failure.
    Aborted,
}

/// The disbursement loop as a state machine: one recipient at a time, record
/// selection exactly once per recipient, then bounded blind retries of the
/// submission with the same pair, a single pacing delay after each success,
/// and a halt of the whole run on the first fatal error.
pub struct Dispenser<R> {
    pub cfg: Config,
    /// How many recipients the run serves; the driver owns their addresses.
    pub n_recipients: usize,
    /// Index of the recipient currently being served (recipients are served
    /// strictly in list order).
    pub cursor: usize,
    pub phase: Phase<R>,
}

impl<R> Dispenser<R> {
    /// Well-formedness, established by `new` and preserved by every step.
    pub open spec fn inv(self) -> bool {
        &&& self.cfg.wf()
        &&& self.cursor <= self.n_recipients
        &&& (self.phase is Selecting || self.phase is Attempting || self.phase is Pacing)
            ==> self.cursor < self.n_recipients
        &&& (self.phase matches Phase::Attempting { failures, .. } ==> failures
            < self.cfg.max_retry_count)
        &&& (self.phase is Complete ==> self.cursor == self.n_recipients)
    }

    /// A halted machine: it accepts no further event and its action is final.
    pub open spec fn is_terminal(self) -> bool {
        self.phase is Complete || self.phase is Failed
    }

    /// The state after the locator's outcome arrives: a pair starts the
    /// attempt loop with a fresh counter; any locator error is fatal.
    /// Outside the selecting phase the event changes nothing.
    pub open spec fn after_located(self, outcome: Result<RecordPair<R>, LocateError>) -> Dispenser<
        R,
    > {
        if self.phase is Selecting {
            match outcome {
                Ok(pair) => Dispenser { phase: Phase::Attempting { pair, failures: 0 }, ..self },
                Err(e) => Dispenser { phase: Phase::Failed { reason: FailReason::Locate(e) }, ..self },
            }
        } else {
            self
        }
    }

    /// The state after a submission outcome arrives: success moves to pacing;
    /// a failure bumps the counter and, when the counter reaches the budget,
    /// halts the run. Outside the attempting phase the event changes nothing.
    pub open spec fn after_submitted(self, succeeded: bool) -> Dispenser<R> {
        match self.phase {
            Phase::Attempting { pair, failures } => {
                if succeeded {
                    Dispenser { phase: Phase::Pacing, ..self }
                } else if failures + 1 == self.cfg.max_retry_count {
                    Dispenser {
                        phase: Phase::Failed { reason: FailReason::RetriesExhausted },
                        ..self
                    }
                } else {
                    Dispenser {
                        phase: Phase::Attempting { pair, failures: (failures + 1) as u64 },
                        ..self
                    }
                }
            },
            _ => self,
        }
    }

    /// The state after the pacing delay: the cursor advances, and the machine
    /// either selects records for the next recipient or completes. Outside
    /// the pacing phase the event changes nothing.
    pub open spec fn after_slept(self) -> Dispenser<R> {
        if self.phase is Pacing {
            let c = (self.cursor + 1) as usize;
            Dispenser {
                cursor: c,
                phase: if c == self.n_recipients {
                    Phase::Complete
                } else {
                    Phase::Selecting
                },
                ..self
            }
        } else {
            self
        }
    }

    /// A fresh machine at the head of the recipient list. An empty list
    /// completes at once, as a loop over no recipients would.
    pub fn new(cfg: Config, n_recipients: usize) -> (d: Dispenser<R>)
        requires
            cfg.wf(),
        ensures
            d.inv(),
            d.cfg == cfg,
            d.n_recipients == n_recipients,
            d.cursor == 0,
            n_recipients > 0 ==> d.phase is Selecting,
            n_recipients == 0 ==> d.phase is Complete,
    {
        Dispenser {
            cfg,
            n_recipients,
            cursor: 0,
            phase: if n_recipients == 0 {
                Phase::Complete
            } else {
                Phase::Selecting
            },
        }
    }

    /// What the driver must do next, read off the current phase. The one
    /// action that sleeps is the pacing one, and it sleeps `delay_ms`.
    pub fn next_action(&self) -> (a: Action)
        ensures
            self.phase is Selecting ==> a == (Action::Locate { recipient: self.cursor }),
            self.phase is Attempting ==> a == (Action::Submit { recipient: self.cursor }),
            self.phase is Pacing ==> a == (Action::SleepMs { millis: self.cfg.delay_ms }),
            self.phase is Complete ==> a == Action::Finished,
            self.phase is Failed ==> a == Action::Aborted,
    {
        match &self.phase {
            Phase::Selecting => Action::Locate { recipient: self.cursor },
            Phase::Attempting { .. } => Action::Submit { recipient: self.cursor },
            Phase::Pacing => Action::SleepMs { millis: self.cfg.delay_ms },
            Phase::Complete => Action::Finished,
            Phase::Failed { .. } => Action::Aborted,
        }
    }

    /// The record pair held for the current recipient, readable while the
    /// machine is attempting; every retry submits exactly this pair.
    pub fn current_pair(&self) -> (p: &RecordPair<R>)
        requires
            self.phase is Attempting,
        ensures
            *p == self.phase->Attempting_pair,
    {
        match &self.phase {
            Phase::Attempting { pair, .. } => pair,
            _ => vstd::pervasive::unreached(),
        }
    }

    /// The reason the run halted, readable once it has failed.
    pub fn fail_reason(&self) -> (r: FailReason)
        requires
            self.phase is Failed,
        ensures
            r == self.phase->Failed_reason,
    {
        match &self.phase {
            Phase::Failed { reason } => *reason,
            _ => vstd::pervasive::unreached(),
        }
    }

    /// Deliver the locator's outcome for the current recipient. Record
    /// selection happens exactly once per recipient: after this the machine
    /// never asks the locator again for this recipient, whatever the
    /// submissions do. A locator error aborts the whole run.
    pub fn on_located(&mut self, outcome: Result<RecordPair<R>, LocateError>)
        requires
            old(self).inv(),
            old(self).phase is Selecting,
        ensures
            final(self).inv(),
            *final(self) == old(self).after_located(outcome),
    {
        match outcome {
            Ok(pair) => {
                self.phase = Phase::Attempting { pair, failures: 0 };
            },
            Err(e) => {
                self.phase = Phase::Failed { reason: FailReason::Locate(e) };
            },
        }
    }

    /// Deliver one submission outcome. On success the machine owes exactly
    /// one pacing delay; on failure it retries at once with the same pair,
    /// unless the counter has reached the budget, which halts the run.
    pub fn on_submitted(&mut self, succeeded: bool)
        requires
            old(self).inv(),
            old(self).phase is Attempting,
        ensures
            final(self).inv(),
            *final(self) == old(self).after_submitted(succeeded),
            succeeded ==> final(self).phase is Pacing,
            !succeeded ==> !(final(self).phase is Pacing),
    {
        if succeeded {
            self.phase = Phase::Pacing;
        } else {
            let exhausted: bool;
            match &mut self.phase {
                Phase::Attempting { failures, .. } => {
                    *failures = *failures + 1;
                    exhausted = *failures == self.cfg.max_retry_count;
                },
                _ => {
                    exhausted = vstd::pervasive::unreached();
                },
            }
            if exhausted {
                self.phase = Phase::Failed { reason: FailReason::RetriesExhausted };
            }
        }
    }

    /// Acknowledge the pacing delay: the machine advances to the next
    /// recipient, or completes when the list is exhausted.
    pub fn on_slept(&mut self)
        requires
            old(self).inv(),
            old(self).phase is Pacing,
        ensures
            final(self).inv(),
            *final(self) == old(self).after_slept(),
            final(self).cursor == old(self).cursor + 1,
    {
        self.cursor = self.cursor + 1;
        self.phase = if self.cursor == self.n_recipients {
            Phase::Complete
        } else {
            Phase::Selecting
        };
    }
}

/// Law: every event preserves the machine's well-formedness, whatever the
/// outcome it carries.
pub proof fn lemma_steps_preserve_inv<R>(
    d: Dispenser<R>,
    outcome: Result<RecordPair<R>, LocateError>,
    succeeded: bool,
)
    requires
        d.inv(),
    ensures
        d.after_located(outcome).inv(),
        d.after_submitted(succeeded).inv(),
        d.after_slept().inv(),
{
}

/// Law: the retry counter never exceeds the budget. In every well-formed
/// state the counter is strictly below `max_retry_count`, and it stays so
/// across a submission outcome: the step that would reach the budget halts
/// the machine instead of keeping a counter at the budget.
pub proof fn lemma_retry_counter_bounded<R>(d: Dispenser<R>, succeeded: bool)
    requires
        d.inv(),
    ensures
        d.phase matches Phase::Attempting { failures, .. } ==> failures < d.cfg.max_retry_count,
        d.after_submitted(succeeded).phase matches Phase::Attempting { failures, .. } ==> failures
            < d.cfg.max_retry_count,
{
}

/// Law: exhausting the retry budget halts the whole run. When the failure
/// that reaches the budget arrives, the machine becomes terminal with the
/// cursor still at the recipient that failed, and a terminal machine absorbs
/// every further event, so no later recipient is ever served.
pub proof fn lemma_exhausted_halts<R>(d: Dispenser<R>)
    requires
        d.inv(),
        d.phase is Attempting,
        d.phase->Attempting_failures + 1 == d.cfg.max_retry_count,
    ensures
        d.after_submitted(false).is_terminal(),
        d.after_submitted(false).phase == (Phase::<R>::Failed {
            reason: FailReason::RetriesExhausted,
        }),
        d.after_submitted(false).cursor == d.cursor,
{
}

/// Law: a terminal machine absorbs every event: once complete or failed,
/// nothing changes its state, so no further recipient is processed.
pub proof fn lemma_terminal_absorbs<R>(
    d: Dispenser<R>,
    outcome: Result<RecordPair<R>, LocateError>,
    succeeded: bool,
)
    requires
        d.is_terminal(),
    ensures
        d.after_located(outcome) == d,
        d.after_submitted(succeeded) == d,
        d.after_slept() == d,
{
}

/// Law: pacing follows success and only success. A successful submission
/// puts the machine in the pacing phase, whose single exit advances the
/// cursor by one; a failed submission never enters the pacing phase, so
/// retries run with no delay between them.
pub proof fn lemma_pacing_policy<R>(d: Dispenser<R>)
    requires
        d.inv(),
        d.phase is Attempting,
    ensures
        d.after_submitted(true).phase is Pacing,
        d.after_submitted(true).after_slept().cursor == d.cursor + 1,
        !(d.after_submitted(false).phase is Pacing),
{
}

/// Law: a retry resubmits exactly the records that were selected, and never
/// re-triggers a record search. A failed submission that does not exhaust
/// the budget keeps the pair unchanged and bumps the counter by one; in no
/// case does a failure put the machine back in the selecting phase, so the
/// locator runs exactly once per recipient.
pub proof fn lemma_same_records_on_retry<R>(d: Dispenser<R>)
    requires
        d.inv(),
        d.phase is Attempting,
    ensures
        d.after_submitted(false).phase matches Phase::Attempting { pair, failures } ==> pair
            == d.phase->Attempting_pair && failures == d.phase->Attempting_failures + 1,
        !(d.after_submitted(false).phase is Selecting),
{
}

/// Law: the retry counter never carries over from one recipient to the next:
/// whenever the locator's answer starts an attempt loop, the counter starts
/// at zero.
pub proof fn lemma_counter_resets_per_recipient<R>(
    d: Dispenser<R>,
    outcome: Result<RecordPair<R>, LocateError>,
)
    requires
        d.inv(),
        d.phase is Selecting,
    ensures
        d.after_located(outcome).phase matches Phase::Attempting { failures, .. } ==> failures
            == 0,
{
}

} // verus!
