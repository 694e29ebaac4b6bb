//! Waiting for a write to become visible.
//!
//! The ledger is eventually consistent: a read that follows a write may not
//! show it yet. A caller that needs to see the account before it goes on
//! polls for it, a bounded number of times at a fixed interval.

use crate::ledger::{AccountResponse, AccountResponseView};
use crate::protocol::{
    PipelineError, PipelineErrorView, Reply, ReplyView, Request, RequestView, Step, StepView,
};
use vstd::prelude::*;

verus! {

/// Reads made before the wait gives up, unless told otherwise.
pub const MAX_ATTEMPTS: u32 = 10;

/// Seconds between two reads, unless told otherwise.
pub const INTERVAL_SECS: u64 = 2;

/// Where a wait stands between two replies.
#[derive(Debug, PartialEq, Eq, Clone, Copy, Structural)]
pub enum WaitStage {
    /// The account is being read.
    Polling,
    /// The interval is passing.
    Sleeping,
}

/// One wait for the account `account_id`. `attempts` counts the reads that
/// showed nothing and whose interval has passed.
#[derive(Debug, PartialEq, Eq)]
pub struct WaitForAccount {
    pub account_id: String,
    pub max_attempts: u32,
    pub interval_secs: u64,
    pub attempts: u32,
    pub stage: WaitStage,
}

/// Mathematical value of a [`WaitForAccount`].
pub struct WaitForAccountView {
    pub account_id: Seq<char>,
    pub max_attempts: u32,
    pub interval_secs: u64,
    pub attempts: u32,
    pub stage: WaitStage,
}

impl View for WaitForAccount {
    type V = WaitForAccountView;

    open spec fn view(&self) -> WaitForAccountView {
        WaitForAccountView {
            account_id: self.account_id@,
            max_attempts: self.max_attempts,
            interval_secs: self.interval_secs,
            attempts: self.attempts,
            stage: self.stage,
        }
    }
}

impl WaitForAccountView {
    /// A wait at its first read.
    pub open spec fn first(account_id: Seq<char>, max_attempts: u32, interval_secs: u64) -> Self {
        WaitForAccountView {
            account_id,
            max_attempts,
            interval_secs,
            attempts: 0,
            stage: WaitStage::Polling,
        }
    }

    /// How a wait begins: with its first read where it is allowed one, and
    /// with `Timeout` where it is allowed none.
    pub open spec fn start(account_id: Seq<char>, max_attempts: u32, interval_secs: u64) -> StepView<
        WaitForAccountView,
        (),
    > {
        let first = Self::first(account_id, max_attempts, interval_secs);
        if max_attempts > 0 {
            StepView::Continue(first, first.read())
        } else {
            first.timed_out()
        }
    }

    /// The same wait at another stage.
    pub open spec fn at(self, stage: WaitStage) -> Self {
        WaitForAccountView { stage, ..self }
    }

    /// The read that a polling wait has outstanding.
    pub open spec fn read(self) -> RequestView {
        RequestView::GetAccount { id: self.account_id }
    }

    /// How the wait ends when its reads are used up.
    pub open spec fn timed_out(self) -> StepView<WaitForAccountView, ()> {
        StepView::Finished(Err(PipelineErrorView::Timeout(self.account_id)))
    }
}

/// What a wait does with a reply. It reads while reads are left; a read
/// that shows the account ends it with success, one that shows nothing is
/// followed by the interval, and when the interval after the last read has
/// passed it ends with `Timeout`.
pub open spec fn wait_for_account_model(run: WaitForAccountView, reply: ReplyView) -> StepView<
    WaitForAccountView,
    (),
> {
    match (run.stage, reply) {
        (
            WaitStage::Polling,
            ReplyView::Account(AccountResponseView::Found(_)),
        ) => StepView::Finished(Ok(())),
        (WaitStage::Polling, ReplyView::Account(AccountResponseView::NotFound)) => StepView::Continue(
            run.at(WaitStage::Sleeping),
            RequestView::Sleep { secs: run.interval_secs },
        ),
        (WaitStage::Polling, ReplyView::Failed(reason)) => StepView::Finished(
            Err(PipelineErrorView::LedgerReadError(reason)),
        ),
        (WaitStage::Sleeping, ReplyView::Woke) => if run.attempts + 1 < run.max_attempts {
            StepView::Continue(
                WaitForAccountView {
                    attempts: (run.attempts + 1) as u32,
                    stage: WaitStage::Polling,
                    ..run
                },
                run.read(),
            )
        } else {
            run.timed_out()
        },
        _ => StepView::Finished(Err(PipelineErrorView::UnexpectedReply)),
    }
}

impl WaitForAccount {
    /// Begins a wait of at most ten reads, two seconds apart. The run that
    /// comes back is taken further by [`wait_for_account`], with the reply
    /// to the request beside it.
    pub fn start(account_id: String) -> (begun: (WaitForAccount, Request))
        ensures
            StepView::<WaitForAccountView, ()>::Continue(begun.0@, begun.1@)
                == WaitForAccountView::start(account_id@, MAX_ATTEMPTS, INTERVAL_SECS),
    {
        let id = account_id.clone();
        (
            WaitForAccount {
                account_id,
                max_attempts: MAX_ATTEMPTS,
                interval_secs: INTERVAL_SECS,
                attempts: 0,
                stage: WaitStage::Polling,
            },
            Request::GetAccount { id },
        )
    }

    /// Begins a wait of at most `max_attempts` reads, `interval_secs`
    /// seconds apart.
    pub fn with_limits(account_id: String, max_attempts: u32, interval_secs: u64) -> (step: Step<
        WaitForAccount,
        (),
    >)
        ensures
            step@ == WaitForAccountView::start(account_id@, max_attempts, interval_secs),
    {
        if max_attempts > 0 {
            let id = account_id.clone();
            Step::Continue(
                WaitForAccount {
                    account_id,
                    max_attempts,
                    interval_secs,
                    attempts: 0,
                    stage: WaitStage::Polling,
                },
                Request::GetAccount { id },
            )
        } else {
            Step::Finished(Err(PipelineError::Timeout(account_id)))
        }
    }
}

/// Takes a wait one reply further.
pub fn wait_for_account(run: WaitForAccount, reply: Reply) -> (step: Step<WaitForAccount, ()>)
    ensures
        step@ == wait_for_account_model(run@, reply@),
{
    let WaitForAccount { account_id, max_attempts, interval_secs, attempts, stage } = run;
    match stage {
        WaitStage::Polling => match reply {
            Reply::Account(AccountResponse::Found(_)) => Step::Finished(Ok(())),
            Reply::Account(AccountResponse::NotFound) => Step::Continue(
                WaitForAccount {
                    account_id,
                    max_attempts,
                    interval_secs,
                    attempts,
                    stage: WaitStage::Sleeping,
                },
                Request::Sleep { secs: interval_secs },
            ),
            Reply::Failed(reason) => Step::Finished(Err(PipelineError::LedgerReadError(reason))),
            _ => Step::Finished(Err(PipelineError::UnexpectedReply)),
        },
        WaitStage::Sleeping => match reply {
            Reply::Woke => {
                if attempts < max_attempts && attempts + 1 < max_attempts {
                    let id = account_id.clone();
                    Step::Continue(
                        WaitForAccount {
                            account_id,
                            max_attempts,
                            interval_secs,
                            attempts: attempts + 1,
                            stage: WaitStage::Polling,
                        },
                        Request::GetAccount { id },
                    )
                } else {
                    Step::Finished(Err(PipelineError::Timeout(account_id)))
                }
            },
            _ => Step::Finished(Err(PipelineError::UnexpectedReply)),
        },
    }
}

/// What has come of a wait whose every read showed nothing.
pub struct Unseen {
    /// Reads made.
    pub reads: nat,
    /// Seconds slept in all.
    pub slept_secs: nat,
    /// How the wait ended.
    pub end: StepView<WaitForAccountView, ()>,
}

/// A polling wait taken to its end through reads that all show nothing,
/// each followed by its interval; `reads` and `slept_secs` are what was
/// counted before.
pub open spec fn run_unseen(run: WaitForAccountView, reads: nat, slept_secs: nat) -> Unseen
    decreases run.max_attempts - run.attempts,
{
    let slept = wait_for_account_model(run, ReplyView::Account(AccountResponseView::NotFound));
    match slept {
        StepView::Continue(sleeping, RequestView::Sleep { secs }) => {
            let woken = wait_for_account_model(sleeping, ReplyView::Woke);
            match woken {
                StepView::Continue(polling, _) => if polling.stage == WaitStage::Polling
                    && polling.max_attempts - polling.attempts < run.max_attempts - run.attempts {
                    run_unseen(polling, reads + 1, slept_secs + secs as nat)
                } else {
                    Unseen { reads: reads + 1, slept_secs: slept_secs + secs as nat, end: woken }
                },
                StepView::Finished(_) => Unseen {
                    reads: reads + 1,
                    slept_secs: slept_secs + secs as nat,
                    end: woken,
                },
            }
        },
        _ => Unseen { reads, slept_secs, end: slept },
    }
}

/// A wait that never sees the account reads as often as it was allowed,
/// sleeps the interval after every read, and then ends with `Timeout`.
pub proof fn lemma_unseen_times_out(run: WaitForAccountView, reads: nat, slept_secs: nat)
    requires
        run.stage == WaitStage::Polling,
        run.attempts < run.max_attempts,
    ensures
        run_unseen(run, reads, slept_secs).end == run.timed_out(),
        run_unseen(run, reads, slept_secs).reads == reads + (run.max_attempts - run.attempts),
        run_unseen(run, reads, slept_secs).slept_secs == slept_secs + (run.max_attempts
            - run.attempts) * run.interval_secs,
    decreases run.max_attempts - run.attempts,
{
    let left: int = run.max_attempts - run.attempts;
    let interval: int = run.interval_secs as int;
    if run.attempts + 1 < run.max_attempts {
        let polling = WaitForAccountView {
            attempts: (run.attempts + 1) as u32,
            stage: WaitStage::Polling,
            ..run
        };
        lemma_unseen_times_out(polling, reads + 1, slept_secs + run.interval_secs as nat);
        assert((left - 1) * interval + interval == left * interval) by (nonlinear_arith);
    } else {
        assert(left == 1);
        assert(left * interval == interval) by (nonlinear_arith)
            requires
                left == 1,
        ;
    }
}

/// A wait that is allowed at least one read and never sees the account
/// makes `max_attempts` reads, sleeps `max_attempts` intervals and ends with
/// `Timeout`.
pub proof fn lemma_wait_bounded(account_id: Seq<char>, max_attempts: u32, interval_secs: u64)
    requires
        max_attempts > 0,
    ensures
        ({
            let first = WaitForAccountView::first(account_id, max_attempts, interval_secs);
            &&& WaitForAccountView::start(account_id, max_attempts, interval_secs)
                == StepView::<WaitForAccountView, ()>::Continue(first, first.read())
            &&& run_unseen(first, 0, 0) == Unseen {
                reads: max_attempts as nat,
                slept_secs: (max_attempts * interval_secs) as nat,
                end: first.timed_out(),
            }
        }),
{
    lemma_unseen_times_out(
        WaitForAccountView::first(account_id, max_attempts, interval_secs),
        0,
        0,
    );
}

} // verus!
