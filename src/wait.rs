use vstd::prelude::*;
use crate::error::{ErrorView, ValyuError};
use crate::invoke::{text_of, text_or};
use crate::text::{decimal, u64_to_decimal};
use crate::types::DeepResearchStatus;

verus! {

/// What the waiter does after one poll of a task's status.
#[derive(Debug)]
pub enum WaitStep {
    /// The task completed: return the snapshot just polled.
    Finish,
    /// Stop waiting with this error.
    Fail(ValyuError),
    /// Sleep for the poll interval, then poll again.
    Sleep,
}

/// A waiter step, with its error as a view.
pub ghost enum StepView {
    Finish,
    Fail(ErrorView),
    Sleep,
}

impl View for WaitStep {
    type V = StepView;

    open spec fn view(&self) -> StepView {
        match self {
            WaitStep::Finish => StepView::Finish,
            WaitStep::Fail(e) => StepView::Fail(e@),
            WaitStep::Sleep => StepView::Sleep,
        }
    }
}

/// Nanoseconds in a second.
pub const NANOS_PER_SEC: u128 = 1_000_000_000;

/// The error that ends a wait longer than `max_wait_secs`.
pub open spec fn timeout_error(max_wait_secs: nat) -> ErrorView {
    ErrorView::ApiError("Maximum wait time of "@ + decimal(max_wait_secs) + " seconds exceeded"@)
}

/// The waiter's decision on a polled status and error text, `elapsed_nanos`
/// after the wait began, for a wait of at most `max_wait_secs`.
pub open spec fn wait_decision(
    status: Option<DeepResearchStatus>,
    error: Option<Seq<char>>,
    elapsed_nanos: nat,
    max_wait_secs: nat,
) -> StepView {
    match status {
        Some(DeepResearchStatus::Completed) => StepView::Finish,
        Some(DeepResearchStatus::Failed) => StepView::Fail(
            ErrorView::ApiError(text_or(error, "Task failed"@)),
        ),
        Some(DeepResearchStatus::Cancelled) => StepView::Fail(
            ErrorView::ApiError("Task was cancelled"@),
        ),
        _ => if elapsed_nanos > max_wait_secs * NANOS_PER_SEC {
            StepView::Fail(timeout_error(max_wait_secs))
        } else {
            StepView::Sleep
        },
    }
}

/// Decides what the waiter does after a poll that saw `status` and `error`,
/// `elapsed_nanos` after the wait began.
pub fn wait_step(
    status: &Option<DeepResearchStatus>,
    error: &Option<String>,
    elapsed_nanos: u128,
    max_wait_secs: u64,
) -> (r: WaitStep)
    ensures
        r@ == wait_decision(*status, text_of(*error), elapsed_nanos as nat, max_wait_secs as nat),
{
    match status {
        Some(DeepResearchStatus::Completed) => WaitStep::Finish,
        Some(DeepResearchStatus::Failed) => {
            let msg = match error {
                Some(e) => e.clone(),
                None => String::from_str("Task failed"),
            };
            WaitStep::Fail(ValyuError::ApiError(msg))
        },
        Some(DeepResearchStatus::Cancelled) => WaitStep::Fail(
            ValyuError::ApiError(String::from_str("Task was cancelled")),
        ),
        _ => {
            if elapsed_nanos > (max_wait_secs as u128) * NANOS_PER_SEC {
                let msg = String::from_str("Maximum wait time of ").concat(
                    u64_to_decimal(max_wait_secs).as_str(),
                ).concat(" seconds exceeded");
                WaitStep::Fail(ValyuError::ApiError(msg))
            } else {
                WaitStep::Sleep
            }
        },
    }
}

/// Whether a status lets the waiter go on polling.
pub open spec fn is_pending(status: Option<DeepResearchStatus>) -> bool {
    match status {
        Some(DeepResearchStatus::Completed) => false,
        Some(DeepResearchStatus::Failed) => false,
        Some(DeepResearchStatus::Cancelled) => false,
        _ => true,
    }
}

/// The waiter run over the polls `obs` (status and error text of each), from
/// poll `k` on, when each sleep lasts `interval` seconds and a poll takes no
/// time: the index of the poll that ends the wait and the decision there, or
/// `None` if the polls run out first.
pub open spec fn wait_run(
    obs: Seq<(Option<DeepResearchStatus>, Option<Seq<char>>)>,
    interval: nat,
    max_wait_secs: nat,
    k: nat,
) -> Option<(nat, StepView)>
    decreases obs.len() - k,
{
    if k >= obs.len() {
        None
    } else {
        let d = wait_decision(obs[k as int].0, obs[k as int].1, (k * interval * NANOS_PER_SEC) as nat, max_wait_secs);
        if d is Sleep {
            wait_run(obs, interval, max_wait_secs, k + 1)
        } else {
            Some((k, d))
        }
    }
}

proof fn lemma_elapsed_exceeds(k: nat, interval: nat, max_wait_secs: nat)
    ensures
        (k * interval * NANOS_PER_SEC > max_wait_secs * NANOS_PER_SEC) <==> (k * interval > max_wait_secs),
{
    assert((k * interval * NANOS_PER_SEC > max_wait_secs * NANOS_PER_SEC) <==> (k * interval > max_wait_secs)) by (nonlinear_arith);
}

/// A poll that sees a failed task ends the wait at once, with the task's
/// error text or a default one.
pub proof fn failed_task_stops_at_once(
    obs: Seq<(Option<DeepResearchStatus>, Option<Seq<char>>)>,
    interval: nat,
    max_wait_secs: nat,
)
    requires
        obs.len() > 0,
        obs[0].0 == Some(DeepResearchStatus::Failed),
    ensures
        wait_run(obs, interval, max_wait_secs, 0) == Some(
            (0nat, StepView::Fail(ErrorView::ApiError(text_or(obs[0].1, "Task failed"@)))),
        ),
{
}

proof fn lemma_pending_runs_until(
    obs: Seq<(Option<DeepResearchStatus>, Option<Seq<char>>)>,
    interval: nat,
    max_wait_secs: nat,
    k: nat,
    stop: nat,
    d: StepView,
)
    requires
        k <= stop < obs.len(),
        forall|i: int| k <= i < stop ==> is_pending(#[trigger] obs[i].0),
        forall|i: nat| k <= i < stop ==> #[trigger] (i * interval) <= max_wait_secs,
        wait_decision(
            obs[stop as int].0,
            obs[stop as int].1,
            (stop * interval * NANOS_PER_SEC) as nat,
            max_wait_secs,
        ) == d,
        !(d is Sleep),
    ensures
        wait_run(obs, interval, max_wait_secs, k) == Some((stop, d)),
    decreases stop - k,
{
    if k < stop {
        lemma_elapsed_exceeds(k, interval, max_wait_secs);
        assert(k * interval <= max_wait_secs);
        lemma_pending_runs_until(obs, interval, max_wait_secs, k + 1, stop, d);
    }
}

/// When every poll sees a task still pending and the wait is shorter than
/// the sleeps between the first and the last poll, the wait ends with the
/// timeout error at the first poll made after more than `max_wait_secs`.
pub proof fn pending_task_times_out(
    obs: Seq<(Option<DeepResearchStatus>, Option<Seq<char>>)>,
    interval: nat,
    max_wait_secs: nat,
)
    requires
        forall|i: int| 0 <= i < obs.len() ==> is_pending(#[trigger] obs[i].0),
        obs.len() > 0,
        max_wait_secs < interval * (obs.len() - 1),
    ensures
        interval > 0,
        wait_run(obs, interval, max_wait_secs, 0) == Some(
            ((max_wait_secs / interval + 1) as nat, StepView::Fail(timeout_error(max_wait_secs))),
        ),
{
    let n: int = obs.len() - 1;
    assert(interval > 0) by (nonlinear_arith)
        requires
            max_wait_secs < interval * n,
            n >= 0,
    ;
    let q: nat = max_wait_secs / interval;
    let stop: nat = q + 1;
    assert(q * interval <= max_wait_secs && stop * interval > max_wait_secs) by (nonlinear_arith)
        requires
            interval > 0,
            q == max_wait_secs / interval,
            stop == q + 1,
    ;
    assert(stop < obs.len()) by (nonlinear_arith)
        requires
            q * interval <= max_wait_secs,
            max_wait_secs < interval * n,
            interval > 0,
            stop == q + 1,
            n == obs.len() - 1,
    ;
    assert forall|i: nat| 0 <= i < stop implies #[trigger] (i * interval) <= max_wait_secs by {
        assert(i * interval <= q * interval) by (nonlinear_arith)
            requires
                i <= q,
        ;
    }
    lemma_elapsed_exceeds(stop, interval, max_wait_secs);
    lemma_pending_runs_until(
        obs,
        interval,
        max_wait_secs,
        0,
        stop,
        StepView::Fail(timeout_error(max_wait_secs)),
    );
}

/// A task that is pending at polls `0..n` and completed at poll `n` is
/// returned at poll `n`, after exactly `n` sleeps, when the wait has not run
/// out by the last pending poll.
pub proof fn completed_task_returned_after_sleeps(
    obs: Seq<(Option<DeepResearchStatus>, Option<Seq<char>>)>,
    interval: nat,
    max_wait_secs: nat,
    n: nat,
)
    requires
        n < obs.len(),
        forall|i: int| 0 <= i < n ==> is_pending(#[trigger] obs[i].0),
        obs[n as int].0 == Some(DeepResearchStatus::Completed),
        n == 0 || (n - 1) * interval <= max_wait_secs,
    ensures
        wait_run(obs, interval, max_wait_secs, 0) == Some((n, StepView::Finish)),
{
    assert forall|i: nat| 0 <= i < n implies #[trigger] (i * interval) <= max_wait_secs by {
        assert(i * interval <= (n - 1) * interval) by (nonlinear_arith)
            requires
                i <= n - 1,
        ;
    }
    lemma_pending_runs_until(obs, interval, max_wait_secs, 0, n, StepView::Finish);
}

} // verus!
