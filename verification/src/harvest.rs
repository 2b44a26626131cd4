//! The harvesting plan: which tasks a label group yields, the exact command
//! and output file of each task, the reconciliation of log-store instances
//! against the live cluster snapshot, and the bounded retry rule every task
//! runs under.
//!
//! Running the tasks — threads, the pool, the remote channel — is the
//! caller's concern; every decision they act on is computed here.

use vstd::prelude::*;
use vstd::string::*;

use crate::config::LokiConfig;
use crate::errors::HarvestError;
use crate::k8s::{pod_names_with_prefix, PodRecord};
use crate::query::{batch_text, build_head, forward_text, from_text, head_text, limit_text,
    query_text, raw_text, selector_pair_text, selector_text, to_text, LokiQueryBuilder};
use crate::text::{has_prefix, names_with_prefix, str_eq};
use crate::time::{format_timestamp, ts_text, TimeFormat, Timestamp};
use crate::QUERY_LIMIT;

verus! {

/// How many attempts a task gets before its failure is fatal.
pub const DEFAULT_RETRY_BUDGET: u8 = 3;

/// Seconds waited between a failed attempt and the next one.
pub const BACKOFF_SECS: u64 = 1;

/// The batch size every harvest query pages with.
pub const QUERY_BATCH: u16 = 5000;

/// Holding exactly the names absent from `live`.
pub open spec fn absent_from(live: Seq<Seq<char>>) -> spec_fn(Seq<char>) -> bool {
    |p: Seq<char>| !live.contains(p)
}

/// The dead pods: instances the log store has seen whose name is not in the
/// live snapshot, in log-store order.
pub open spec fn dead_pods_of(logged: Seq<Seq<char>>, live: Seq<Seq<char>>) -> Seq<Seq<char>> {
    logged.filter(absent_from(live))
}

/// Whether `needle` occurs among `names`.
fn contains_name(names: &Vec<String>, needle: &str) -> (r: bool)
    ensures
        r == names.deep_view().contains(needle@),
{
    let mut i: usize = 0;
    while i < names.len()
        invariant
            i <= names.len(),
            forall|k: int| 0 <= k < i ==> names.deep_view()[k] != needle@,
        decreases names.len() - i,
    {
        if str_eq(names[i].as_str(), needle) {
            proof {
                assert(names.deep_view()[i as int] == needle@);
            }
            return true;
        }
        i += 1;
    }
    false
}

/// Computes the dead-pod set: every logged instance absent from the live
/// snapshot, in logged order. Dead pods are reported for visibility only;
/// no task is scheduled for them.
pub fn dead_pods(logged: &Vec<String>, live: &Vec<String>) -> (r: Vec<String>)
    ensures
        r.deep_view() == dead_pods_of(logged.deep_view(), live.deep_view()),
{
    let ghost all = logged.deep_view();
    let ghost pred = absent_from(live.deep_view());
    let mut result: Vec<String> = Vec::new();
    proof {
        reveal(Seq::filter);
        assert(all.take(0) =~= Seq::<Seq<char>>::empty());
        assert(result.deep_view() =~= all.take(0).filter(pred));
    }
    let mut i: usize = 0;
    while i < logged.len()
        invariant
            i <= logged.len(),
            all == logged.deep_view(),
            all.len() == logged@.len(),
            pred == absent_from(live.deep_view()),
            result.deep_view() == all.take(i as int).filter(pred),
        decreases logged.len() - i,
    {
        let ghost prev = result.deep_view();
        let name = &logged[i];
        let is_dead = !contains_name(live, name.as_str());
        if is_dead {
            result.push(name.clone());
            proof {
                assert(result.deep_view() =~= prev.push(name@));
            }
        }
        proof {
            reveal(Seq::filter);
            assert(all.take(i as int + 1).drop_last() =~= all.take(i as int));
            assert(all.take(i as int + 1).last() == all[i as int]);
            assert(all[i as int] == name@);
            assert(pred(all[i as int]) == is_dead);
            assert(result.deep_view() =~= all.take(i as int + 1).filter(pred));
        }
        i += 1;
    }
    proof {
        assert(all.take(logged@.len() as int) =~= all);
    }
    result
}

/// The name of the file one target's lines are written to:
/// `<target>-<from>__<to>.log`, timestamps in the filesystem-safe format.
pub open spec fn log_file_name_text(target: Seq<char>, from: Timestamp, to: Timestamp) -> Seq<
    char,
> {
    target + "-"@ + ts_text(from, TimeFormat::FileName) + "__"@ + ts_text(to, TimeFormat::FileName)
        + ".log"@
}

/// Renders the output file name of one target.
pub fn log_file_name(target: &str, from: &Timestamp, to: &Timestamp) -> (r: String)
    requires
        from.wf(),
        to.wf(),
    ensures
        r@ == log_file_name_text(target@, *from, *to),
{
    let mut s = target.to_owned();
    s.append("-");
    let f = format_timestamp(from, TimeFormat::FileName);
    s.append(f.as_str());
    s.append("__");
    let t = format_timestamp(to, TimeFormat::FileName);
    s.append(t.as_str());
    s.append(".log");
    proof {
        assert(s@ =~= log_file_name_text(target@, *from, *to));
    }
    s
}

/// The full destination of an output file under the destination directory.
pub fn dest_path(path: &str, file: &str) -> (r: String)
    ensures
        r@ == path@ + "/"@ + file@,
{
    let mut s = path.to_owned();
    s.append("/");
    s.append(file);
    proof {
        assert(s@ =~= path@ + "/"@ + file@);
    }
    s
}

/// One scheduled unit of work: the target it collects for, the label the
/// selector matches on, the exact remote command, and the output file name.
#[derive(Debug, Clone)]
pub struct HarvestTask {
    pub target: String,
    pub label_name: String,
    pub command: String,
    pub file_name: String,
}

/// The fragments of every harvest query, in order: the selector, then batch
/// size, time window, forward order, line limit and raw output.
pub open spec fn standard_fragments(c: LokiConfig, selector: Seq<char>) -> Seq<Seq<char>>
    recommends
        c.log_from is Some,
        c.log_to is Some,
{
    seq![
        selector,
        batch_text(QUERY_BATCH as nat),
        from_text(c.log_from->0, TimeFormat::Protocol),
        to_text(c.log_to->0, TimeFormat::Protocol),
        forward_text(),
        limit_text(QUERY_LIMIT as nat),
        raw_text(),
    ]
}

/// The full harvest command for the given selector clause.
pub open spec fn harvest_command_text(c: LokiConfig, selector: Seq<char>) -> Seq<char> {
    query_text(c, standard_fragments(c, selector))
}

/// Whether the configured time window allows harvesting: both bounds must be
/// present and renderable. Harvesting without one is a fatal precondition
/// failure, never a silent no-op.
pub open spec fn window_wf(c: LokiConfig) -> bool {
    &&& c.log_from matches Some(f) && f.wf()
    &&& c.log_to matches Some(t) && t.wf()
}

/// Checks the harvest precondition on the time window: both bounds present
/// and renderable. A missing or unrenderable bound is a configuration error,
/// never a silent no-op.
pub fn ensure_window(loki: &LokiConfig) -> (r: Result<(), HarvestError>)
    ensures
        r is Ok <==> window_wf(*loki),
        r matches Err(e) ==> e == HarvestError::Configuration,
{
    let from_ok = match &loki.log_from {
        Some(f) => f.is_wf(),
        None => false,
    };
    let to_ok = match &loki.log_to {
        Some(t) => t.is_wf(),
        None => false,
    };
    if from_ok && to_ok {
        Ok(())
    } else {
        Err(HarvestError::Configuration)
    }
}

/// The task harvesting one service or unit name as a whole, without pod
/// attribution: a single-predicate selector on `label_name="svc_name"`.
pub fn plan_without_pods(loki: &LokiConfig, svc_name: &str, label_name: &str) -> (r: HarvestTask)
    requires
        window_wf(*loki),
    ensures
        r.target@ == svc_name@,
        r.label_name@ == label_name@,
        r.command@ == harvest_command_text(*loki, selector_text(label_name@, svc_name@)),
        r.file_name@ == log_file_name_text(svc_name@, loki.log_from->0, loki.log_to->0),
{
    let command = LokiQueryBuilder::new(TimeFormat::Protocol, loki).add_query(
        label_name,
        svc_name,
        None,
        None,
    ).add_batch(QUERY_BATCH).add_from().add_to().add_forward().add_limit(QUERY_LIMIT).add_raw();
    proof {
        assert(command.fragments() =~= standard_fragments(
            *loki,
            selector_text(label_name@, svc_name@),
        ));
    }
    let command = command.get_query();
    let from = loki.log_from.unwrap();
    let to = loki.log_to.unwrap();
    let file_name = log_file_name(svc_name, &from, &to);
    HarvestTask {
        target: svc_name.to_owned(),
        label_name: label_name.to_owned(),
        command,
        file_name,
    }
}

/// The task harvesting one live pod of a service: the selector conjoins the
/// service predicate with `instance="pod"`, and the output file is named
/// after the pod.
pub fn plan_pod(loki: &LokiConfig, svc_name: &str, label_name: &str, pod: &str) -> (r: HarvestTask)
    requires
        window_wf(*loki),
    ensures
        r.target@ == pod@,
        r.label_name@ == label_name@,
        r.command@ == harvest_command_text(
            *loki,
            selector_pair_text(label_name@, svc_name@, "instance"@, pod@),
        ),
        r.file_name@ == log_file_name_text(pod@, loki.log_from->0, loki.log_to->0),
{
    let command = LokiQueryBuilder::new(TimeFormat::Protocol, loki).add_query(
        label_name,
        svc_name,
        Some("instance"),
        Some(pod),
    ).add_batch(QUERY_BATCH).add_from().add_to().add_forward().add_limit(QUERY_LIMIT).add_raw();
    proof {
        assert(command.fragments() =~= standard_fragments(
            *loki,
            selector_pair_text(label_name@, svc_name@, "instance"@, pod@),
        ));
    }
    let command = command.get_query();
    let from = loki.log_from.unwrap();
    let to = loki.log_to.unwrap();
    let file_name = log_file_name(pod, &from, &to);
    HarvestTask {
        target: pod.to_owned(),
        label_name: label_name.to_owned(),
        command,
        file_name,
    }
}

/// The pod-aware plan of one service: one task per live matching pod, and
/// the dead pods reported alongside.
pub struct PodAwarePlan {
    pub tasks: Vec<HarvestTask>,
    pub dead_pods: Vec<String>,
}

/// Plans pod-aware harvesting of one service: filters the logged instances
/// and the cluster snapshot to the service's name prefix, schedules one task
/// per live pod, and reports the logged instances that are no longer live.
pub fn plan_with_pods(
    loki: &LokiConfig,
    svc_name: &str,
    label_name: &str,
    logged_instances: &Vec<String>,
    cluster_pods: &Vec<PodRecord>,
) -> (r: PodAwarePlan)
    requires
        window_wf(*loki),
    ensures
        ({
            let live = pod_names_with_prefix(cluster_pods.deep_view(), svc_name@);
            let logged = logged_instances.deep_view().filter(has_prefix(svc_name@));
            &&& r.tasks@.len() == live.len()
            &&& forall|i: int|
                0 <= i < live.len() ==> {
                    &&& (#[trigger] r.tasks@[i]).target@ == live[i]
                    &&& r.tasks@[i].label_name@ == label_name@
                    &&& r.tasks@[i].command@ == harvest_command_text(
                        *loki,
                        selector_pair_text(label_name@, svc_name@, "instance"@, live[i]),
                    )
                    &&& r.tasks@[i].file_name@ == log_file_name_text(
                        live[i],
                        loki.log_from->0,
                        loki.log_to->0,
                    )
                }
            &&& r.dead_pods.deep_view() == dead_pods_of(logged, live)
        }),
{
    let logged = names_with_prefix(logged_instances, svc_name);
    let live = crate::k8s::filter_pod_names(cluster_pods, svc_name);
    let dead = dead_pods(&logged, &live);
    let ghost live_names = live.deep_view();
    let mut tasks: Vec<HarvestTask> = Vec::new();
    let mut i: usize = 0;
    while i < live.len()
        invariant
            i <= live.len(),
            live_names == live.deep_view(),
            live_names.len() == live@.len(),
            window_wf(*loki),
            tasks@.len() == i,
            forall|k: int|
                0 <= k < i ==> {
                    &&& (#[trigger] tasks@[k]).target@ == live_names[k]
                    &&& tasks@[k].label_name@ == label_name@
                    &&& tasks@[k].command@ == harvest_command_text(
                        *loki,
                        selector_pair_text(label_name@, svc_name@, "instance"@, live_names[k]),
                    )
                    &&& tasks@[k].file_name@ == log_file_name_text(
                        live_names[k],
                        loki.log_from->0,
                        loki.log_to->0,
                    )
                },
        decreases live.len() - i,
    {
        let task = plan_pod(loki, svc_name, label_name, live[i].as_str());
        tasks.push(task);
        i += 1;
    }
    PodAwarePlan { tasks, dead_pods: dead }
}

/// Every element a filter keeps was in the filtered sequence.
proof fn lemma_filter_subset<A>(s: Seq<A>, pred: spec_fn(A) -> bool, x: A)
    requires
        s.filter(pred).contains(x),
    ensures
        s.contains(x),
    decreases s.len(),
{
    reveal(Seq::filter);
    if s.len() > 0 {
        if pred(s.last()) && x == s.last() {
            assert(s[s.len() - 1] == x);
        } else {
            lemma_filter_subset(s.drop_last(), pred, x);
            let i = choose|i: int| 0 <= i < s.drop_last().len() && s.drop_last()[i] == x;
            assert(s[i] == x);
        }
    }
}

/// Reconciliation law: a pod name is reported dead exactly when the log
/// store has seen it and the live snapshot no longer holds it. (That one
/// task is scheduled per live pod is the contract of `plan_with_pods`.)
pub proof fn lemma_reconciliation(logged: Seq<Seq<char>>, live: Seq<Seq<char>>, p: Seq<char>)
    ensures
        dead_pods_of(logged, live).contains(p) <==> logged.contains(p) && !live.contains(p),
{
    let pred = absent_from(live);
    #[allow(deprecated)]
    logged.filter_lemma(pred);
    if dead_pods_of(logged, live).contains(p) {
        lemma_filter_subset(logged, pred, p);
        let i = choose|i: int|
            0 <= i < dead_pods_of(logged, live).len() && dead_pods_of(logged, live)[i] == p;
        assert(pred(dead_pods_of(logged, live)[i]));
    }
    if logged.contains(p) && !live.contains(p) {
        let i = choose|i: int| 0 <= i < logged.len() && logged[i] == p;
        assert(pred(logged[i]));
        assert(dead_pods_of(logged, live).contains(logged[i]));
    }
}

/// One harvest task's lifecycle: `Pending` to `Running`, then `Succeeded`,
/// or `RetryScheduled` back to `Running`, or — once the budget is spent —
/// `Exhausted`, which is fatal to the whole run.
#[derive(Debug, Clone, Copy, PartialEq, Eq, Structural)]
pub enum TaskState {
    Pending { tries_left: u8 },
    Running { tries_left: u8 },
    RetryScheduled { tries_left: u8 },
    Succeeded,
    Exhausted,
}

/// What a task's runner must do next.
#[derive(Debug, Clone, Copy, PartialEq, Eq, Structural)]
pub enum TaskAction {
    /// Run the task's command now.
    Execute,
    /// Wait the backoff interval, then ask again.
    Backoff,
    /// The task is done.
    Finish,
    /// The budget is spent: the whole harvest run fails.
    AbortRun,
}

impl TaskState {
    /// A fresh task with the given attempt budget.
    pub fn start(budget: u8) -> (r: TaskState)
        ensures
            r == (TaskState::Pending { tries_left: budget }),
    {
        TaskState::Pending { tries_left: budget }
    }

    pub open spec fn spec_begin_attempt(self) -> (TaskState, TaskAction)
        recommends
            self is Pending,
    {
        if self->Pending_tries_left == 0 {
            (TaskState::Exhausted, TaskAction::AbortRun)
        } else {
            (TaskState::Running { tries_left: self->Pending_tries_left }, TaskAction::Execute)
        }
    }

    /// A pending task either starts its next attempt, or — with no tries
    /// left — exhausts, fatally.
    pub fn begin_attempt(self) -> (r: (TaskState, TaskAction))
        requires
            self is Pending,
        ensures
            r == self.spec_begin_attempt(),
    {
        match self {
            TaskState::Pending { tries_left } => {
                if tries_left == 0 {
                    (TaskState::Exhausted, TaskAction::AbortRun)
                } else {
                    (TaskState::Running { tries_left }, TaskAction::Execute)
                }
            },
            _ => {
                proof {
                    assert(false);
                }
                (TaskState::Exhausted, TaskAction::AbortRun)
            },
        }
    }

    pub open spec fn spec_finish_attempt(self, succeeded: bool) -> (TaskState, TaskAction)
        recommends
            self is Running,
            self->Running_tries_left > 0,
    {
        if succeeded {
            (TaskState::Succeeded, TaskAction::Finish)
        } else {
            (
                TaskState::RetryScheduled {
                    tries_left: (self->Running_tries_left - 1) as u8,
                },
                TaskAction::Backoff,
            )
        }
    }

    /// A running attempt either succeeds the task, or spends one try and
    /// schedules a retry after the backoff interval.
    pub fn finish_attempt(self, succeeded: bool) -> (r: (TaskState, TaskAction))
        requires
            self is Running,
            self->Running_tries_left > 0,
        ensures
            r == self.spec_finish_attempt(succeeded),
    {
        match self {
            TaskState::Running { tries_left } => {
                if succeeded {
                    (TaskState::Succeeded, TaskAction::Finish)
                } else {
                    (TaskState::RetryScheduled { tries_left: tries_left - 1 }, TaskAction::Backoff)
                }
            },
            _ => {
                proof {
                    assert(false);
                }
                (TaskState::Exhausted, TaskAction::AbortRun)
            },
        }
    }

    /// After the backoff wait, a scheduled retry is pending again.
    pub fn after_backoff(self) -> (r: TaskState)
        requires
            self is RetryScheduled,
        ensures
            r == (TaskState::Pending { tries_left: self->RetryScheduled_tries_left }),
    {
        match self {
            TaskState::RetryScheduled { tries_left } => TaskState::Pending { tries_left },
            _ => {
                proof {
                    assert(false);
                }
                TaskState::Exhausted
            },
        }
    }
}

/// How many attempts a task makes, given its budget and the outcome each
/// attempt would have: it stops at the first success and never starts an
/// attempt without a try left.
pub open spec fn attempts_used(budget: nat, outcomes: Seq<bool>) -> nat
    decreases budget,
{
    if budget == 0 || outcomes.len() == 0 {
        0
    } else if outcomes[0] {
        1
    } else {
        1 + attempts_used((budget - 1) as nat, outcomes.drop_first())
    }
}

/// Whether a task succeeds within its budget, given the outcome each attempt
/// would have.
pub open spec fn run_succeeds(budget: nat, outcomes: Seq<bool>) -> bool
    decreases budget,
{
    budget > 0 && outcomes.len() > 0 && (outcomes[0] || run_succeeds(
        (budget - 1) as nat,
        outcomes.drop_first(),
    ))
}

/// Replays one task through its state machine against a given sequence of
/// attempt outcomes, counting the attempts made and whether the task
/// succeeded.
pub fn drive_task(budget: u8, outcomes: &Vec<bool>) -> (r: (u8, bool))
    requires
        outcomes@.len() >= budget,
    ensures
        r.0 as nat == attempts_used(budget as nat, outcomes@),
        r.1 == run_succeeds(budget as nat, outcomes@),
{
    let mut state = TaskState::start(budget);
    let mut attempts: u8 = 0;
    proof {
        assert(outcomes@.skip(0) =~= outcomes@);
    }
    loop
        invariant
            outcomes@.len() >= budget,
            attempts <= budget,
            state == (TaskState::Pending { tries_left: (budget - attempts) as u8 }),
            attempts_used(budget as nat, outcomes@) == attempts + attempts_used(
                (budget - attempts) as nat,
                outcomes@.skip(attempts as int),
            ),
            run_succeeds(budget as nat, outcomes@) == run_succeeds(
                (budget - attempts) as nat,
                outcomes@.skip(attempts as int),
            ),
        decreases budget - attempts,
    {
        let begun = state.begin_attempt();
        if matches!(begun.1, TaskAction::AbortRun) {
            return (attempts, false);
        }
        state = begun.0;
        let ok = outcomes[attempts as usize];
        let finished = state.finish_attempt(ok);
        if matches!(finished.1, TaskAction::Finish) {
            return (attempts + 1, true);
        }
        state = finished.0;
        state = state.after_backoff();
        proof {
            assert(outcomes@.skip(attempts as int).drop_first() =~= outcomes@.skip(
                attempts as int + 1,
            ));
            assert(outcomes@.skip(attempts as int)[0] == outcomes@[attempts as int]);
        }
        attempts = attempts + 1;
    }
}

/// Retry law: with every attempt failing, a task makes exactly as many
/// attempts as its budget — never fewer, never more — and does not succeed;
/// the orchestrator treats that as fatal rather than swallowing it.
pub proof fn lemma_retry_exhausts_budget(budget: nat, outcomes: Seq<bool>)
    requires
        outcomes.len() >= budget,
        forall|i: int| 0 <= i < outcomes.len() ==> !outcomes[i],
    ensures
        attempts_used(budget, outcomes) == budget,
        !run_succeeds(budget, outcomes),
    decreases budget,
{
    if budget > 0 {
        assert(!outcomes[0]);
        assert(forall|i: int|
            0 <= i < outcomes.drop_first().len() ==> !#[trigger] outcomes.drop_first()[i]);
        lemma_retry_exhausts_budget((budget - 1) as nat, outcomes.drop_first());
    }
}

/// Retry law: a task never makes more attempts than its budget.
pub proof fn lemma_retry_within_budget(budget: nat, outcomes: Seq<bool>)
    ensures
        attempts_used(budget, outcomes) <= budget,
    decreases budget,
{
    if budget > 0 && outcomes.len() > 0 && !outcomes[0] {
        lemma_retry_within_budget((budget - 1) as nat, outcomes.drop_first());
    }
}

/// The label-values enumeration command: lists every value the log store has
/// seen for the given label.
pub fn labels_command(loki: &LokiConfig, label: &str) -> (r: String)
    ensures
        r@ == head_text(*loki) + " labels "@ + label@,
{
    let mut s = build_head(loki);
    s.append(" labels ");
    s.append(label);
    proof {
        assert(s@ =~= head_text(*loki) + " labels "@ + label@);
    }
    s
}

} // verus!
