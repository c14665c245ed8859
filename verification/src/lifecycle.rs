//! The life of a service process as the plugin sees it: a category is absent
//! from the tracking table or has one entry in it. A start that succeeds
//! enters the entry, a stop takes it off; nothing else changes the table.

use crate::error::PluginErrorView;
use crate::model::{directory_suffix, PluginTaskType, StartServiceRequest, StopServiceResponse};
use crate::process::ManagedProcess;
use crate::text::{is_blank, texts};
use std::collections::HashMap;
use vstd::prelude::*;

verus! {

/// The executable to launch: the one the request names, else the plugin's
/// default, if it has one.
pub open spec fn resolved_binary(
    default_binary: Option<Seq<char>>,
    request: StartServiceRequest,
) -> Option<Seq<char>> {
    match request.binary_path {
        Some(path) => Some(path@),
        None => default_binary,
    }
}

/// The arguments of a launch that names none.
pub open spec fn default_launch_args(task: PluginTaskType, model_path: Seq<char>) -> Seq<
    Seq<char>,
> {
    seq!["serve"@, "--model"@, model_path, "--task"@, directory_suffix(task)]
}

/// The arguments to launch with: those the request names, else the default.
pub open spec fn resolved_args(request: StartServiceRequest) -> Seq<Seq<char>> {
    match request.args {
        Some(args) => texts(args@),
        None => default_launch_args(request.task_type, request.model_path@),
    }
}

/// Why a start request is turned down before anything is launched, given the
/// categories that have a tracked process.
pub open spec fn start_refusal(
    default_binary: Option<Seq<char>>,
    running: Set<PluginTaskType>,
    request: StartServiceRequest,
) -> Option<PluginErrorView> {
    if is_blank(request.model_path@) {
        Some(PluginErrorView::InvalidRequest("model_path is required"@))
    } else if resolved_binary(default_binary, request) is None {
        Some(
            PluginErrorView::InvalidRequest(
                "binary_path not provided and GOOSE_PLUGIN_LLM_BINARY unset"@,
            ),
        )
    } else if running.contains(request.task_type) {
        Some(PluginErrorView::ProcessAlreadyRunning(request.task_type))
    } else {
        None
    }
}

/// What the host is to launch.
#[derive(Debug, Clone)]
pub struct LaunchPlan {
    pub task_type: PluginTaskType,
    pub command: String,
    pub args: Vec<String>,
    pub environment: Option<HashMap<String, String>>,
}

/// A process that the host launched: its handle, and its process identifier
/// where the system gave one.
#[derive(Debug)]
pub struct Spawned<H> {
    pub child: H,
    pub pid: Option<u32>,
}

/// How a launch ends: with the process identifier of the new entry, or with
/// the failure to report.
pub open spec fn start_outcome<H>(
    running: Set<PluginTaskType>,
    task: PluginTaskType,
    spawned: Result<Spawned<H>, String>,
) -> Result<u32, PluginErrorView> {
    match spawned {
        Err(message) => Err(PluginErrorView::ProcessStart(message@)),
        Ok(process) => match process.pid {
            None => Err(PluginErrorView::ProcessStart("failed to obtain process identifier"@)),
            Some(pid) => if running.contains(task) {
                Err(PluginErrorView::ProcessAlreadyRunning(task))
            } else {
                Ok(pid)
            },
        },
    }
}

/// The tracking table after a launch: one more entry where the launch
/// succeeded, and the table as it was where it did not.
pub open spec fn running_after_start<H>(
    running: Map<PluginTaskType, ManagedProcess<H>>,
    plan: LaunchPlan,
    spawned: Result<Spawned<H>, String>,
) -> Map<PluginTaskType, ManagedProcess<H>> {
    if start_outcome(running.dom(), plan.task_type, spawned) is Ok {
        running.insert(
            plan.task_type,
            ManagedProcess { child: spawned->Ok_0.child, command: plan.command, args: plan.args },
        )
    } else {
        running
    }
}

/// Why a stop request is turned down, given the categories that have a
/// tracked process.
pub open spec fn stop_refusal(running: Set<PluginTaskType>, task: PluginTaskType) -> Option<
    PluginErrorView,
> {
    if running.contains(task) {
        None
    } else {
        Some(PluginErrorView::ProcessNotRunning(task))
    }
}

/// How the termination of a process that was taken off the table is answered.
pub open spec fn stop_outcome(task: PluginTaskType, terminated: Result<(), String>) -> Result<
    StopServiceResponse,
    PluginErrorView,
> {
    match terminated {
        Ok(_) => Ok(StopServiceResponse { task_type: task, terminated: true }),
        Err(message) => Err(PluginErrorView::ProcessStart(message@)),
    }
}

/// Whether a start request passes every check that does not depend on the
/// tracking table.
pub open spec fn well_formed_start(
    default_binary: Option<Seq<char>>,
    request: StartServiceRequest,
) -> bool {
    !is_blank(request.model_path@) && resolved_binary(default_binary, request) is Some
}

/// A start that succeeded leaves an entry for its category, so the next
/// well-formed start for that category, with no stop in between, is refused
/// as already running.
pub proof fn lemma_second_start_refused<H>(
    default_binary: Option<Seq<char>>,
    running: Map<PluginTaskType, ManagedProcess<H>>,
    plan: LaunchPlan,
    spawned: Result<Spawned<H>, String>,
    next: StartServiceRequest,
)
    requires
        start_outcome(running.dom(), plan.task_type, spawned) is Ok,
        next.task_type == plan.task_type,
        well_formed_start(default_binary, next),
    ensures
        start_refusal(default_binary, running_after_start(running, plan, spawned).dom(), next)
            == Some(PluginErrorView::ProcessAlreadyRunning(plan.task_type)),
{
}

/// A failed start leaves the tracking table exactly as it was.
pub proof fn lemma_failed_start_keeps_table<H>(
    running: Map<PluginTaskType, ManagedProcess<H>>,
    plan: LaunchPlan,
    spawned: Result<Spawned<H>, String>,
)
    requires
        start_outcome(running.dom(), plan.task_type, spawned) is Err,
    ensures
        running_after_start(running, plan, spawned) == running,
{
}

/// A stop for a category without an entry is refused as not running: on a
/// table that tracks nothing, and right after a stop that took the entry.
pub proof fn lemma_stop_needs_start<H>(
    running: Map<PluginTaskType, ManagedProcess<H>>,
    task: PluginTaskType,
)
    ensures
        stop_refusal(Map::<PluginTaskType, ManagedProcess<H>>::empty().dom(), task) == Some(
            PluginErrorView::ProcessNotRunning(task),
        ),
        stop_refusal(running.remove(task).dom(), task) == Some(
            PluginErrorView::ProcessNotRunning(task),
        ),
{
}

/// Start, stop, start: the stop after a successful start is admitted and
/// takes off the process that was launched; after it a well-formed start for
/// the same category is admitted again, and its answer carries the
/// identifier of the process launched for it, not that of the earlier one.
pub proof fn lemma_restart_after_stop<H>(
    default_binary: Option<Seq<char>>,
    running: Map<PluginTaskType, ManagedProcess<H>>,
    plan: LaunchPlan,
    spawned: Result<Spawned<H>, String>,
    next: StartServiceRequest,
    respawned: Result<Spawned<H>, String>,
)
    requires
        start_outcome(running.dom(), plan.task_type, spawned) is Ok,
        next.task_type == plan.task_type,
        well_formed_start(default_binary, next),
        respawned is Ok,
        respawned->Ok_0.pid is Some,
    ensures
        stop_refusal(running_after_start(running, plan, spawned).dom(), plan.task_type) is None,
        running_after_start(running, plan, spawned)[plan.task_type].child == spawned->Ok_0.child,
        start_refusal(
            default_binary,
            running_after_start(running, plan, spawned).remove(plan.task_type).dom(),
            next,
        ) is None,
        start_outcome(
            running_after_start(running, plan, spawned).remove(plan.task_type).dom(),
            next.task_type,
            respawned,
        ) == Ok::<u32, PluginErrorView>(respawned->Ok_0.pid->0),
{
}

/// How many of a series of start attempts, taken one after the other, end
/// with a new entry in the tracking table. Attempt `i` asks with
/// `requests[i]`, is planned as `plans[i]` and has its launch end as
/// `launches[i]`.
pub open spec fn successful_starts<H>(
    default_binary: Option<Seq<char>>,
    running: Map<PluginTaskType, ManagedProcess<H>>,
    requests: Seq<StartServiceRequest>,
    plans: Seq<LaunchPlan>,
    launches: Seq<Result<Spawned<H>, String>>,
) -> nat
    decreases requests.len(),
{
    if requests.len() == 0 || plans.len() != requests.len() || launches.len() != requests.len() {
        0
    } else if start_refusal(default_binary, running.dom(), requests[0]) is Some {
        successful_starts(
            default_binary,
            running,
            requests.drop_first(),
            plans.drop_first(),
            launches.drop_first(),
        )
    } else {
        let won: nat = if start_outcome(running.dom(), plans[0].task_type, launches[0]) is Ok {
            1
        } else {
            0
        };
        won + successful_starts(
            default_binary,
            running_after_start(running, plans[0], launches[0]),
            requests.drop_first(),
            plans.drop_first(),
            launches.drop_first(),
        )
    }
}

/// Whether every attempt of a series is a well-formed start for `task` whose
/// launch would give a process with an identifier.
pub open spec fn contending_starts<H>(
    default_binary: Option<Seq<char>>,
    task: PluginTaskType,
    requests: Seq<StartServiceRequest>,
    plans: Seq<LaunchPlan>,
    launches: Seq<Result<Spawned<H>, String>>,
) -> bool {
    &&& plans.len() == requests.len()
    &&& launches.len() == requests.len()
    &&& forall|i: int|
        0 <= i < requests.len() ==> {
            &&& (#[trigger] requests[i]).task_type == task
            &&& well_formed_start(default_binary, requests[i])
        }
    &&& forall|i: int| 0 <= i < plans.len() ==> (#[trigger] plans[i]).task_type == task
    &&& forall|i: int|
        0 <= i < launches.len() ==> (#[trigger] launches[i]) is Ok && launches[i]->Ok_0.pid is Some
}

/// While a category has an entry, no start for it succeeds, however many are
/// tried.
pub proof fn lemma_no_start_while_running<H>(
    default_binary: Option<Seq<char>>,
    running: Map<PluginTaskType, ManagedProcess<H>>,
    task: PluginTaskType,
    requests: Seq<StartServiceRequest>,
    plans: Seq<LaunchPlan>,
    launches: Seq<Result<Spawned<H>, String>>,
)
    requires
        contending_starts(default_binary, task, requests, plans, launches),
        running.dom().contains(task),
    ensures
        successful_starts(default_binary, running, requests, plans, launches) == 0,
    decreases requests.len(),
{
    if requests.len() > 0 {
        lemma_no_start_while_running(
            default_binary,
            running,
            task,
            requests.drop_first(),
            plans.drop_first(),
            launches.drop_first(),
        );
    }
}

/// Of any number of starts that contend for one category without an entry,
/// taken in whatever order the lock admits them, exactly one succeeds: the
/// first. All the others find the entry and are refused.
pub proof fn lemma_one_start_wins<H>(
    default_binary: Option<Seq<char>>,
    running: Map<PluginTaskType, ManagedProcess<H>>,
    task: PluginTaskType,
    requests: Seq<StartServiceRequest>,
    plans: Seq<LaunchPlan>,
    launches: Seq<Result<Spawned<H>, String>>,
)
    requires
        contending_starts(default_binary, task, requests, plans, launches),
        requests.len() >= 1,
        !running.dom().contains(task),
    ensures
        successful_starts(default_binary, running, requests, plans, launches) == 1,
{
    lemma_no_start_while_running(
        default_binary,
        running_after_start(running, plans[0], launches[0]),
        task,
        requests.drop_first(),
        plans.drop_first(),
        launches.drop_first(),
    );
}

} // verus!
