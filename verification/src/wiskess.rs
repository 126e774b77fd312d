//! Pipeline orchestration: resolve the artefacts, then run the three task
//! groups — wiskers, enrichers, reporters — as a strict sequence of
//! barriers, each group in two passes (the parallel-eligible tasks, then
//! the serialized ones), and validate the outputs at the end.
//!
//! The ordering discipline is captured by `plan_run`: the schedule it
//! yields is ordered by group and pass, so no enricher-group task stands
//! before a wisker-group task, and no reporter before an enricher.
//! `start_wiskess` executes exactly that order.

use vstd::prelude::*;

use crate::art::check_art;
use crate::artmap::ArtifactMap;
use crate::configs::Artefacts;
use crate::configs::Config;
use crate::configs::MainArgs;
use crate::exe_ops::check_config_inputs;
use crate::exe_ops::reports_consistent;
use crate::exe_ops::run_commands;
use crate::exe_ops::TaskOutcome;
use crate::logsink::lemma_prefix_trans;
use crate::logsink::LogSink;
use crate::valid_ops::checks_consistent;
use crate::valid_ops::valid_process;
use crate::valid_ops::ValidCheck;

verus! {

/// The three ordered task groups.
#[derive(Debug, Clone, Copy, PartialEq, Eq, Structural)]
pub enum Group {
    Wisker,
    Enricher,
    Reporter,
}

/// One scheduled unit of work: a task of one group, started in one of the
/// group's two passes.
#[derive(Debug, Clone)]
pub struct PlannedTask {
    pub group: Group,
    /// True for the pass that runs against the host-sized worker pool,
    /// false for the serialized single-worker pass that follows it.
    pub para_pass: bool,
    pub name: String,
}

/// The position of a planned task's pass in the global order: groups in
/// their fixed sequence, and within each group the parallel pass before
/// the serialized one.
pub open spec fn pass_rank(t: PlannedTask) -> int {
    (match t.group {
        Group::Wisker => 0int,
        Group::Enricher => 2int,
        Group::Reporter => 4int,
    }) + if t.para_pass {
        0int
    } else {
        1int
    }
}

fn push_pass(
    plan: &mut Vec<PlannedTask>,
    tasks: &Vec<crate::configs::Wiskers>,
    group: Group,
    para: bool,
)
    ensures
        final(plan)@.len() >= old(plan)@.len(),
        forall|i: int| 0 <= i < old(plan)@.len() ==> final(plan)@[i] == old(plan)@[i],
        forall|i: int|
            old(plan)@.len() <= i < final(plan)@.len() ==> (#[trigger] final(plan)@[i]).group
                == group && final(plan)@[i].para_pass == para,
{
    let n = tasks.len();
    let mut i: usize = 0;
    while i < n
        invariant
            n == tasks@.len(),
            i <= n,
            plan@.len() >= old(plan)@.len(),
            forall|k: int| 0 <= k < old(plan)@.len() ==> plan@[k] == old(plan)@[k],
            forall|k: int|
                old(plan)@.len() <= k < plan@.len() ==> (#[trigger] plan@[k]).group == group
                    && plan@[k].para_pass == para,
        decreases n - i,
    {
        if tasks[i].para == para {
            plan.push(PlannedTask { group, para_pass: para, name: tasks[i].name.clone() });
        }
        i += 1;
    }
}

/// Lay out the whole run as a schedule: for each group in its fixed order,
/// first the parallel-eligible tasks, then the serialized ones. The
/// schedule is sorted by pass rank: an explicit full barrier stands
/// between the passes and between the groups.
pub fn plan_run(config: &Config) -> (plan: Vec<PlannedTask>)
    ensures
        forall|i: int, j: int|
            0 <= i < j < plan@.len() ==> pass_rank(#[trigger] plan@[i]) <= pass_rank(
                #[trigger] plan@[j],
            ),
{
    let mut plan: Vec<PlannedTask> = Vec::new();
    push_pass(&mut plan, &config.wiskers, Group::Wisker, true);
    proof {
        assert forall|i: int, j: int| 0 <= i < j < plan@.len() implies pass_rank(
            #[trigger] plan@[i],
        ) <= pass_rank(#[trigger] plan@[j]) by {}
        assert(forall|i: int| 0 <= i < plan@.len() ==> pass_rank(#[trigger] plan@[i]) <= 0);
    }
    let ghost p1 = plan@;
    push_pass(&mut plan, &config.wiskers, Group::Wisker, false);
    proof {
        assert(forall|i: int| 0 <= i < plan@.len() ==> pass_rank(#[trigger] plan@[i]) <= 1);
        assert forall|i: int, j: int| 0 <= i < j < plan@.len() implies pass_rank(
            #[trigger] plan@[i],
        ) <= pass_rank(#[trigger] plan@[j]) by {
            if j < p1.len() {
                assert(plan@[i] == p1[i] && plan@[j] == p1[j]);
            } else if i < p1.len() {
                assert(pass_rank(plan@[i]) <= 0 && pass_rank(plan@[j]) == 1);
            }
        }
    }
    let ghost p2 = plan@;
    push_pass(&mut plan, &config.enrichers, Group::Enricher, true);
    proof {
        assert(forall|i: int| 0 <= i < plan@.len() ==> pass_rank(#[trigger] plan@[i]) <= 2);
        assert forall|i: int, j: int| 0 <= i < j < plan@.len() implies pass_rank(
            #[trigger] plan@[i],
        ) <= pass_rank(#[trigger] plan@[j]) by {
            if j < p2.len() {
                assert(plan@[i] == p2[i] && plan@[j] == p2[j]);
            } else if i < p2.len() {
                assert(pass_rank(plan@[i]) <= 1 && pass_rank(plan@[j]) == 2);
            }
        }
    }
    let ghost p3 = plan@;
    push_pass(&mut plan, &config.enrichers, Group::Enricher, false);
    proof {
        assert(forall|i: int| 0 <= i < plan@.len() ==> pass_rank(#[trigger] plan@[i]) <= 3);
        assert forall|i: int, j: int| 0 <= i < j < plan@.len() implies pass_rank(
            #[trigger] plan@[i],
        ) <= pass_rank(#[trigger] plan@[j]) by {
            if j < p3.len() {
                assert(plan@[i] == p3[i] && plan@[j] == p3[j]);
            } else if i < p3.len() {
                assert(pass_rank(plan@[i]) <= 2 && pass_rank(plan@[j]) == 3);
            }
        }
    }
    let ghost p4 = plan@;
    push_pass(&mut plan, &config.reporters, Group::Reporter, true);
    proof {
        assert(forall|i: int| 0 <= i < plan@.len() ==> pass_rank(#[trigger] plan@[i]) <= 4);
        assert forall|i: int, j: int| 0 <= i < j < plan@.len() implies pass_rank(
            #[trigger] plan@[i],
        ) <= pass_rank(#[trigger] plan@[j]) by {
            if j < p4.len() {
                assert(plan@[i] == p4[i] && plan@[j] == p4[j]);
            } else if i < p4.len() {
                assert(pass_rank(plan@[i]) <= 3 && pass_rank(plan@[j]) == 4);
            }
        }
    }
    let ghost p5 = plan@;
    push_pass(&mut plan, &config.reporters, Group::Reporter, false);
    proof {
        assert forall|i: int, j: int| 0 <= i < j < plan@.len() implies pass_rank(
            #[trigger] plan@[i],
        ) <= pass_rank(#[trigger] plan@[j]) by {
            if j < p5.len() {
                assert(plan@[i] == p5[i] && plan@[j] == p5[j]);
            } else if i < p5.len() {
                assert(pass_rank(plan@[i]) <= 4 && pass_rank(plan@[j]) == 5);
            }
        }
    }
    plan
}

/// Ordering barrier: in any schedule sorted by pass rank, no enricher
/// stands before a wisker-group task of either pass, and no reporter
/// before an enricher — a group starts only after the previous group's
/// both passes are fully laid out.
pub proof fn lemma_ordering_barrier(plan: Seq<PlannedTask>, i: int, j: int)
    requires
        forall|p: int, q: int|
            0 <= p < q < plan.len() ==> pass_rank(#[trigger] plan[p]) <= pass_rank(
                #[trigger] plan[q],
            ),
        0 <= i < plan.len(),
        0 <= j < plan.len(),
        plan[i].group is Wisker,
        plan[j].group is Enricher || plan[j].group is Reporter,
    ensures
        !(j < i),
{
    if j < i {
        assert(pass_rank(plan[j]) <= pass_rank(plan[i]));
    }
}

/// A fatal configuration error: a task references an artefact name that
/// the resolver did not put in the map. The resolved map is carried along
/// so the failed reference can be inspected.
#[derive(Debug)]
pub struct ConfigError {
    pub artifacts: ArtifactMap,
}

impl ConfigError {
    /// The operator-facing description of the error.
    pub fn message(&self) -> (r: String)
        ensures
            r@ == "a task references an artefact name that is not in the artefact map"@,
    {
        "a task references an artefact name that is not in the artefact map".to_owned()
    }
}

/// Everything one pipeline run decided and observed: the artefact map, the
/// per-task records of each group's two passes, and the validation checks.
pub struct RunReport {
    pub artifacts: ArtifactMap,
    pub wiskers_parallel: Vec<TaskOutcome>,
    pub wiskers_serial: Vec<TaskOutcome>,
    pub enrichers_parallel: Vec<TaskOutcome>,
    pub enrichers_serial: Vec<TaskOutcome>,
    pub reporters_parallel: Vec<TaskOutcome>,
    pub reporters_serial: Vec<TaskOutcome>,
    pub validation: Vec<ValidCheck>,
}

/// Whether every task of the three groups references only artefact names
/// present in the map: the condition a run starts under.
pub open spec fn config_inputs_present(config: Config, m: Map<Seq<char>, Seq<char>>) -> bool {
    &&& crate::exe_ops::inputs_present(config.wiskers@, m)
    &&& crate::exe_ops::inputs_present(config.enrichers@, m)
    &&& crate::exe_ops::inputs_present(config.reporters@, m)
}

/// Run the whole pipeline against a data source: resolve the artefacts,
/// fail — exactly when some task of the three groups references an
/// artefact name absent from the resolved map, before any task executes —
/// then run wiskers, enrichers and reporters, each group's parallel pass,
/// then its serialized pass, fully finished before the next group starts,
/// and validate the outputs.
pub fn start_wiskess(
    args: &MainArgs,
    config: &Config,
    artefacts: &Vec<Artefacts>,
    data_source: &String,
    log: &mut LogSink,
) -> (r: Result<RunReport, ConfigError>)
    requires
        forall|i: int, j: int|
            0 <= i < j < artefacts@.len() ==> artefacts@[i].name@ != artefacts@[j].name@,
    ensures
        match r {
            Ok(rep) => {
                &&& reports_consistent(
                    config.wiskers@,
                    rep.artifacts@,
                    true,
                    rep.wiskers_parallel@,
                )
                &&& reports_consistent(
                    config.wiskers@,
                    rep.artifacts@,
                    false,
                    rep.wiskers_serial@,
                )
                &&& reports_consistent(
                    config.enrichers@,
                    rep.artifacts@,
                    true,
                    rep.enrichers_parallel@,
                )
                &&& reports_consistent(
                    config.enrichers@,
                    rep.artifacts@,
                    false,
                    rep.enrichers_serial@,
                )
                &&& reports_consistent(
                    config.reporters@,
                    rep.artifacts@,
                    true,
                    rep.reporters_parallel@,
                )
                &&& reports_consistent(
                    config.reporters@,
                    rep.artifacts@,
                    false,
                    rep.reporters_serial@,
                )
                &&& checks_consistent(
                    config.wiskers@,
                    rep.artifacts@,
                    data_source@,
                    rep.validation@,
                )
                &&& config_inputs_present(*config, rep.artifacts@)
            },
            Err(fault) => !config_inputs_present(*config, fault.artifacts@),
        },
        old(log)@.is_prefix_of(final(log)@),
{
    let data_paths = check_art(artefacts, data_source, args.silent, log);
    if !(check_config_inputs(&config.wiskers, &data_paths) && check_config_inputs(
        &config.enrichers,
        &data_paths,
    ) && check_config_inputs(&config.reporters, &data_paths)) {
        return Err(ConfigError { artifacts: data_paths });
    }
    let ghost l0 = log@;
    let wiskers_parallel = run_commands(&config.wiskers, args, &data_paths, 0, log);
    proof {
        lemma_prefix_trans(old(log)@, l0, log@);
    }
    let ghost l1 = log@;
    let wiskers_serial = run_commands(&config.wiskers, args, &data_paths, 1, log);
    proof {
        lemma_prefix_trans(old(log)@, l1, log@);
    }
    let ghost l2 = log@;
    let enrichers_parallel = run_commands(&config.enrichers, args, &data_paths, 0, log);
    proof {
        lemma_prefix_trans(old(log)@, l2, log@);
    }
    let ghost l3 = log@;
    let enrichers_serial = run_commands(&config.enrichers, args, &data_paths, 1, log);
    proof {
        lemma_prefix_trans(old(log)@, l3, log@);
    }
    let ghost l4 = log@;
    let reporters_parallel = run_commands(&config.reporters, args, &data_paths, 0, log);
    proof {
        lemma_prefix_trans(old(log)@, l4, log@);
    }
    let ghost l5 = log@;
    let reporters_serial = run_commands(&config.reporters, args, &data_paths, 1, log);
    proof {
        lemma_prefix_trans(old(log)@, l5, log@);
    }
    let ghost l6 = log@;
    let validation = valid_process(&config.wiskers, args, &data_paths, data_source, log);
    proof {
        lemma_prefix_trans(old(log)@, l6, log@);
    }
    Ok(
        RunReport {
            artifacts: data_paths,
            wiskers_parallel,
            wiskers_serial,
            enrichers_parallel,
            enrichers_serial,
            reporters_parallel,
            reporters_serial,
            validation,
        },
    )
}

} // verus!
