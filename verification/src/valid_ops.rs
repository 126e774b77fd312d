//! The output validator: after a run, re-walk the task list and report
//! every task whose located input did not yield a plausible output.
//!
//! A task is reported when its effective input (the resolved artefact, or
//! the task's `valid_path` override expanded against the data source) is
//! real — neither the unavailable sentinel nor empty — but its expected
//! output file is missing or has at most one line. Most emitted formats
//! carry a header line, so a single line means no data rows were produced.
//!
//! The walk yields one record per task, in task order, carrying the probe
//! results it observed; whether a summary row is produced is an
//! if-and-only-if over those recorded results.

use vstd::prelude::*;

use crate::art::root_token;
use crate::art::sentinel_string;
use crate::art::sentinel_value;
use crate::artmap::ArtifactMap;
use crate::configs::MainArgs;
use crate::configs::Wiskers;
use crate::exe_ops::join_path;
use crate::exe_ops::spec_join;
use crate::file_ops::file_exists_overwrite;
use crate::file_ops::line_count;
use crate::logsink::LogSink;
use crate::text::replace_all;
use crate::text::spec_replace;

verus! {

/// One row of the validation summary: a task whose input was located but
/// whose output is missing or effectively empty.
#[derive(Debug, Clone)]
pub struct Summary {
    pub name: String,
    /// The task's input, with the data-source prefix stripped.
    pub data_source: String,
    /// The expected output, as folder/file.
    pub analysis_file: String,
    /// The output's line count (0 when the file is missing).
    pub lines: usize,
}

/// The record of checking one task: the effective input it was held to,
/// what the output probes reported, and the summary row, present exactly
/// when the task must be reported.
#[derive(Debug, Clone)]
pub struct ValidCheck {
    pub name: String,
    /// The effective input the task was held to.
    pub input: String,
    /// What the output probe reported: whether the expected output file
    /// (or a glob match for it) existed. Only probed for a real input.
    pub output_existed: bool,
    /// The recorded line count of the output: 0 when it is missing.
    pub lines: usize,
    /// The summary row, present precisely when the task is reported.
    pub row: Option<Summary>,
}

/// The input the validator holds a task to: its resolved artefact, unless
/// the task declares a `valid_path` override, which is expanded against
/// the data source instead.
pub open spec fn effective_input(
    w: Wiskers,
    m: Map<Seq<char>, Seq<char>>,
    root: Seq<char>,
) -> Seq<char> {
    if w.valid_path@.len() == 0 {
        m[w.input@]
    } else {
        spec_replace(w.valid_path@, root_token(), root)
    }
}

/// Whether an effective input counts: neither the unavailable sentinel
/// nor empty.
pub open spec fn input_is_real(inp: Seq<char>) -> bool {
    inp != sentinel_value() && inp.len() > 0
}

/// What one task's record must say: it names the task and its effective
/// input; a missing output has count 0; and a summary row is present **if
/// and only if** the input is real and the recorded probe found no output
/// or a count of at most one — in which case the row's fields are pinned.
pub open spec fn check_consistent(
    w: Wiskers,
    m: Map<Seq<char>, Seq<char>>,
    root: Seq<char>,
    c: ValidCheck,
) -> bool {
    let inp = effective_input(w, m, root);
    &&& c.name@ == w.name@
    &&& c.input@ == inp
    &&& (!c.output_existed ==> c.lines == 0)
    &&& (c.row is Some <==> input_is_real(inp) && (!c.output_existed || c.lines <= 1))
    &&& match c.row {
        Some(row) => {
            &&& row.name@ == w.name@
            &&& row.analysis_file@ == spec_join(w.outfolder@, w.outfile@)
            &&& row.data_source@ == spec_replace(inp, root, Seq::<char>::empty())
            &&& row.lines == c.lines
        },
        None => true,
    }
}

/// One record per task, in task order, each consistent with its task.
pub open spec fn checks_consistent(
    wiskers: Seq<Wiskers>,
    m: Map<Seq<char>, Seq<char>>,
    root: Seq<char>,
    checks: Seq<ValidCheck>,
) -> bool {
    &&& checks.len() == wiskers.len()
    &&& forall|i: int|
        0 <= i < wiskers.len() ==> check_consistent(wiskers[i], m, root, #[trigger] checks[i])
}

/// The operator guidance appended to the log after the summary.
pub open spec fn guidance_message(out_log: Seq<char>) -> Seq<char> {
    "[ ] Validation checks have found an input data source has not been processed. This is normally due to the output analysis file being shorter than two lines.\n[ ] Please check the output of each in the wiskess log: "@
        + out_log + ", or the output in this terminal."@
}

/// Walk the task list after a run and check every task: one record per
/// task, in task order, with a summary row exactly for the tasks whose
/// effective input was located but whose output file is missing or has at
/// most one line. Operator guidance is appended to the log.
pub fn valid_process(
    wiskers: &Vec<Wiskers>,
    main_args: &MainArgs,
    data_paths: &ArtifactMap,
    data_source: &String,
    log: &mut LogSink,
) -> (checks: Vec<ValidCheck>)
    requires
        forall|i: int|
            0 <= i < wiskers@.len() && (#[trigger] wiskers@[i].valid_path@).len() == 0
                ==> data_paths@.dom().contains(wiskers@[i].input@),
    ensures
        checks_consistent(wiskers@, data_paths@, data_source@, checks@),
        final(log)@ == old(log)@.push(guidance_message(main_args.out_log@)),
{
    let mut checks: Vec<ValidCheck> = Vec::new();
    let n = wiskers.len();
    let mut i: usize = 0;
    while i < n
        invariant
            n == wiskers@.len(),
            i <= n,
            forall|j: int|
                0 <= j < wiskers@.len() && (#[trigger] wiskers@[j].valid_path@).len() == 0
                    ==> data_paths@.dom().contains(wiskers@[j].input@),
            checks@.len() == i,
            forall|j: int|
                0 <= j < i ==> check_consistent(
                    wiskers@[j],
                    data_paths@,
                    data_source@,
                    #[trigger] checks@[j],
                ),
        decreases n - i,
    {
        let w = &wiskers[i];
        let input_file: String = if w.valid_path.as_str().is_empty() {
            match data_paths.get(&w.input) {
                Some(v) => v.clone(),
                None => {
                    proof {
                        assert(false);
                    }
                    String::new()
                },
            }
        } else {
            replace_all(w.valid_path.as_str(), "{root}", data_source.as_str())
        };
        let is_real = !(input_file == sentinel_string()) && !input_file.as_str().is_empty();
        let mut output_existed = false;
        let mut file_lines: usize = 0;
        let mut row: Option<Summary> = None;
        if is_real {
            let folder = join_path(&main_args.out_path, &w.outfolder);
            let check_outfile = join_path(&folder, &w.outfile);
            output_existed = !file_exists_overwrite(&check_outfile, true);
            if output_existed {
                file_lines = line_count(&check_outfile);
            }
            if !output_existed || file_lines <= 1 {
                row = Some(
                    Summary {
                        name: w.name.clone(),
                        data_source: replace_all(input_file.as_str(), data_source.as_str(), ""),
                        analysis_file: join_path(&w.outfolder, &w.outfile),
                        lines: file_lines,
                    },
                );
            }
        }
        let check = ValidCheck {
            name: w.name.clone(),
            input: input_file,
            output_existed,
            lines: file_lines,
            row,
        };
        proof {
            reveal_strlit("");
            assert(""@ =~= Seq::<char>::empty());
            assert(check_consistent(wiskers@[i as int], data_paths@, data_source@, check));
        }
        checks.push(check);
        i += 1;
    }
    let mut guidance: String =
        "[ ] Validation checks have found an input data source has not been processed. This is normally due to the output analysis file being shorter than two lines.\n[ ] Please check the output of each in the wiskess log: ".to_owned();
    guidance.append(main_args.out_log.as_str());
    guidance.append(", or the output in this terminal.");
    log.append(guidance);
    checks
}

/// The summary rows of a sequence of check records, in task order: the
/// rows of the tasks that are reported, and nothing else.
pub open spec fn spec_rows(checks: Seq<ValidCheck>) -> Seq<Summary>
    decreases checks.len(),
{
    if checks.len() == 0 {
        Seq::<Summary>::empty()
    } else {
        spec_rows(checks.drop_last()) + (match checks.last().row {
            Some(row) => seq![row],
            None => Seq::<Summary>::empty(),
        })
    }
}

/// Extract the summary table from the check records: exactly the rows of
/// the reported tasks, in task order.
pub fn summary_rows(checks: &Vec<ValidCheck>) -> (rows: Vec<Summary>)
    ensures
        rows@ == spec_rows(checks@),
{
    let mut rows: Vec<Summary> = Vec::new();
    let n = checks.len();
    let mut i: usize = 0;
    proof {
        assert(checks@.take(0) =~= Seq::<ValidCheck>::empty());
        assert(rows@ =~= spec_rows(checks@.take(0)));
    }
    while i < n
        invariant
            n == checks@.len(),
            i <= n,
            rows@ == spec_rows(checks@.take(i as int)),
        decreases n - i,
    {
        match &checks[i].row {
            Some(row) => {
                rows.push(
                    Summary {
                        name: row.name.clone(),
                        data_source: row.data_source.clone(),
                        analysis_file: row.analysis_file.clone(),
                        lines: row.lines,
                    },
                );
            },
            None => {},
        }
        proof {
            assert(checks@.take(i + 1).drop_last() =~= checks@.take(i as int));
            assert(checks@.take(i + 1).last() == checks@[i as int]);
            assert(rows@ =~= spec_rows(checks@.take(i + 1)));
        }
        i += 1;
    }
    proof {
        assert(checks@.take(n as int) =~= checks@);
    }
    rows
}

proof fn lemma_rows_member(checks: Seq<ValidCheck>, k: int)
    requires
        0 <= k < spec_rows(checks).len(),
    ensures
        exists|j: int| 0 <= j < checks.len() && (#[trigger] checks[j].row) == Some(
            spec_rows(checks)[k],
        ),
    decreases checks.len(),
{
    if checks.len() > 0 {
        if k < spec_rows(checks.drop_last()).len() {
            lemma_rows_member(checks.drop_last(), k);
            let j = choose|j: int|
                0 <= j < checks.drop_last().len() && (#[trigger] checks.drop_last()[j].row)
                    == Some(spec_rows(checks.drop_last())[k]);
            assert(checks.drop_last()[j] == checks[j]);
            assert(checks[j].row == Some(spec_rows(checks)[k]));
        } else {
            assert(checks[checks.len() - 1].row == Some(spec_rows(checks)[k]));
        }
    }
}

/// A deliberately skipped artefact is no failure: a task whose effective
/// input is the unavailable sentinel produces no summary row, and (when
/// task names are distinct) no row of the table carries its name.
pub proof fn lemma_sentinel_not_reported(
    wiskers: Seq<Wiskers>,
    m: Map<Seq<char>, Seq<char>>,
    root: Seq<char>,
    checks: Seq<ValidCheck>,
    i: int,
)
    requires
        checks_consistent(wiskers, m, root, checks),
        0 <= i < wiskers.len(),
        effective_input(wiskers[i], m, root) == sentinel_value(),
        forall|p: int, q: int| 0 <= p < q < wiskers.len() ==> wiskers[p].name@ != wiskers[q].name@,
    ensures
        checks[i].row is None,
        forall|k: int|
            0 <= k < spec_rows(checks).len() ==> (#[trigger] spec_rows(checks)[k]).name@
                != wiskers[i].name@,
{
    assert(check_consistent(wiskers[i], m, root, checks[i]));
    assert forall|k: int| 0 <= k < spec_rows(checks).len() implies (#[trigger] spec_rows(
        checks,
    )[k]).name@ != wiskers[i].name@ by {
        lemma_rows_member(checks, k);
        let j = choose|j: int|
            0 <= j < checks.len() && (#[trigger] checks[j].row) == Some(spec_rows(checks)[k]);
        assert(check_consistent(wiskers[j], m, root, checks[j]));
        if spec_rows(checks)[k].name@ == wiskers[i].name@ {
            if j != i {
                if j < i {
                    assert(wiskers[j].name@ != wiskers[i].name@);
                } else {
                    assert(wiskers[i].name@ != wiskers[j].name@);
                }
            }
        }
    }
}

} // verus!
