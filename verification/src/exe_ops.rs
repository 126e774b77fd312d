//! The task pipeline executor: placeholder expansion, per-task eligibility,
//! and command execution.
//!
//! For each task the executor expands the template fields of its command
//! line, creates its output folder, probes the binary, and decides: a task
//! whose input resolved to the unavailable sentinel is skipped entirely; a
//! task whose output file already exists is skipped (idempotency) since the
//! executor runs with overwriting disabled; every other task runs through
//! the platform shell with its output captured and funneled, message by
//! whole message, into the run log. Every decision is recorded in a
//! `TaskOutcome` with an exact contract; the spawning itself is behind
//! trusted wrappers over the `execute` crate.

use vstd::prelude::*;

use crate::art::sentinel_string;
use crate::art::sentinel_value;
use crate::artmap::ArtifactMap;
use crate::configs::MainArgs;
use crate::configs::Wiskers;
use crate::file_ops::file_exists_overwrite;
use crate::file_ops::make_folders;
use crate::logsink::LogSink;
use crate::text::replace_all;
use crate::text::spec_replace;

verus! {

/// What running one external command produced, together with what was
/// handed to the spawn. When the process could not be spawned at all,
/// `spawned` is false and the captured output is empty.
pub struct CmdOutput {
    pub spawned: bool,
    pub code: Option<i32>,
    pub stdout: Vec<u8>,
    pub stderr: Vec<u8>,
    /// The program that was invoked, with `args` as its argument vector
    /// (empty when the command went through the shell instead).
    pub program: String,
    pub args: Vec<String>,
    /// The command line handed to the platform shell (empty when the
    /// program was invoked directly).
    pub command_line: String,
}

/// The text that lossy UTF-8 decoding yields for a byte string: a function
/// of the bytes alone.
pub uninterp spec fn lossy_of(b: Seq<u8>) -> Seq<char>;

/// Relies on String::from_utf8_lossy: decodes the bytes, replacing invalid
/// sequences; the result depends on the bytes alone, and no bytes decode
/// to no text.
#[verifier::external_body]
fn utf8_lossy(b: &Vec<u8>) -> (r: String)
    ensures
        r@ == lossy_of(b@),
        b@.len() == 0 ==> r@.len() == 0,
{
    String::from_utf8_lossy(b).into_owned()
}

/// Relies on execute::command and the std command's `output` method: parses
/// `program` into a command, appends each of `args` as one argument,
/// runs it with stdout and stderr captured, and waits for its exit. The
/// result records the program and argument vector that were handed over.
#[verifier::external_body]
fn run_args(program: &String, args: &Vec<String>) -> (r: CmdOutput)
    ensures
        r.program@ == program@,
        r.args.deep_view() == args.deep_view(),
        r.command_line@.len() == 0,
{
    let mut c = execute::command(program.as_str());
    c.args(args);
    let (spawned, code, stdout, stderr) = match c.output() {
        Ok(o) => (true, o.status.code(), o.stdout, o.stderr),
        Err(_) => (false, None, Vec::new(), Vec::new()),
    };
    CmdOutput {
        spawned,
        code,
        stdout,
        stderr,
        program: program.clone(),
        args: args.clone(),
        command_line: String::new(),
    }
}

/// Relies on execute::shell and the std command's `output` method: runs the
/// command line through the platform shell with stdout and stderr captured,
/// and waits for its exit. The result records the handed command line.
#[verifier::external_body]
fn shell_run(cmd: &String) -> (r: CmdOutput)
    ensures
        r.command_line@ == cmd@,
        r.program@.len() == 0,
        r.args@.len() == 0,
{
    let mut c = execute::shell(cmd.as_str());
    let (spawned, code, stdout, stderr) = match c.output() {
        Ok(o) => (true, o.status.code(), o.stdout, o.stderr),
        Err(_) => (false, None, Vec::new(), Vec::new()),
    };
    CmdOutput {
        spawned,
        code,
        stdout,
        stderr,
        program: String::new(),
        args: Vec::new(),
        command_line: cmd.clone(),
    }
}

/// Relies on std::path's `Path::canonicalize`: the canonical, symlink-free
/// form of the path when the filesystem can supply one, else the path
/// unchanged.
#[verifier::external_body]
fn canonical_or_raw(p: &String) -> String {
    match std::path::Path::new(p).canonicalize() {
        Ok(pb) => match pb.to_str() {
            Some(s) => s.to_string(),
            None => p.clone(),
        },
        Err(_) => p.clone(),
    }
}

/// Probe whether the binary answers a no-op flag with exit code 0.
fn check_binary(binary: &String, arg: &str) -> bool {
    let mut args: Vec<String> = Vec::new();
    args.push(arg.to_owned());
    let out = run_args(binary, &args);
    match out.code {
        Some(c) => c == 0,
        None => false,
    }
}

/// The warning recorded when a task's binary answers none of the probe
/// flags.
pub open spec fn not_installed_msg(binary: Seq<char>) -> Seq<char> {
    "[!] The path `"@ + binary + "` is not a correct executable binary file."@
}

/// Probe whether the binary is installed, trying each of a small fixed set
/// of no-op flags; success on any one counts. The result is a warning
/// string: empty when the binary answered (or when probing is disabled by
/// `chk_exists`), the not-installed message otherwise. A non-empty warning
/// does not stop the task.
pub fn installed_binary_check(chk_exists: bool, binary: &String) -> (r: String)
    ensures
        !chk_exists ==> r@.len() == 0,
        r@.len() == 0 || r@ == not_installed_msg(binary@),
{
    if !chk_exists {
        return String::new();
    }
    let installed = check_binary(binary, "-h") || check_binary(binary, "help") || check_binary(
        binary,
        "--version",
    ) || check_binary(binary, "-v") || check_binary(binary, "-V") || check_binary(
        binary,
        "-c print('wiskess')",
    );
    if installed {
        String::new()
    } else {
        let mut m: String = "[!] The path `".to_owned();
        m.append(binary.as_str());
        m.append("` is not a correct executable binary file.");
        m
    }
}

/// Two path components joined by a separator.
pub open spec fn spec_join(a: Seq<char>, b: Seq<char>) -> Seq<char> {
    a + "/"@ + b
}

/// Join two path components with a separator.
pub fn join_path(a: &String, b: &String) -> (r: String)
    ensures
        r@ == spec_join(a@, b@),
{
    let mut r = a.clone();
    r.append("/");
    r.append(b.as_str());
    r
}

/// The expansion of a template field: every placeholder token replaced by
/// its binding, in the fixed substitution order.
pub open spec fn spec_expand(
    field: Seq<char>,
    input: Seq<char>,
    input_other: Seq<char>,
    outfile: Seq<char>,
    outfolder: Seq<char>,
    start_date: Seq<char>,
    end_date: Seq<char>,
    ioc_file: Seq<char>,
    out_path: Seq<char>,
    tool_path: Seq<char>,
) -> Seq<char> {
    let s1 = spec_replace(field, "{input}"@, input);
    let s2 = spec_replace(s1, "{input_other}"@, input_other);
    let s3 = spec_replace(s2, "{outfile}"@, outfile);
    let s4 = spec_replace(s3, "{outfolder}"@, outfolder);
    let s5 = spec_replace(s4, "{start_date}"@, start_date);
    let s6 = spec_replace(s5, "{end_date}"@, end_date);
    let s7 = spec_replace(s6, "{ioc_file}"@, ioc_file);
    let s8 = spec_replace(s7, "{out_path}"@, out_path);
    spec_replace(s8, "{tool_path}"@, tool_path)
}

/// Expand a template field against concrete bindings: pure substitution of
/// the literal `{token}` markers; unknown tokens pass through verbatim.
pub fn expand_field(
    field: &String,
    input: &String,
    input_other: &String,
    outfile: &String,
    outfolder: &String,
    main_args: &MainArgs,
) -> (r: String)
    ensures
        r@ == spec_expand(
            field@,
            input@,
            input_other@,
            outfile@,
            outfolder@,
            main_args.start_date@,
            main_args.end_date@,
            main_args.ioc_file@,
            main_args.out_path@,
            main_args.tool_path@,
        ),
{
    let s1 = replace_all(field.as_str(), "{input}", input.as_str());
    let s2 = replace_all(s1.as_str(), "{input_other}", input_other.as_str());
    let s3 = replace_all(s2.as_str(), "{outfile}", outfile.as_str());
    let s4 = replace_all(s3.as_str(), "{outfolder}", outfolder.as_str());
    let s5 = replace_all(s4.as_str(), "{start_date}", main_args.start_date.as_str());
    let s6 = replace_all(s5.as_str(), "{end_date}", main_args.end_date.as_str());
    let s7 = replace_all(s6.as_str(), "{ioc_file}", main_args.ioc_file.as_str());
    let s8 = replace_all(s7.as_str(), "{out_path}", main_args.out_path.as_str());
    replace_all(s8.as_str(), "{tool_path}", main_args.tool_path.as_str())
}

/// The resolved value of one task input, in canonical (symlink-free) form
/// when the filesystem can supply one, else as resolved. An empty value
/// stays empty.
pub fn get_wisker_art(data_paths: &ArtifactMap, input: &String) -> (r: String)
    requires
        data_paths@.dom().contains(input@),
    ensures
        data_paths@[input@].len() == 0 ==> r@.len() == 0,
{
    match data_paths.get(input) {
        Some(v) => {
            if v.as_str().is_empty() {
                String::new()
            } else {
                canonical_or_raw(v)
            }
        },
        None => {
            proof {
                assert(false);
            }
            String::new()
        },
    }
}

/// The `{input}`/`{input_other}` bindings of one task: its resolved
/// artefact values in canonical (symlink-free) form when the filesystem
/// can supply one, as resolved otherwise. The canonical form is decided
/// by the filesystem, so the bindings are materialized here, once, and
/// every later expansion is exact over them.
pub struct ArtBindings {
    pub input: String,
    pub input_other: String,
}

/// Materialize a task's input bindings from the artefact map: the resolved
/// value of `input` (canonicalized when possible; an empty value stays
/// empty) and likewise for `input_other`, which binds to the empty string
/// when the task declares no secondary input.
pub fn input_bindings(wisker: &Wiskers, data_paths: &ArtifactMap) -> (b: ArtBindings)
    requires
        data_paths@.dom().contains(wisker.input@),
        wisker.input_other@.len() > 0 ==> data_paths@.dom().contains(wisker.input_other@),
    ensures
        data_paths@[wisker.input@].len() == 0 ==> b.input@.len() == 0,
        wisker.input_other@.len() == 0 ==> b.input_other@.len() == 0,
{
    ArtBindings {
        input: get_wisker_art(data_paths, &wisker.input),
        input_other: if !wisker.input_other.as_str().is_empty() {
            get_wisker_art(data_paths, &wisker.input_other)
        } else {
            String::new()
        },
    }
}

/// Expand one template field of a task against its materialized input
/// bindings: exactly the expansion of the field, nothing else changed.
pub fn set_placeholder(
    wisker_field: &String,
    wisker: &Wiskers,
    bindings: &ArtBindings,
    folder_path: &String,
    main_args: &MainArgs,
) -> (r: String)
    ensures
        r@ == spec_expand(
            wisker_field@,
            bindings.input@,
            bindings.input_other@,
            wisker.outfile@,
            folder_path@,
            main_args.start_date@,
            main_args.end_date@,
            main_args.ioc_file@,
            main_args.out_path@,
            main_args.tool_path@,
        ),
{
    expand_field(
        wisker_field,
        &bindings.input,
        &bindings.input_other,
        &wisker.outfile,
        folder_path,
        main_args,
    )
}

/// Build a task's concrete command against its materialized input
/// bindings: the expanded argument string, the binary with `{tool_path}`
/// substituted, and the expanded pre-execution script when the task
/// declares one.
pub fn set_wisker(
    wisker: &Wiskers,
    bindings: &ArtBindings,
    folder_path: &String,
    main_args: &MainArgs,
) -> (r: (String, String, String))
    ensures
        r.0@ == spec_expand(
            wisker.args@,
            bindings.input@,
            bindings.input_other@,
            wisker.outfile@,
            folder_path@,
            main_args.start_date@,
            main_args.end_date@,
            main_args.ioc_file@,
            main_args.out_path@,
            main_args.tool_path@,
        ),
        r.1@ == spec_replace(wisker.binary@, "{tool_path}"@, main_args.tool_path@),
        wisker.script ==> r.2@ == spec_expand(
            wisker.script_posh@,
            bindings.input@,
            bindings.input_other@,
            wisker.outfile@,
            folder_path@,
            main_args.start_date@,
            main_args.end_date@,
            main_args.ioc_file@,
            main_args.out_path@,
            main_args.tool_path@,
        ),
        !wisker.script ==> r.2@.len() == 0,
{
    let wisker_arg = set_placeholder(&wisker.args, wisker, bindings, folder_path, main_args);
    let wisker_binary = replace_all(
        wisker.binary.as_str(),
        "{tool_path}",
        main_args.tool_path.as_str(),
    );
    let wisker_script = if wisker.script {
        set_placeholder(&wisker.script_posh, wisker, bindings, folder_path, main_args)
    } else {
        String::new()
    };
    (wisker_arg, wisker_binary, wisker_script)
}

/// Prepare one task: materialize its input bindings, create its output
/// folder (idempotently), expand its command, probe its binary, and probe
/// output idempotency. Yields the expanded argument, binary and script,
/// whether the output may be written (false when it already exists: the
/// run never overwrites), the binary warning, and the bindings the
/// expansions were made against.
pub fn load_wisker(
    main_args_c: &MainArgs,
    wisker: &Wiskers,
    data_paths_c: &ArtifactMap,
) -> (r: (String, String, String, bool, String, ArtBindings))
    requires
        data_paths_c@.dom().contains(wisker.input@),
        wisker.input_other@.len() > 0 ==> data_paths_c@.dom().contains(wisker.input_other@),
    ensures
        r.0@ == spec_expand(
            wisker.args@,
            r.5.input@,
            r.5.input_other@,
            wisker.outfile@,
            spec_join(main_args_c.out_path@, wisker.outfolder@),
            main_args_c.start_date@,
            main_args_c.end_date@,
            main_args_c.ioc_file@,
            main_args_c.out_path@,
            main_args_c.tool_path@,
        ),
        r.1@ == spec_replace(wisker.binary@, "{tool_path}"@, main_args_c.tool_path@),
        wisker.script ==> r.2@ == spec_expand(
            wisker.script_posh@,
            r.5.input@,
            r.5.input_other@,
            wisker.outfile@,
            spec_join(main_args_c.out_path@, wisker.outfolder@),
            main_args_c.start_date@,
            main_args_c.end_date@,
            main_args_c.ioc_file@,
            main_args_c.out_path@,
            main_args_c.tool_path@,
        ),
        !wisker.script ==> r.2@.len() == 0,
        !wisker.chk_exists ==> r.4@.len() == 0,
        r.4@.len() == 0 || r.4@ == not_installed_msg(
            spec_replace(wisker.binary@, "{tool_path}"@, main_args_c.tool_path@),
        ),
        data_paths_c@[wisker.input@].len() == 0 ==> r.5.input@.len() == 0,
        wisker.input_other@.len() == 0 ==> r.5.input_other@.len() == 0,
{
    let bindings = input_bindings(wisker, data_paths_c);
    let folder_path = join_path(&main_args_c.out_path, &wisker.outfolder);
    make_folders(&folder_path);
    let (wisker_arg, wisker_binary, wisker_script) = set_wisker(
        wisker,
        &bindings,
        &folder_path,
        main_args_c,
    );
    let err_msg = installed_binary_check(wisker.chk_exists, &wisker_binary);
    let check_outfile = join_path(&folder_path, &wisker.outfile);
    let overwrite_file = file_exists_overwrite(&check_outfile, true);
    (wisker_arg, wisker_binary, wisker_script, overwrite_file, err_msg, bindings)
}

/// The command line of a task: binary and expanded arguments, joined by a
/// space, handed to the shell as one line.
pub open spec fn spec_cmd_line(binary: Seq<char>, arg: Seq<char>) -> Seq<char> {
    binary + " "@ + arg
}

/// The log line announcing a task's command.
pub open spec fn running_message(cmd: Seq<char>) -> Seq<char> {
    "[ ] Running: "@ + cmd
}

/// Run a task's binary with its expanded argument string through the
/// shell, logging the command first; the captured output is returned.
pub fn run_wisker(wisker_binary: &String, wisker_arg: &String, log: &mut LogSink) -> (r: CmdOutput)
    ensures
        final(log)@ == old(log)@.push(
            running_message(spec_cmd_line(wisker_binary@, wisker_arg@)),
        ),
        r.command_line@ == spec_cmd_line(wisker_binary@, wisker_arg@),
{
    let mut cmd = wisker_binary.clone();
    cmd.append(" ");
    cmd.append(wisker_arg.as_str());
    let mut msg: String = "[ ] Running: ".to_owned();
    msg.append(cmd.as_str());
    log.append(msg);
    shell_run(&cmd)
}

/// The log line announcing a pre-execution script.
pub open spec fn posh_running_message(func: Seq<char>, payload: Seq<char>) -> Seq<char> {
    "[ ] Powershell function running: "@ + func + " with payload: "@ + payload
}

/// Run a payload through powershell (preferring `pwsh` when it answers a
/// probe flag, falling back to `powershell`), handing it exactly the
/// function flag, the payload and the token, in that order; the
/// invocation and then the captured standard output are logged, whole.
pub fn run_posh(
    func: &String,
    payload: &String,
    log: &mut LogSink,
    git_token: &String,
) -> (r: CmdOutput)
    ensures
        final(log)@ == old(log)@.push(posh_running_message(func@, payload@)).push(
            lossy_of(r.stdout@),
        ),
        r.program@ == "pwsh"@ || r.program@ == "powershell"@,
        r.args.deep_view() == seq![func@, payload@, git_token@],
{
    let mut msg: String = "[ ] Powershell function running: ".to_owned();
    msg.append(func.as_str());
    msg.append(" with payload: ");
    msg.append(payload.as_str());
    log.append(msg);
    let pwsh: String = "pwsh".to_owned();
    let psh: String = if check_binary(&pwsh, "-h") {
        pwsh
    } else {
        "powershell".to_owned()
    };
    let mut args: Vec<String> = Vec::new();
    args.push(func.clone());
    args.push(payload.clone());
    args.push(git_token.clone());
    proof {
        assert(args.deep_view() =~= seq![func@, payload@, git_token@]);
    }
    let out = run_args(&psh, &args);
    log.append(utf8_lossy(&out.stdout));
    out
}

/// What the executor decided for one task in one pass.
#[derive(Debug, Clone, Copy, PartialEq, Eq)]
pub enum TaskAction {
    /// The task belongs to the other concurrency pass of this group.
    NotThisPass,
    /// The task's input is the unavailable sentinel: never executed, never
    /// reported as failed.
    SkippedUnavailable,
    /// The task's output already exists and overwriting is disabled.
    SkippedExisting,
    /// The task's command was run.
    Ran,
}

/// The record of one task in one pass: what was decided, and why.
#[derive(Debug, Clone)]
pub struct TaskOutcome {
    pub name: String,
    pub action: TaskAction,
    /// What the output-idempotency probe reported: whether the task's
    /// output file already existed.
    pub output_existed: bool,
    /// The binary warning, empty when the binary answered a probe flag.
    pub err_msg: String,
    /// The command line that ran, when one did.
    pub command: String,
    /// The captured output of the command, when one ran.
    pub stdout: Vec<u8>,
    pub stderr: Vec<u8>,
    /// The expanded pre-execution script, when the task declares one and
    /// ran.
    pub script: String,
    /// The captured standard output of the pre-execution script.
    pub script_stdout: Vec<u8>,
    /// The `{input}`/`{input_other}` bindings the command was expanded
    /// against: the task's resolved artefact values, canonicalized when
    /// the filesystem could supply a canonical form.
    pub input_binding: String,
    pub input_other_binding: String,
}

/// The log line recording a finished task and its command.
pub open spec fn done_message(name: Seq<char>, cmd: Seq<char>) -> Seq<char> {
    "[+] Done "@ + name + " with command: "@ + cmd
}

/// The log line recording an idempotent skip: the output file already
/// exists and the pass does not overwrite.
pub open spec fn exists_message(file: Seq<char>, name: Seq<char>) -> Seq<char> {
    "[ ] The file already exists: "@ + file
        + "\nIf wanting to run the module again, "@ + name
        + "\nplease delete the output file or run wiskess without --silent mode"@
}

/// The log lines one task contributes in one pass, in order: nothing for
/// a task of the other pass or a sentinel skip; the skip notice for an
/// existing output; and for a run, the (optional) script announcement and
/// its output, the command announcement, the completion line, and the
/// captured output — each one whole.
pub open spec fn outcome_emission(w: Wiskers, out_path: Seq<char>, r: TaskOutcome) -> Seq<
    Seq<char>,
> {
    match r.action {
        TaskAction::NotThisPass => Seq::<Seq<char>>::empty(),
        TaskAction::SkippedUnavailable => Seq::<Seq<char>>::empty(),
        TaskAction::SkippedExisting => seq![
            exists_message(spec_join(spec_join(out_path, w.outfolder@), w.outfile@), w.name@),
        ],
        TaskAction::Ran => {
            let run_lines = seq![
                running_message(r.command@),
                done_message(w.name@, r.command@),
                lossy_of(r.stdout@),
                lossy_of(r.stderr@),
            ];
            if w.script {
                seq![
                    posh_running_message("-c"@, r.script@),
                    lossy_of(r.script_stdout@),
                ] + run_lines
            } else {
                run_lines
            }
        },
    }
}

/// Execute one eligible-pass task: skip it when its input is the sentinel,
/// skip it when its output already exists, and otherwise run its (optional)
/// pre-execution script and its command, funneling the captured output into
/// the log. A sentinel skip leaves no trace in the log.
pub fn run_task(
    wisker: &Wiskers,
    main_args: &MainArgs,
    data_paths: &ArtifactMap,
    log: &mut LogSink,
) -> (r: TaskOutcome)
    requires
        data_paths@.dom().contains(wisker.input@),
        wisker.input_other@.len() > 0 ==> data_paths@.dom().contains(wisker.input_other@),
    ensures
        r.name@ == wisker.name@,
        (data_paths@[wisker.input@] == sentinel_value()) <==> r.action is SkippedUnavailable,
        r.action is Ran ==> !r.output_existed,
        r.action is SkippedExisting ==> r.output_existed,
        !(r.action is NotThisPass),
        r.action is SkippedUnavailable ==> final(log)@ == old(log)@,
        r.action is SkippedExisting ==> final(log)@ == old(log)@.push(
            exists_message(
                spec_join(spec_join(main_args.out_path@, wisker.outfolder@), wisker.outfile@),
                wisker.name@,
            ),
        ),
        r.action is Ran ==> r.command@ == spec_cmd_line(
            spec_replace(wisker.binary@, "{tool_path}"@, main_args.tool_path@),
            spec_expand(
                wisker.args@,
                r.input_binding@,
                r.input_other_binding@,
                wisker.outfile@,
                spec_join(main_args.out_path@, wisker.outfolder@),
                main_args.start_date@,
                main_args.end_date@,
                main_args.ioc_file@,
                main_args.out_path@,
                main_args.tool_path@,
            ),
        ),
        r.action is Ran && wisker.script ==> r.script@ == spec_expand(
            wisker.script_posh@,
            r.input_binding@,
            r.input_other_binding@,
            wisker.outfile@,
            spec_join(main_args.out_path@, wisker.outfolder@),
            main_args.start_date@,
            main_args.end_date@,
            main_args.ioc_file@,
            main_args.out_path@,
            main_args.tool_path@,
        ),
        r.action is Ran ==> (data_paths@[wisker.input@].len() == 0 ==> r.input_binding@.len()
            == 0) && (wisker.input_other@.len() == 0 ==> r.input_other_binding@.len() == 0),
        final(log)@ == old(log)@ + outcome_emission(*wisker, main_args.out_path@, r),
        old(log)@.is_prefix_of(final(log)@),
{
    let input_file = match data_paths.get(&wisker.input) {
        Some(v) => v.clone(),
        None => {
            proof {
                assert(false);
            }
            String::new()
        },
    };
    if input_file == sentinel_string() {
        let r = TaskOutcome {
            name: wisker.name.clone(),
            action: TaskAction::SkippedUnavailable,
            output_existed: false,
            err_msg: String::new(),
            command: String::new(),
            stdout: Vec::new(),
            stderr: Vec::new(),
            script: String::new(),
            script_stdout: Vec::new(),
            input_binding: String::new(),
            input_other_binding: String::new(),
        };
        proof {
            assert(log@ =~= old(log)@ + outcome_emission(*wisker, main_args.out_path@, r));
            assert(old(log)@.is_prefix_of(log@));
        }
        return r;
    }
    let (wisker_arg, wisker_binary, wisker_script, overwrite_file, err_msg, bindings) =
        load_wisker(main_args, wisker, data_paths);
    if overwrite_file {
        let mut script_stdout: Vec<u8> = Vec::new();
        if wisker.script {
            let script_out = run_posh(&"-c".to_owned(), &wisker_script, log, &String::new());
            script_stdout = script_out.stdout;
        }
        let mut command = wisker_binary.clone();
        command.append(" ");
        command.append(wisker_arg.as_str());
        let output = run_wisker(&wisker_binary, &wisker_arg, log);
        let mut done: String = "[+] Done ".to_owned();
        done.append(wisker.name.as_str());
        done.append(" with command: ");
        done.append(command.as_str());
        log.append(done);
        log.append(utf8_lossy(&output.stdout));
        log.append(utf8_lossy(&output.stderr));
        let r = TaskOutcome {
            name: wisker.name.clone(),
            action: TaskAction::Ran,
            output_existed: false,
            err_msg,
            command,
            stdout: output.stdout,
            stderr: output.stderr,
            script: wisker_script,
            script_stdout,
            input_binding: bindings.input,
            input_other_binding: bindings.input_other,
        };
        proof {
            assert(log@ =~= old(log)@ + outcome_emission(*wisker, main_args.out_path@, r));
            assert(old(log)@.is_prefix_of(log@)) by {
                assert(old(log)@ =~= log@.subrange(0, old(log)@.len() as int));
            }
        }
        r
    } else {
        let folder_path = join_path(&main_args.out_path, &wisker.outfolder);
        let file_path = join_path(&folder_path, &wisker.outfile);
        let mut msg: String = "[ ] The file already exists: ".to_owned();
        msg.append(file_path.as_str());
        msg.append("\nIf wanting to run the module again, ");
        msg.append(wisker.name.as_str());
        msg.append("\nplease delete the output file or run wiskess without --silent mode");
        log.append(msg);
        let r = TaskOutcome {
            name: wisker.name.clone(),
            action: TaskAction::SkippedExisting,
            output_existed: true,
            err_msg,
            command: String::new(),
            stdout: Vec::new(),
            stderr: Vec::new(),
            script: String::new(),
            script_stdout: Vec::new(),
            input_binding: bindings.input,
            input_other_binding: bindings.input_other,
        };
        proof {
            assert(log@ =~= old(log)@ + outcome_emission(*wisker, main_args.out_path@, r));
            assert(old(log)@.is_prefix_of(log@)) by {
                assert(old(log)@ =~= log@.subrange(0, old(log)@.len() as int));
            }
        }
        r
    }
}

/// Whether the artefact names one task references exist in the map.
pub open spec fn task_inputs_present(w: Wiskers, m: Map<Seq<char>, Seq<char>>) -> bool {
    &&& m.dom().contains(w.input@)
    &&& (w.input_other@.len() > 0 ==> m.dom().contains(w.input_other@))
}

/// Whether every artefact name a task list references exists in the map:
/// the configuration-correctness condition checked before any execution.
pub open spec fn inputs_present(tasks: Seq<Wiskers>, m: Map<Seq<char>, Seq<char>>) -> bool {
    forall|i: int| 0 <= i < tasks.len() ==> task_inputs_present(#[trigger] tasks[i], m)
}

/// Check the configuration against the artefact map: every task input must
/// name a resolved artefact. A missing name is a fatal configuration
/// error, found before any task executes.
pub fn check_config_inputs(tasks: &Vec<Wiskers>, data_paths: &ArtifactMap) -> (r: bool)
    ensures
        r == inputs_present(tasks@, data_paths@),
{
    let n = tasks.len();
    let mut i: usize = 0;
    while i < n
        invariant
            n == tasks@.len(),
            i <= n,
            forall|j: int| 0 <= j < i ==> task_inputs_present(#[trigger] tasks@[j], data_paths@),
        decreases n - i,
    {
        if !data_paths.contains_key(&tasks[i].input) {
            return false;
        }
        if !tasks[i].input_other.as_str().is_empty() && !data_paths.contains_key(
            &tasks[i].input_other,
        ) {
            return false;
        }
        proof {
            assert(task_inputs_present(tasks@[i as int], data_paths@));
        }
        i += 1;
    }
    true
}

/// What one task's record must say after a pass: a task of the other pass
/// is marked so and only so; an eligible task is skipped exactly when its
/// input is the sentinel; a run happened only on an eligible, non-sentinel
/// task whose output probe found nothing.
pub open spec fn outcome_consistent(
    w: Wiskers,
    m: Map<Seq<char>, Seq<char>>,
    run_para: bool,
    r: TaskOutcome,
) -> bool {
    &&& r.name@ == w.name@
    &&& (w.para != run_para <==> r.action is NotThisPass)
    &&& (w.para == run_para ==> ((m[w.input@] == sentinel_value()) <==> r.action
        is SkippedUnavailable))
    &&& (r.action is Ran ==> w.para == run_para && m[w.input@] != sentinel_value()
        && !r.output_existed)
    &&& (r.action is SkippedExisting ==> w.para == run_para && m[w.input@] != sentinel_value()
        && r.output_existed)
}

/// One record per task of the group, in order, each consistent with the
/// pass it was produced in.
pub open spec fn reports_consistent(
    tasks: Seq<Wiskers>,
    m: Map<Seq<char>, Seq<char>>,
    run_para: bool,
    reports: Seq<TaskOutcome>,
) -> bool {
    &&& reports.len() == tasks.len()
    &&& forall|i: int|
        0 <= i < tasks.len() ==> outcome_consistent(tasks[i], m, run_para, #[trigger] reports[i])
}

/// The log lines a whole pass contributes: each task's emission, in
/// submission order.
pub open spec fn group_emission(
    tasks: Seq<Wiskers>,
    out_path: Seq<char>,
    reports: Seq<TaskOutcome>,
) -> Seq<Seq<char>>
    decreases tasks.len(),
{
    if tasks.len() == 0 {
        Seq::<Seq<char>>::empty()
    } else {
        group_emission(tasks.drop_last(), out_path, reports.drop_last()) + outcome_emission(
            tasks.last(),
            out_path,
            reports.last(),
        )
    }
}

/// Run one pass over a task group: with more than one worker the parallel
/// tasks, with exactly one worker the serialized tasks, each to completion
/// in submission order. Each task's decision is recorded; all output goes,
/// message by whole message, into the one log.
pub fn run_commands(
    func: &Vec<Wiskers>,
    main_args: &MainArgs,
    data_paths: &ArtifactMap,
    threads: usize,
    log: &mut LogSink,
) -> (reports: Vec<TaskOutcome>)
    requires
        inputs_present(func@, data_paths@),
    ensures
        reports_consistent(func@, data_paths@, threads != 1, reports@),
        final(log)@ == old(log)@ + group_emission(func@, main_args.out_path@, reports@),
        old(log)@.is_prefix_of(final(log)@),
{
    let run_para = threads != 1;
    let mut reports: Vec<TaskOutcome> = Vec::new();
    let n = func.len();
    let mut i: usize = 0;
    proof {
        assert(func@.take(0) =~= Seq::<Wiskers>::empty());
        assert(log@ =~= old(log)@ + group_emission(
            func@.take(0),
            main_args.out_path@,
            reports@.take(0),
        ));
    }
    while i < n
        invariant
            n == func@.len(),
            i <= n,
            inputs_present(func@, data_paths@),
            reports@.len() == i,
            forall|j: int|
                0 <= j < i ==> outcome_consistent(
                    func@[j],
                    data_paths@,
                    run_para,
                    #[trigger] reports@[j],
                ),
            log@ == old(log)@ + group_emission(
                func@.take(i as int),
                main_args.out_path@,
                reports@.take(i as int),
            ),
        decreases n - i,
    {
        let w = &func[i];
        if w.para == run_para {
            let ghost pre_reports = reports@;
            let ghost pre_log = log@;
            let r = run_task(w, main_args, data_paths, log);
            reports.push(r);
            proof {
                lemma_group_emission_step(
                    func@,
                    main_args.out_path@,
                    pre_reports,
                    reports@,
                    i as int,
                );
                assert(log@ =~= old(log)@ + group_emission(
                    func@.take(i + 1),
                    main_args.out_path@,
                    reports@.take(i + 1),
                ));
            }
        } else {
            let ghost pre_reports = reports@;
            reports.push(
                TaskOutcome {
                    name: w.name.clone(),
                    action: TaskAction::NotThisPass,
                    output_existed: false,
                    err_msg: String::new(),
                    command: String::new(),
                    stdout: Vec::new(),
                    stderr: Vec::new(),
                    script: String::new(),
                    script_stdout: Vec::new(),
                    input_binding: String::new(),
                    input_other_binding: String::new(),
                },
            );
            proof {
                assert(reports@ =~= pre_reports.push(reports@[i as int]));
                lemma_group_emission_step(
                    func@,
                    main_args.out_path@,
                    pre_reports,
                    reports@,
                    i as int,
                );
                assert(log@ =~= old(log)@ + group_emission(
                    func@.take(i + 1),
                    main_args.out_path@,
                    reports@.take(i + 1),
                ));
            }
        }
        i += 1;
    }
    proof {
        assert(func@.take(n as int) =~= func@);
        assert(reports@.take(n as int) =~= reports@);
        assert(old(log)@.is_prefix_of(log@)) by {
            assert(old(log)@ =~= log@.subrange(0, old(log)@.len() as int));
        }
    }
    reports
}

proof fn lemma_group_emission_step(
    tasks: Seq<Wiskers>,
    out_path: Seq<char>,
    pre_reports: Seq<TaskOutcome>,
    reports: Seq<TaskOutcome>,
    i: int,
)
    requires
        0 <= i < tasks.len(),
        pre_reports.len() == i,
        reports == pre_reports.push(reports[i]),
        reports.len() == i + 1,
    ensures
        group_emission(tasks.take(i + 1), out_path, reports.take(i + 1)) == group_emission(
            tasks.take(i),
            out_path,
            pre_reports.take(i),
        ) + outcome_emission(tasks[i], out_path, reports[i]),
{
    assert(tasks.take(i + 1).drop_last() =~= tasks.take(i));
    assert(reports.take(i + 1) =~= reports);
    assert(reports.drop_last() =~= pre_reports);
    assert(pre_reports.take(i) =~= pre_reports);
    assert(tasks.take(i + 1).last() == tasks[i]);
    assert(reports.last() == reports[i]);
}

/// Sentinel propagation: a task whose input resolved to the unavailable
/// sentinel never runs — in every pass its recorded action is a skip, never
/// `Ran`.
pub proof fn lemma_sentinel_propagation(
    tasks: Seq<Wiskers>,
    m: Map<Seq<char>, Seq<char>>,
    run_para: bool,
    reports: Seq<TaskOutcome>,
    i: int,
)
    requires
        reports_consistent(tasks, m, run_para, reports),
        0 <= i < tasks.len(),
        m[tasks[i].input@] == sentinel_value(),
    ensures
        !(reports[i].action is Ran),
        reports[i].action is NotThisPass || reports[i].action is SkippedUnavailable,
{
    assert(outcome_consistent(tasks[i], m, run_para, reports[i]));
}

/// Idempotency: overwriting is disabled in a pipeline pass, so a task whose
/// output probe found an existing output file is recorded as skipped — a
/// repeated run performs no new invocation for it and leaves its output
/// untouched.
pub proof fn lemma_idempotent_skip(
    tasks: Seq<Wiskers>,
    m: Map<Seq<char>, Seq<char>>,
    run_para: bool,
    reports: Seq<TaskOutcome>,
    i: int,
)
    requires
        reports_consistent(tasks, m, run_para, reports),
        0 <= i < tasks.len(),
        reports[i].output_existed,
    ensures
        !(reports[i].action is Ran),
{
    assert(outcome_consistent(tasks[i], m, run_para, reports[i]));
}

/// Idempotency across a repeated run: when every eligible task of the
/// pass found its output already present — as every task of a second,
/// identical run does — no task is recorded as run: zero new process
/// invocations. The output probe is hard-wired silent, and a silent probe
/// never truncates, so the existing output files stand untouched.
pub proof fn lemma_idempotent_run(
    tasks: Seq<Wiskers>,
    m: Map<Seq<char>, Seq<char>>,
    run_para: bool,
    reports: Seq<TaskOutcome>,
)
    requires
        reports_consistent(tasks, m, run_para, reports),
        forall|i: int|
            0 <= i < reports.len() ==> (#[trigger] reports[i]).output_existed || reports[i].action
                is NotThisPass || reports[i].action is SkippedUnavailable,
    ensures
        forall|i: int| 0 <= i < reports.len() ==> !((#[trigger] reports[i]).action is Ran),
{
    assert forall|i: int| 0 <= i < reports.len() implies !((#[trigger] reports[i]).action
        is Ran) by {
        assert(outcome_consistent(tasks[i], m, run_para, reports[i]));
    }
}

} // verus!
