use wiskess::art::check_art;
use wiskess::artmap::ArtifactMap;
use wiskess::configs::Artefacts;
use wiskess::configs::Config;
use wiskess::configs::MainArgs;
use wiskess::configs::Wiskers;
use wiskess::exe_ops::check_config_inputs;
use wiskess::exe_ops::expand_field;
use wiskess::exe_ops::installed_binary_check;
use wiskess::exe_ops::run_commands;
use wiskess::exe_ops::run_task;
use wiskess::exe_ops::TaskAction;
use wiskess::file_ops::check_date;
use wiskess::file_ops::line_count;
use wiskess::logsink::LogSink;
use wiskess::valid_ops::summary_rows;
use wiskess::valid_ops::valid_process;
use wiskess::wiskess::plan_run;
use wiskess::wiskess::start_wiskess;
use wiskess::wiskess::Group;

fn wisker(name: &str, binary: &str, args: &str, outfolder: &str, input: &str, outfile: &str) -> Wiskers {
    Wiskers {
        name: name.to_string(),
        binary: binary.to_string(),
        args: args.to_string(),
        outfolder: outfolder.to_string(),
        input: input.to_string(),
        input_other: String::new(),
        outfile: outfile.to_string(),
        choco: String::new(),
        github: String::new(),
        web_download: String::new(),
        deps_choco: String::new(),
        deps_github: String::new(),
        para: true,
        script: false,
        script_posh: String::new(),
        chk_exists: false,
        valid_path: String::new(),
    }
}

fn fresh_out(tag: &str) -> String {
    let nanos = std::time::SystemTime::now()
        .duration_since(std::time::UNIX_EPOCH)
        .unwrap()
        .as_nanos();
    format!("/tmp/wiskess_{}_{}", tag, nanos)
}

fn main_args(out_path: &str) -> MainArgs {
    MainArgs {
        out_path: out_path.to_string(),
        start_date: "2024-01-01".to_string(),
        end_date: "2024-12-31".to_string(),
        tool_path: "/tools".to_string(),
        ioc_file: "/tmp/iocs.txt".to_string(),
        silent: true,
        out_log: format!("{}/wiskess.log", out_path),
    }
}

#[test]
fn expand_field_substitutes_all_tokens() {
    let args = main_args("/out");
    let r = expand_field(
        &"{input} {input_other} {outfile} {outfolder} {start_date} {end_date} {ioc_file} {out_path} {tool_path}".to_string(),
        &"/eve/$MFT".to_string(),
        &"/eve/$J".to_string(),
        &"mft.csv".to_string(),
        &"/out/fs".to_string(),
        &args,
    );
    assert_eq!(
        r,
        "/eve/$MFT /eve/$J mft.csv /out/fs 2024-01-01 2024-12-31 /tmp/iocs.txt /out /tools"
    );
}

#[test]
fn expand_field_leaves_unknown_tokens() {
    let args = main_args("/out");
    let r = expand_field(
        &"run {bogus} {input}".to_string(),
        &"/eve".to_string(),
        &String::new(),
        &String::new(),
        &String::new(),
        &args,
    );
    assert_eq!(r, "run {bogus} /eve");
}

#[test]
fn binary_check_disabled_gives_no_warning() {
    assert_eq!(installed_binary_check(false, &"/no/such/binary".to_string()), "");
}

#[test]
fn binary_check_answering_binary_gives_no_warning() {
    // `true` exits 0 whatever flag it is probed with
    assert_eq!(installed_binary_check(true, &"true".to_string()), "");
}

#[test]
fn binary_check_missing_binary_warns() {
    let msg = installed_binary_check(true, &"/no/such/wiskess_binary_zzz".to_string());
    assert_eq!(
        msg,
        "[!] The path `/no/such/wiskess_binary_zzz` is not a correct executable binary file."
    );
}

#[test]
fn valid_date_passes_through() {
    let r = check_date("2024-03-09".to_string(), &"start date".to_string(), false);
    assert_eq!(r, "2024-03-09");
}

#[test]
fn invalid_date_kept_in_silent_mode() {
    // a calendar-impossible date: silent runs keep it as typed
    let r = check_date("2024-02-30".to_string(), &"start date".to_string(), true);
    assert_eq!(r, "2024-02-30");
    let r = check_date("not-a-date".to_string(), &"end date".to_string(), true);
    assert_eq!(r, "not-a-date");
}

#[test]
fn config_inputs_checked_before_any_run() {
    let mut m = ArtifactMap::new();
    m.insert("mft".to_string(), "/eve/$MFT".to_string());
    let good = vec![wisker("a", "true", "", "out", "mft", "a.csv")];
    let bad = vec![wisker("b", "true", "", "out", "pagefile", "b.csv")];
    assert!(check_config_inputs(&good, &m));
    assert!(!check_config_inputs(&bad, &m));
}

#[test]
fn sentinel_task_never_spawns_and_leaves_no_trace() {
    let mut m = ArtifactMap::new();
    m.insert("registry".to_string(), "wiskess_none".to_string());
    let args = main_args(&fresh_out("sentinel"));
    let w = wisker("reg_parse", "echo", "should not run", "out", "registry", "reg.csv");
    let mut log = LogSink::new();
    let outcome = run_task(&w, &args, &m, &mut log);
    assert_eq!(outcome.action, TaskAction::SkippedUnavailable);
    assert_eq!(log.len(), 0);
}

#[test]
fn eligible_task_runs_and_funnels_output() {
    let mut m = ArtifactMap::new();
    m.insert("mft".to_string(), "/etc/hosts".to_string());
    let args = main_args(&fresh_out("run"));
    let w = wisker("hello", "echo", "hello from {input}", "out", "mft", "hello.csv");
    let mut log = LogSink::new();
    let outcome = run_task(&w, &args, &m, &mut log);
    assert_eq!(outcome.action, TaskAction::Ran);
    assert_eq!(log.len(), 4);
    assert_eq!(log.get(0), "[ ] Running: echo hello from /etc/hosts");
    assert_eq!(log.get(1), "[+] Done hello with command: echo hello from /etc/hosts");
    assert_eq!(log.get(2), "hello from /etc/hosts\n");
    assert_eq!(log.get(3), "");
    assert_eq!(outcome.command, "echo hello from /etc/hosts");
    assert_eq!(outcome.stdout, b"hello from /etc/hosts\n".to_vec());
    assert!(outcome.stderr.is_empty());
}

#[test]
fn second_run_skips_existing_output() {
    let out = &fresh_out("idem");
    let mut m = ArtifactMap::new();
    m.insert("mft".to_string(), "/bin/sh".to_string());
    let args = main_args(out);
    let w = wisker(
        "mft_parse",
        "printf",
        "'a\\nb\\n' > {outfolder}/{outfile}",
        "out",
        "mft",
        "mft.csv",
    );
    let outfile = format!("{}/out/mft.csv", out);
    let mut log = LogSink::new();
    let first = run_task(&w, &args, &m, &mut log);
    assert_eq!(first.action, TaskAction::Ran);
    assert_eq!(line_count(&outfile), 2);
    let before = log.len();
    let second = run_task(&w, &args, &m, &mut log);
    assert_eq!(second.action, TaskAction::SkippedExisting);
    assert!(second.output_existed);
    // the output is untouched and the only new trace is the skip notice
    assert_eq!(line_count(&outfile), 2);
    assert_eq!(log.len(), before + 1);
    assert!(log.get(before).starts_with("[ ] The file already exists:"));
}

#[test]
fn run_commands_partitions_by_parallel_flag() {
    let mut m = ArtifactMap::new();
    m.insert("mft".to_string(), "/bin/sh".to_string());
    let args = main_args(&fresh_out("pass"));
    let mut serial = wisker("serial_one", "echo", "serial", "out", "mft", "s.csv");
    serial.para = false;
    let parallel = wisker("para_one", "echo", "para", "out", "mft", "p.csv");
    let group = vec![parallel, serial];
    let mut log = LogSink::new();
    let para_reports = run_commands(&group, &args, &m, 0, &mut log);
    assert_eq!(para_reports.len(), 2);
    assert_eq!(para_reports[0].action, TaskAction::Ran);
    assert_eq!(para_reports[1].action, TaskAction::NotThisPass);
    let serial_reports = run_commands(&group, &args, &m, 1, &mut log);
    assert_eq!(serial_reports[0].action, TaskAction::NotThisPass);
    assert_eq!(serial_reports[1].action, TaskAction::Ran);
}

#[test]
fn secondary_input_feeds_expansion() {
    let mut m = ArtifactMap::new();
    m.insert("mft".to_string(), "/etc/hosts".to_string());
    m.insert("journal".to_string(), "/tmp".to_string());
    let args = main_args(&fresh_out("other"));
    let mut w = wisker("pair", "echo", "{input} plus {input_other}", "out", "mft", "pair.csv");
    w.input_other = "journal".to_string();
    let mut log = LogSink::new();
    let outcome = run_task(&w, &args, &m, &mut log);
    assert_eq!(outcome.action, TaskAction::Ran);
    assert_eq!(outcome.command, "echo /etc/hosts plus /tmp");
}

#[test]
fn validator_honors_valid_path_override() {
    let out = &fresh_out("override");
    let mut m = ArtifactMap::new();
    m.insert("mft".to_string(), "wiskess_none".to_string());
    let args = main_args(out);
    // the task's own input is the sentinel, but the override names a real
    // path under the data source, so the missing output is reported
    let mut w = wisker("overridden", "echo", "x", "out", "mft", "o.csv");
    w.valid_path = "{root}/hosts".to_string();
    let group = vec![w];
    let mut log = LogSink::new();
    let checks = valid_process(&group, &args, &m, &"/etc".to_string(), &mut log);
    let rows = summary_rows(&checks);
    assert_eq!(rows.len(), 1);
    assert_eq!(rows[0].name, "overridden");
    assert_eq!(rows[0].data_source, "/hosts");
    assert_eq!(rows[0].lines, 0);
}

#[test]
fn plan_orders_groups_with_full_barriers() {
    let mut w2 = wisker("w_serial", "echo", "", "out", "mft", "w2.csv");
    w2.para = false;
    let config = Config {
        wiskers: vec![wisker("w_para", "echo", "", "out", "mft", "w1.csv"), w2],
        enrichers: vec![wisker("e_para", "echo", "", "out", "mft", "e1.csv")],
        reporters: vec![wisker("r_para", "echo", "", "out", "mft", "r1.csv")],
    };
    let plan = plan_run(&config);
    let names: Vec<&str> = plan.iter().map(|p| p.name.as_str()).collect();
    assert_eq!(names, vec!["w_para", "w_serial", "e_para", "r_para"]);
    assert_eq!(plan[0].group, Group::Wisker);
    assert!(plan[0].para_pass);
    assert_eq!(plan[1].group, Group::Wisker);
    assert!(!plan[1].para_pass);
    assert_eq!(plan[2].group, Group::Enricher);
    assert_eq!(plan[3].group, Group::Reporter);
}

#[test]
fn validator_reports_missing_and_short_outputs_only() {
    let out = &fresh_out("valid");
    let mut m = ArtifactMap::new();
    m.insert("mft".to_string(), "/bin/sh".to_string());
    m.insert("registry".to_string(), "wiskess_none".to_string());
    let args = main_args(out);
    // produce a two-line output for the healthy task
    let healthy = wisker(
        "healthy",
        "printf",
        "'h\\nrow\\n' > {outfolder}/{outfile}",
        "out",
        "mft",
        "good.csv",
    );
    let mut log = LogSink::new();
    let r = run_task(&healthy, &args, &m, &mut log);
    assert_eq!(r.action, TaskAction::Ran);
    let missing = wisker("no_output", "echo", "nothing", "out", "mft", "absent.csv");
    let skipped = wisker("reg_parse", "echo", "skipped", "out", "registry", "reg.csv");
    let group = vec![healthy, missing, skipped];
    let checks = valid_process(&group, &args, &m, &"/eve".to_string(), &mut log);
    // one record per task, in task order, with the probe results recorded
    assert_eq!(checks.len(), 3);
    assert_eq!(checks[0].name, "healthy");
    assert!(checks[0].output_existed);
    assert_eq!(checks[0].lines, 2);
    assert!(checks[0].row.is_none());
    assert_eq!(checks[1].name, "no_output");
    assert!(!checks[1].output_existed);
    assert!(checks[1].row.is_some());
    assert_eq!(checks[2].name, "reg_parse");
    assert_eq!(checks[2].input, "wiskess_none");
    assert!(checks[2].row.is_none());
    let rows = summary_rows(&checks);
    assert_eq!(rows.len(), 1);
    assert_eq!(rows[0].name, "no_output");
    assert_eq!(rows[0].analysis_file, "out/absent.csv");
    assert_eq!(rows[0].data_source, "/bin/sh");
    assert_eq!(rows[0].lines, 0);
}

#[test]
fn full_run_resolves_executes_once_and_validates_clean() {
    // End-to-end scenario: one artefact that exists, one deliberate no-op
    // artefact, one absent artefact; one task parses the existing input
    // into a two-line output, one task depends on the absent artefact.
    let out = &fresh_out("full");
    let arts = vec![
        Artefacts { name: "mft".to_string(), path: "/bin/sh".to_string(), legacy: String::new() },
        Artefacts { name: "none".to_string(), path: "none".to_string(), legacy: String::new() },
        Artefacts {
            name: "registry".to_string(),
            path: "/nonexistent_wiskess_qqq/config".to_string(),
            legacy: String::new(),
        },
    ];
    let config = Config {
        wiskers: vec![
            wisker(
                "mft_parse",
                "printf",
                "'h\\nrow\\n' > {outfolder}/{outfile}",
                "out",
                "mft",
                "mft.csv",
            ),
            wisker("reg_parse", "echo", "never", "out", "registry", "reg.csv"),
        ],
        enrichers: vec![],
        reporters: vec![],
    };
    let args = main_args(out);
    let mut log = LogSink::new();
    let report = start_wiskess(&args, &config, &arts, &"/eve".to_string(), &mut log)
        .expect("run should start: all inputs are resolvable names");
    // resolution: direct hit, template no-op, sentinel
    assert_eq!(report.artifacts.get(&"mft".to_string()), Some(&"/bin/sh".to_string()));
    assert_eq!(report.artifacts.get(&"none".to_string()), Some(&"none".to_string()));
    assert_eq!(
        report.artifacts.get(&"registry".to_string()),
        Some(&"wiskess_none".to_string())
    );
    // the parser ran exactly once, in the parallel pass
    assert_eq!(report.wiskers_parallel[0].action, TaskAction::Ran);
    assert_eq!(report.wiskers_serial[0].action, TaskAction::NotThisPass);
    // the sentinel task never ran in either pass
    assert_eq!(report.wiskers_parallel[1].action, TaskAction::SkippedUnavailable);
    assert_eq!(report.wiskers_serial[1].action, TaskAction::NotThisPass);
    // the two-line output counts as processed: no validation row at all,
    // and in particular none for the deliberately skipped task
    assert_eq!(line_count(&format!("{}/out/mft.csv", out)), 2);
    assert_eq!(report.validation.len(), 2);
    assert!(report.validation[0].output_existed);
    assert_eq!(report.validation[0].lines, 2);
    assert!(summary_rows(&report.validation).is_empty());
    // the skipped task is absent from the process log
    for i in 0..log.len() {
        assert!(!log.get(i).contains("reg_parse"));
    }
}

#[test]
fn missing_input_name_aborts_before_any_execution() {
    let arts = vec![Artefacts {
        name: "mft".to_string(),
        path: "/bin/sh".to_string(),
        legacy: String::new(),
    }];
    let config = Config {
        wiskers: vec![wisker("bad", "echo", "x", "out", "pagefile", "b.csv")],
        enrichers: vec![],
        reporters: vec![],
    };
    let args = main_args(&fresh_out("badcfg"));
    let mut log = LogSink::new();
    let r = start_wiskess(&args, &config, &arts, &"/eve".to_string(), &mut log);
    match r {
        Err(e) => assert_eq!(
            e.message(),
            "a task references an artefact name that is not in the artefact map"
        ),
        Ok(_) => panic!("a missing artefact name must abort the run"),
    }
}

#[test]
fn resolved_map_from_check_art_feeds_the_executor() {
    let arts = vec![Artefacts {
        name: "mft".to_string(),
        path: "/bin/sh".to_string(),
        legacy: String::new(),
    }];
    let mut log = LogSink::new();
    let m = check_art(&arts, &"/eve".to_string(), true, &mut log);
    let tasks = vec![wisker("t", "true", "", "out", "mft", "t.csv")];
    assert!(check_config_inputs(&tasks, &m));
}
