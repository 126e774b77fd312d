use wiskess::art::check_art;
use wiskess::art::get_enc_path;
use wiskess::art::resolve_decision;
use wiskess::art::ProbeOutcome;
use wiskess::configs::Artefacts;
use wiskess::logsink::LogSink;

fn art(name: &str, path: &str, legacy: &str) -> Artefacts {
    Artefacts { name: name.to_string(), path: path.to_string(), legacy: legacy.to_string() }
}

fn probes(direct: bool, encoded: bool, legacy: bool, legacy_encoded: bool) -> ProbeOutcome {
    ProbeOutcome { direct, encoded, legacy, legacy_encoded }
}

#[test]
fn enc_path_encodes_colons_in_final_segment() {
    let r = get_enc_path(&"C:/Users/file:ads".to_string());
    assert_eq!(r, Some("C:/Users/file%3Aads".to_string()));
}

#[test]
fn enc_path_no_final_segment() {
    assert_eq!(get_enc_path(&"C:/Users/".to_string()), None);
    assert_eq!(get_enc_path(&"".to_string()), None);
}

#[test]
fn enc_path_bare_name() {
    assert_eq!(get_enc_path(&"file:ads".to_string()), Some("/file%3Aads".to_string()));
}

#[test]
fn direct_hit_wins() {
    let a = art("mft", "{root}/$MFT", "{root}/old/$MFT");
    let d = resolve_decision(&a, &"/eve".to_string(), false, probes(true, false, false, false), None);
    assert_eq!(d.value, Some("/eve/$MFT".to_string()));
    assert!(!d.missed);
    assert!(!d.prompted);
}

#[test]
fn legacy_hit_never_prompts_interactive() {
    // Resolution order: direct and encoded absent, legacy present — the
    // legacy path is returned and the operator is not prompted, even
    // though the run is interactive.
    let a = art("evt", "{root}/winevt/Logs", "{root}/Config/evt");
    let d = resolve_decision(&a, &"/eve".to_string(), false, probes(false, false, true, false), None);
    assert_eq!(d.value, Some("/eve/Config/evt".to_string()));
    assert!(!d.missed);
    assert!(!d.prompted);
}

#[test]
fn legacy_hit_same_under_silent() {
    let a = art("evt", "{root}/winevt/Logs", "{root}/Config/evt");
    let d = resolve_decision(&a, &"/eve".to_string(), true, probes(false, false, true, false), None);
    assert_eq!(d.value, Some("/eve/Config/evt".to_string()));
    assert!(!d.prompted);
}

#[test]
fn encoded_variant_preferred_over_legacy() {
    let a = art("usn", "{root}/$Extend/$UsnJrnl:$J", "{root}/old");
    let d = resolve_decision(&a, &"/eve".to_string(), true, probes(false, true, true, false), None);
    assert_eq!(d.value, Some("/eve/$Extend/$UsnJrnl%3A$J".to_string()));
}

#[test]
fn silent_miss_is_sentinel() {
    let a = art("registry", "{root}/System32/config", "");
    let d = resolve_decision(&a, &"/eve".to_string(), true, probes(false, false, false, false), None);
    assert_eq!(d.value, Some("wiskess_none".to_string()));
    assert!(d.missed);
    assert!(!d.prompted);
}

#[test]
fn interactive_miss_trusts_typed_answer() {
    let a = art("registry", "{root}/System32/config", "");
    let d = resolve_decision(
        &a,
        &"/eve".to_string(),
        false,
        probes(false, false, false, false),
        Some("/typed/by/hand".to_string()),
    );
    assert_eq!(d.value, Some("/typed/by/hand".to_string()));
    assert!(d.missed);
    assert!(d.prompted);
}

#[test]
fn interactive_miss_canceled_leaves_unresolved() {
    let a = art("registry", "{root}/System32/config", "");
    let d = resolve_decision(&a, &"/eve".to_string(), false, probes(false, false, false, false), None);
    assert_eq!(d.value, None);
    assert!(d.prompted);
}

#[test]
fn none_artifact_keeps_template_verbatim() {
    let a = art("none", "none", "");
    let d = resolve_decision(&a, &"/eve".to_string(), true, probes(false, false, false, false), None);
    assert_eq!(d.value, Some("none".to_string()));
    assert!(!d.missed);
    assert!(!d.prompted);
}

#[test]
fn check_art_resolves_existing_and_sentinels_missing() {
    // "/bin/sh" exists on this host, so "shell" resolves directly; the
    // registry path exists nowhere, so a silent run stores the sentinel;
    // the "none" artefact keeps its template.
    let arts = vec![
        art("shell", "/bin/sh", ""),
        art("registry", "/nonexistent_wiskess_zzz/{root}/config", ""),
        art("none", "none", ""),
    ];
    let mut log = LogSink::new();
    let m = check_art(&arts, &"/eve".to_string(), true, &mut log);
    assert_eq!(m.get(&"shell".to_string()), Some(&"/bin/sh".to_string()));
    assert_eq!(m.get(&"registry".to_string()), Some(&"wiskess_none".to_string()));
    assert_eq!(m.get(&"none".to_string()), Some(&"none".to_string()));
    // the miss was logged, and only the miss
    assert_eq!(log.len(), 1);
    assert_eq!(
        log.get(0),
        "[-] Path for registry not found at /nonexistent_wiskess_zzz//eve/config"
    );
}

#[test]
fn check_art_falls_back_to_existing_legacy_path() {
    // the direct template resolves nowhere, the legacy one exists: the
    // legacy path is stored, with no prompt even though silent is off
    let arts = vec![art("hosts", "/nonexistent_wiskess_yyy/{root}/hosts", "/etc/hosts")];
    let mut log = LogSink::new();
    let m = check_art(&arts, &"/eve".to_string(), false, &mut log);
    assert_eq!(m.get(&"hosts".to_string()), Some(&"/etc/hosts".to_string()));
    assert_eq!(log.len(), 0);
}

#[test]
fn check_art_glob_pattern_resolves_to_pattern_string() {
    // A glob pattern with a match resolves to the literal pattern string,
    // not the expanded match: downstream consumers re-expand it.
    let arts = vec![art("shells", "/bin/s*", "")];
    let mut log = LogSink::new();
    let m = check_art(&arts, &"/".to_string(), true, &mut log);
    assert_eq!(m.get(&"shells".to_string()), Some(&"/bin/s*".to_string()));
}
