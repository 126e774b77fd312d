use wiskess::art::copy_decision;
use wiskess::exe_ops::run_posh;
use wiskess::file_ops::check_access;
use wiskess::file_ops::AccessProbe;
use wiskess::logsink::LogSink;

#[test]
fn posh_hands_over_flag_payload_and_token() {
    let mut log = LogSink::new();
    let out = run_posh(
        &"-c".to_string(),
        &"Write-Output ready".to_string(),
        &mut log,
        &"SECRET-REDACTED".to_string(),
    );
    // exactly the function flag, the payload and the token, in that order
    assert_eq!(
        out.args,
        vec!["-c".to_string(), "Write-Output ready".to_string(), "SECRET-REDACTED".to_string()]
    );
    assert!(out.program == "pwsh" || out.program == "powershell");
    assert_eq!(log.len(), 2);
    assert_eq!(
        log.get(0),
        "[ ] Powershell function running: -c with payload: Write-Output ready"
    );
}

#[test]
fn readable_artefact_keeps_its_path() {
    let p = "d:\\pagefile.sys".to_string();
    let r = copy_decision(
        &p,
        &"d:".to_string(),
        &"/out".to_string(),
        AccessProbe::Readable,
        Some("ignored".to_string()),
    );
    assert_eq!(r, "d:\\pagefile.sys");
}

#[test]
fn extracted_copy_replaces_locked_path() {
    let r = copy_decision(
        &"d:\\$Extend\\$UsnJrnl:$J".to_string(),
        &"d:".to_string(),
        &"/out".to_string(),
        AccessProbe::Unreadable,
        Some("copied".to_string()),
    );
    assert_eq!(r, "/out/Artefacts/$Extend\\$UsnJrnl_$J");
}

#[test]
fn failed_extraction_keeps_original_path() {
    let r = copy_decision(
        &"d:\\pagefile.sys".to_string(),
        &"d:".to_string(),
        &"/out".to_string(),
        AccessProbe::Unreadable,
        None,
    );
    assert_eq!(r, "d:\\pagefile.sys");
}

#[test]
fn readable_file_probes_readable() {
    assert_eq!(check_access(&"/etc/hosts".to_string()), AccessProbe::Readable);
}
