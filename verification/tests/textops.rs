use wiskess::artmap::ArtifactMap;
use wiskess::logsink::LogSink;
use wiskess::replace_all;
use wiskess::text::count_lines;

#[test]
fn replace_single_token() {
    let r = replace_all("{root}/Windows/$MFT", "{root}", "/mnt/image");
    assert_eq!(r, "/mnt/image/Windows/$MFT");
}

#[test]
fn replace_multiple_occurrences() {
    let r = replace_all("a:b:c:", ":", "%3A");
    assert_eq!(r, "a%3Ab%3Ac%3A");
}

#[test]
fn replace_no_occurrence_is_identity() {
    let r = replace_all("/eve/$MFT", "{root}", "/data");
    assert_eq!(r, "/eve/$MFT");
}

#[test]
fn replace_non_overlapping_left_to_right() {
    let r = replace_all("aaa", "aa", "b");
    assert_eq!(r, "ba");
}

#[test]
fn replace_empty_pattern_is_identity() {
    let r = replace_all("abc", "", "x");
    assert_eq!(r, "abc");
}

#[test]
fn replace_unknown_token_survives() {
    let r = replace_all("tool {inupt} run", "{input}", "/a/b");
    assert_eq!(r, "tool {inupt} run");
}

#[test]
fn count_lines_empty() {
    assert_eq!(count_lines(""), 0);
}

#[test]
fn count_lines_trailing_newline() {
    assert_eq!(count_lines("header\nrow\n"), 2);
}

#[test]
fn count_lines_unterminated_fragment() {
    assert_eq!(count_lines("header\nrow"), 2);
}

#[test]
fn count_lines_single_header_only() {
    assert_eq!(count_lines("header\n"), 1);
}

#[test]
fn artifact_map_insert_and_get() {
    let mut m = ArtifactMap::new();
    m.insert("mft".to_string(), "/eve/$MFT".to_string());
    m.insert("registry".to_string(), "wiskess_none".to_string());
    assert_eq!(m.get(&"mft".to_string()), Some(&"/eve/$MFT".to_string()));
    assert_eq!(m.get(&"registry".to_string()), Some(&"wiskess_none".to_string()));
    assert_eq!(m.get(&"pagefile".to_string()), None);
    assert!(m.contains_key(&"mft".to_string()));
    assert!(!m.contains_key(&"pagefile".to_string()));
}

#[test]
fn log_sink_keeps_messages_whole_and_counts_them() {
    // Three producers of four messages each: the sink must hold exactly
    // twelve lines, each one a delivered message, unchanged.
    let mut log = LogSink::new();
    let mut sent: Vec<String> = Vec::new();
    for task in 0..3 {
        for line in 0..4 {
            let msg = format!("task {} line {}", task, line);
            sent.push(msg.clone());
            log.append(msg);
        }
    }
    assert_eq!(log.len(), 12);
    for i in 0..12 {
        assert_eq!(log.get(i), &sent[i]);
    }
}

#[test]
fn log_sink_drain_empties() {
    let mut log = LogSink::new();
    log.append("one".to_string());
    log.append("two".to_string());
    let out = log.drain();
    assert_eq!(out, vec!["one".to_string(), "two".to_string()]);
    assert_eq!(log.len(), 0);
}
