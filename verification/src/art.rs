//! Artefact resolution: turning declarative path templates into concrete
//! paths against a data source.
//!
//! For each artefact the resolver substitutes `{root}` into the path
//! template, then tries, in a fixed order and stopping at the first success:
//! the direct path (existing on disk, or a glob pattern with a match), the
//! URL-encoded variant of its final segment (`:` becomes `%3A`), and the
//! same two steps against the legacy template when one is declared. An
//! artefact named `none` that resolves nowhere keeps its template verbatim;
//! any other miss yields the unavailable sentinel in silent runs, or the
//! operator's typed answer otherwise.
//!
//! Whether a path exists on disk is environmental, so the decision logic is
//! factored into `resolve_decision`, a pure function over recorded probe
//! outcomes with an exact contract; `check_art` performs the probes and the
//! prompting around it.

use vstd::prelude::*;

use crate::artmap::ArtifactMap;
use crate::configs::Artefacts;
use crate::logsink::LogSink;
use crate::text::replace_all;
use crate::text::spec_replace;

verus! {

/// The reserved value meaning "artefact deliberately unavailable: skip any
/// task that needs it, and do not report it as a failure".
pub open spec fn sentinel_value() -> Seq<char> {
    "wiskess_none"@
}

/// The artefact name that marks a deliberate configuration no-op.
pub open spec fn none_name() -> Seq<char> {
    "none"@
}

/// The placeholder the resolver substitutes with the data-source path.
pub open spec fn root_token() -> Seq<char> {
    "{root}"@
}

/// The unavailable sentinel as a runtime string.
pub fn sentinel_string() -> (r: String)
    ensures
        r@ == sentinel_value(),
{
    "wiskess_none".to_owned()
}

/// Index of the last path separator in `s`, or `-1` when there is none.
pub open spec fn spec_last_sep(s: Seq<char>) -> int
    decreases s.len(),
{
    if s.len() == 0 {
        -1
    } else if s.last() == '/' || s.last() == '\\' {
        s.len() - 1
    } else {
        spec_last_sep(s.drop_last())
    }
}

/// The URL-encoded variant of a path: its final segment with every colon
/// percent-encoded, rejoined to the parent directory. A path without a
/// final segment has no variant.
pub open spec fn spec_enc_variant(s: Seq<char>) -> Option<Seq<char>> {
    let i = spec_last_sep(s);
    if i == s.len() - 1 {
        None
    } else {
        let parent = if i < 0 {
            Seq::<char>::empty()
        } else {
            s.take(i)
        };
        Some(parent + "/"@ + spec_replace(s.skip(i + 1), ":"@, "%3A"@))
    }
}

fn last_sep_pos(s: &str) -> (r: Option<usize>)
    ensures
        match r {
            Some(i) => i < s@.len() && spec_last_sep(s@) == i,
            None => spec_last_sep(s@) == -1,
        },
{
    let len = s.unicode_len();
    let mut j: usize = len;
    proof {
        assert(s@.take(len as int) =~= s@);
    }
    while j > 0
        invariant
            len == s@.len(),
            j <= len,
            spec_last_sep(s@) == spec_last_sep(s@.take(j as int)),
        decreases j,
    {
        let c = s.get_char(j - 1);
        proof {
            assert(s@.take(j as int).last() == s@[j - 1]);
            assert(s@.take(j as int).drop_last() =~= s@.take(j - 1));
        }
        if c == '/' || c == '\\' {
            return Some(j - 1);
        }
        j -= 1;
    }
    proof {
        assert(s@.take(0) =~= Seq::<char>::empty());
    }
    None
}

/// Compute the URL-encoded variant of a path: percent-encode the colons of
/// its final segment and rejoin it to the parent directory.
pub fn get_enc_path(path_str: &String) -> (r: Option<String>)
    ensures
        r.deep_view() == spec_enc_variant(path_str@),
{
    let s = path_str.as_str();
    let len = s.unicode_len();
    let sep = last_sep_pos(s);
    let start: usize = match sep {
        Some(i) => {
            if i + 1 == len {
                return None;
            }
            i + 1
        },
        None => {
            if len == 0 {
                return None;
            }
            0
        },
    };
    let mut out: String = s.substring_char(0, if start == 0 {
        0
    } else {
        start - 1
    }).to_owned();
    out.append("/");
    let name = s.substring_char(start, len);
    let enc = replace_all(name, ":", "%3A");
    out.append(enc.as_str());
    proof {
        let i = spec_last_sep(s@);
        if i < 0 {
            assert(s@.subrange(0, 0) =~= Seq::<char>::empty());
            assert(s@.subrange(0, len as int) =~= s@.skip(i + 1));
        } else {
            assert(s@.subrange(0, i) =~= s@.take(i));
            assert(s@.subrange(i + 1, len as int) =~= s@.skip(i + 1));
        }
    }
    Some(out)
}

/// What the existence probes reported for one artefact's four candidate
/// paths, in resolution order. A candidate after the first hit is never
/// probed; its field is left `false`.
#[derive(Debug, Clone, Copy)]
pub struct ProbeOutcome {
    pub direct: bool,
    pub encoded: bool,
    pub legacy: bool,
    pub legacy_encoded: bool,
}

/// The first candidate path the probes found, in the fixed resolution
/// order: direct, encoded, legacy, encoded legacy.
pub open spec fn spec_candidate(
    path: Seq<char>,
    legacy: Seq<char>,
    root: Seq<char>,
    probes: ProbeOutcome,
) -> Option<Seq<char>> {
    let d = spec_replace(path, root_token(), root);
    let l = spec_replace(legacy, root_token(), root);
    if probes.direct {
        Some(d)
    } else if spec_enc_variant(d) is Some && probes.encoded {
        spec_enc_variant(d)
    } else if legacy.len() > 0 && probes.legacy {
        Some(l)
    } else if legacy.len() > 0 && spec_enc_variant(l) is Some && probes.legacy_encoded {
        spec_enc_variant(l)
    } else {
        None
    }
}

/// Whether resolution missed everywhere for an artefact that is not the
/// `none` no-op: exactly then a not-found message is logged.
pub open spec fn spec_misses(
    name: Seq<char>,
    path: Seq<char>,
    legacy: Seq<char>,
    root: Seq<char>,
    probes: ProbeOutcome,
) -> bool {
    spec_candidate(path, legacy, root, probes) is None && name != none_name()
}

/// Whether the operator is prompted: only on a miss, and never silently.
pub open spec fn spec_prompts(
    name: Seq<char>,
    path: Seq<char>,
    legacy: Seq<char>,
    root: Seq<char>,
    silent: bool,
    probes: ProbeOutcome,
) -> bool {
    spec_misses(name, path, legacy, root, probes) && !silent
}

/// The value stored for an artefact, given the probe outcomes and, when a
/// prompt happened, the operator's answer. `None` means no entry is stored:
/// a canceled prompt.
pub open spec fn spec_resolved(
    name: Seq<char>,
    path: Seq<char>,
    legacy: Seq<char>,
    root: Seq<char>,
    silent: bool,
    probes: ProbeOutcome,
    answer: Option<Seq<char>>,
) -> Option<Seq<char>> {
    match spec_candidate(path, legacy, root, probes) {
        Some(v) => Some(v),
        None => if name == none_name() {
            Some(path)
        } else if silent {
            Some(sentinel_value())
        } else {
            answer
        },
    }
}

/// The outcome of deciding one artefact's resolution.
#[derive(Debug, Clone)]
pub struct ArtDecision {
    /// The value to store in the artefact map, or nothing (canceled prompt).
    pub value: Option<String>,
    /// Whether a not-found message is logged.
    pub missed: bool,
    /// Whether the operator is prompted for a path.
    pub prompted: bool,
}

/// The pure resolution rule: given what the probes reported and what the
/// operator answered (if asked), decide what one artefact resolves to.
pub fn resolve_decision(
    art: &Artefacts,
    root: &String,
    silent: bool,
    probes: ProbeOutcome,
    answer: Option<String>,
) -> (r: ArtDecision)
    ensures
        r.value.deep_view() == spec_resolved(
            art.name@,
            art.path@,
            art.legacy@,
            root@,
            silent,
            probes,
            answer.deep_view(),
        ),
        r.missed == spec_misses(art.name@, art.path@, art.legacy@, root@, probes),
        r.prompted == spec_prompts(art.name@, art.path@, art.legacy@, root@, silent, probes),
{
    let direct = replace_all(art.path.as_str(), "{root}", root.as_str());
    let leg = replace_all(art.legacy.as_str(), "{root}", root.as_str());
    let has_legacy = !art.legacy.as_str().is_empty();
    let candidate: Option<String> = if probes.direct {
        Some(direct)
    } else {
        let enc = get_enc_path(&direct);
        if enc.is_some() && probes.encoded {
            enc
        } else if has_legacy && probes.legacy {
            Some(leg)
        } else {
            let leg_enc = get_enc_path(&leg);
            if has_legacy && leg_enc.is_some() && probes.legacy_encoded {
                leg_enc
            } else {
                None
            }
        }
    };
    let is_none_art = art.name == String::from_str("none");
    match candidate {
        Some(v) => ArtDecision { value: Some(v), missed: false, prompted: false },
        None => {
            if is_none_art {
                ArtDecision { value: Some(art.path.clone()), missed: false, prompted: false }
            } else if silent {
                ArtDecision { value: Some(sentinel_string()), missed: true, prompted: false }
            } else {
                ArtDecision { value: answer, missed: true, prompted: true }
            }
        },
    }
}

/// What probing a pattern against the filesystem via glob reported.
pub enum GlobFirst {
    /// The first match of the pattern.
    Found(String),
    /// The pattern is valid but matches nothing readable.
    NoMatch,
    /// The pattern does not parse; treated as "no match", not a crash.
    BadPattern,
}

/// Relies on std::path::Path::exists: whether the path points at an existing
/// filesystem entity at the moment of the call.
#[verifier::external_body]
fn path_exists(p: &String) -> bool {
    std::path::Path::new(p).exists()
}

/// Relies on glob::glob: whether the pattern parses, and its first match if
/// it has one.
#[verifier::external_body]
pub(crate) fn glob_first(pattern: &String) -> GlobFirst {
    match glob::glob(pattern) {
        Err(_) => GlobFirst::BadPattern,
        Ok(mut paths) => match paths.next() {
            Some(Ok(p)) => GlobFirst::Found(p.display().to_string()),
            Some(Err(_)) => GlobFirst::NoMatch,
            None => GlobFirst::NoMatch,
        },
    }
}

/// Relies on inquire::Text::prompt: the operator's typed answer, or nothing
/// when the prompt is canceled or fails.
#[verifier::external_body]
fn ask_text(msg: &String) -> Option<String> {
    match inquire::Text::new(msg.as_str()).prompt() {
        Ok(s) => Some(s),
        Err(_) => None,
    }
}

/// Whether a path is present: it exists on disk, or it is a glob pattern
/// with at least one match. A glob hit resolves to the pattern string
/// itself, so the caller keeps `p`; downstream consumers re-expand it.
fn probe_path(p: &String) -> bool {
    if path_exists(p) {
        return true;
    }
    match glob_first(p) {
        GlobFirst::Found(_) => true,
        GlobFirst::NoMatch => false,
        GlobFirst::BadPattern => false,
    }
}

/// The not-found message logged for an artefact that resolved nowhere.
pub open spec fn miss_message(name: Seq<char>, path: Seq<char>) -> Seq<char> {
    "[-] Path for "@ + name + " not found at "@ + path
}

fn build_miss_msg(name: &String, path: &String) -> (r: String)
    ensures
        r@ == miss_message(name@, path@),
{
    let mut m: String = "[-] Path for ".to_owned();
    m.append(name.as_str());
    m.append(" not found at ");
    m.append(path.as_str());
    m
}

/// Whether `v` is one of the four candidate paths of an artefact.
pub open spec fn is_candidate_value(
    path: Seq<char>,
    legacy: Seq<char>,
    root: Seq<char>,
    v: Seq<char>,
) -> bool {
    let d = spec_replace(path, root_token(), root);
    let l = spec_replace(legacy, root_token(), root);
    ||| v == d
    ||| spec_enc_variant(d) == Some(v)
    ||| (legacy.len() > 0 && v == l)
    ||| (legacy.len() > 0 && spec_enc_variant(l) == Some(v))
}

/// Whether a log line is the not-found message of one of the declared
/// artefacts: the only kind of line the resolver ever writes.
pub open spec fn is_miss_line(
    artefacts: Seq<Artefacts>,
    root: Seq<char>,
    line: Seq<char>,
) -> bool {
    exists|j: int|
        0 <= j < artefacts.len() && line == miss_message(
            #[trigger] artefacts[j].name@,
            spec_replace(artefacts[j].path@, root_token(), root),
        )
}

/// Whether the map's state for one artefact, under the given probe
/// outcomes and operator answer, is exactly a resolution outcome: the
/// stored value (or the absence of an entry) is `spec_resolved`, and an
/// answer exists only when those probes make the resolver prompt.
pub open spec fn entry_matches(
    a: Artefacts,
    root: Seq<char>,
    silent: bool,
    m: Map<Seq<char>, Seq<char>>,
    p: ProbeOutcome,
    ans: Option<Seq<char>>,
) -> bool {
    &&& (!spec_prompts(a.name@, a.path@, a.legacy@, root, silent, p) ==> ans is None)
    &&& match spec_resolved(a.name@, a.path@, a.legacy@, root, silent, p, ans) {
        Some(v) => m.dom().contains(a.name@) && m[a.name@] == v,
        None => !m.dom().contains(a.name@),
    }
}

/// Whether the map's state for one artefact is a resolution outcome under
/// some probe outcomes and (only when they prompt) some operator answer.
pub open spec fn resolved_entry(
    a: Artefacts,
    root: Seq<char>,
    silent: bool,
    m: Map<Seq<char>, Seq<char>>,
) -> bool {
    exists|p: ProbeOutcome, ans: Option<Seq<char>>| entry_matches(a, root, silent, m, p, ans)
}

proof fn lemma_entry_preserved(
    a: Artefacts,
    root: Seq<char>,
    silent: bool,
    m0: Map<Seq<char>, Seq<char>>,
    m1: Map<Seq<char>, Seq<char>>,
    k: Seq<char>,
    v: Seq<char>,
)
    requires
        resolved_entry(a, root, silent, m0),
        m1 == m0.insert(k, v),
        a.name@ != k,
    ensures
        resolved_entry(a, root, silent, m1),
{
    let (p, ans) = choose|p: ProbeOutcome, ans: Option<Seq<char>>|
        entry_matches(a, root, silent, m0, p, ans);
    assert(entry_matches(a, root, silent, m1, p, ans));
}

/// The `none` no-op always receives an entry, and never the unavailable
/// sentinel: it keeps its template verbatim unless one of its candidate
/// paths probed present.
pub proof fn lemma_none_keeps_template(
    a: Artefacts,
    root: Seq<char>,
    silent: bool,
    m: Map<Seq<char>, Seq<char>>,
)
    requires
        resolved_entry(a, root, silent, m),
        a.name@ == none_name(),
    ensures
        m.dom().contains(a.name@),
        m[a.name@] == a.path@ || is_candidate_value(a.path@, a.legacy@, root, m[a.name@]),
{
    let (p, ans) = choose|p: ProbeOutcome, ans: Option<Seq<char>>|
        entry_matches(a, root, silent, m, p, ans);
    match spec_candidate(a.path@, a.legacy@, root, p) {
        Some(v) => {
            assert(is_candidate_value(a.path@, a.legacy@, root, v));
        },
        None => {},
    }
}

/// Resolve every artefact against the data source, in declaration order,
/// and build the artefact map. A miss is logged; in silent mode it stores
/// the unavailable sentinel; interactively the operator is asked once,
/// resolution is retried once against the typed value, and the value is
/// stored either way (a canceled prompt leaves the name unresolved). Each
/// entry is exactly a resolution outcome under the probes the walk made,
/// with an operator answer entering only where those probes prompted.
pub fn check_art(
    artefacts: &Vec<Artefacts>,
    data_source: &String,
    silent: bool,
    log: &mut LogSink,
) -> (m: ArtifactMap)
    requires
        forall|i: int, j: int|
            0 <= i < j < artefacts@.len() ==> artefacts@[i].name@ != artefacts@[j].name@,
    ensures
        forall|j: int|
            0 <= j < artefacts@.len() && silent ==> m@.dom().contains(artefacts@[j].name@),
        forall|j: int|
            0 <= j < artefacts@.len() ==> resolved_entry(
                #[trigger] artefacts@[j],
                data_source@,
                silent,
                m@,
            ),
        forall|j: int|
            0 <= j < artefacts@.len() && (#[trigger] artefacts@[j].name@) == none_name()
                ==> m@.dom().contains(artefacts@[j].name@),
        forall|k: Seq<char>|
            m@.dom().contains(k) ==> exists|j: int|
                0 <= j < artefacts@.len() && artefacts@[j].name@ == k,
        old(log)@.is_prefix_of(final(log)@),
        forall|k: int|
            old(log)@.len() <= k < final(log)@.len() ==> is_miss_line(
                artefacts@,
                data_source@,
                #[trigger] final(log)@[k],
            ),
{
    let mut m = ArtifactMap::new();
    let n = artefacts.len();
    let mut i: usize = 0;
    while i < n
        invariant
            n == artefacts@.len(),
            i <= n,
            forall|p: int, q: int|
                0 <= p < q < artefacts@.len() ==> artefacts@[p].name@ != artefacts@[q].name@,
            forall|j: int| 0 <= j < i && silent ==> m@.dom().contains(artefacts@[j].name@),
            forall|j: int|
                0 <= j < i ==> resolved_entry(
                    #[trigger] artefacts@[j],
                    data_source@,
                    silent,
                    m@,
                ),
            forall|j: int|
                0 <= j < i && (#[trigger] artefacts@[j].name@) == none_name()
                    ==> m@.dom().contains(artefacts@[j].name@),
            forall|k: Seq<char>|
                m@.dom().contains(k) ==> exists|j: int|
                    0 <= j < i && artefacts@[j].name@ == k,
            old(log)@.is_prefix_of(log@),
            forall|k: int|
                old(log)@.len() <= k < log@.len() ==> is_miss_line(
                    artefacts@,
                    data_source@,
                    #[trigger] log@[k],
                ),
        decreases n - i,
    {
        let art = &artefacts[i];
        let direct = replace_all(art.path.as_str(), "{root}", data_source.as_str());
        let d_hit = probe_path(&direct);
        let mut e_hit = false;
        let mut l_hit = false;
        let mut le_hit = false;
        if !d_hit {
            match get_enc_path(&direct) {
                Some(e) => {
                    e_hit = probe_path(&e);
                },
                None => {},
            }
            if !e_hit && !art.legacy.as_str().is_empty() {
                let leg = replace_all(art.legacy.as_str(), "{root}", data_source.as_str());
                l_hit = probe_path(&leg);
                if !l_hit {
                    match get_enc_path(&leg) {
                        Some(le) => {
                            le_hit = probe_path(&le);
                        },
                        None => {},
                    }
                }
            }
        }
        let probes = ProbeOutcome {
            direct: d_hit,
            encoded: e_hit,
            legacy: l_hit,
            legacy_encoded: le_hit,
        };
        let pre = resolve_decision(art, data_source, silent, probes, None);
        if pre.missed {
            let ghost pre_log = log@;
            log.append(build_miss_msg(&art.name, &direct));
            proof {
                assert forall|k: int| old(log)@.len() <= k < log@.len() implies is_miss_line(
                    artefacts@,
                    data_source@,
                    #[trigger] log@[k],
                ) by {
                    if k < pre_log.len() {
                        assert(log@[k] == pre_log[k]);
                    } else {
                        assert(artefacts@[i as int].name@ == artefacts@[i as int].name@);
                        assert(log@[k] == miss_message(
                            artefacts@[i as int].name@,
                            spec_replace(
                                artefacts@[i as int].path@,
                                root_token(),
                                data_source@,
                            ),
                        ));
                    }
                }
            }
        }
        let answer: Option<String> = if pre.prompted {
            let mut q: String = "What is the file path of ".to_owned();
            q.append(art.name.as_str());
            q.append("?");
            let a = ask_text(&q);
            // Retry resolution once against the typed value. A typed path
            // that exists (or glob-matches) resolves to the typed string
            // itself, and a failed retry stores the typed string verbatim,
            // trusting the operator over the resolver: only the probe
            // remains, and the answer stands either way.
            match &a {
                Some(v) => {
                    probe_path(v);
                },
                None => {},
            }
            a
        } else {
            None
        };
        let ghost gans = answer.deep_view();
        let decision = if pre.prompted {
            resolve_decision(art, data_source, silent, probes, answer)
        } else {
            pre
        };
        let ghost gval = decision.value.deep_view();
        let ghost pm = m@;
        proof {
            // the artefact's own name is still unmapped: names are
            // distinct and the map holds only earlier names
            if m@.dom().contains(art.name@) {
                let j = choose|j: int| 0 <= j < i && artefacts@[j].name@ == art.name@;
                assert(artefacts@[j].name@ != artefacts@[i as int].name@);
            }
        }
        match decision.value {
            Some(v) => {
                m.insert(art.name.clone(), v);
            },
            None => {},
        }
        proof {
            assert(entry_matches(artefacts@[i as int], data_source@, silent, m@, probes, gans));
            assert(resolved_entry(artefacts@[i as int], data_source@, silent, m@));
            assert forall|j: int| 0 <= j < i implies resolved_entry(
                #[trigger] artefacts@[j],
                data_source@,
                silent,
                m@,
            ) by {
                if gval is Some {
                    assert(artefacts@[j].name@ != artefacts@[i as int].name@);
                    lemma_entry_preserved(
                        artefacts@[j],
                        data_source@,
                        silent,
                        pm,
                        m@,
                        artefacts@[i as int].name@,
                        gval->0,
                    );
                }
            }
            if artefacts@[i as int].name@ == none_name() {
                assert(gval is Some);
            }
        }
        i += 1;
    }
    m
}

/// Resolution order: when an artefact's direct path and its encoded variant
/// are absent but its declared legacy path exists, resolution returns the
/// legacy path and never prompts the operator, whatever `silent` is.
pub proof fn lemma_resolution_order(
    name: Seq<char>,
    path: Seq<char>,
    legacy: Seq<char>,
    root: Seq<char>,
    silent: bool,
    probes: ProbeOutcome,
    answer: Option<Seq<char>>,
)
    requires
        !probes.direct,
        !probes.encoded,
        legacy.len() > 0,
        probes.legacy,
    ensures
        spec_resolved(name, path, legacy, root, silent, probes, answer) == Some(
            spec_replace(legacy, root_token(), root),
        ),
        !spec_prompts(name, path, legacy, root, silent, probes),
{
}

/// The destination a locked artefact is copied to: the file's path with
/// the base drive prefix stripped and every colon renamed to an
/// underscore (the extractor stores alternate data streams that way),
/// under the run's `Artefacts` folder.
pub open spec fn spec_copied_path(
    out_path: Seq<char>,
    base: Seq<char>,
    path: Seq<char>,
) -> Seq<char> {
    crate::exe_ops::spec_join(
        crate::exe_ops::spec_join(out_path, "Artefacts"@),
        spec_replace(spec_replace(path, base + "\\"@, Seq::<char>::empty()), ":"@, "_"@),
    )
}

/// The input-binding copy fallback: when a direct read of a resolved
/// artefact is denied (a locked file on a mounted volume), the
/// record-level extractor is asked for a copy; on success the copy's path
/// under the `Artefacts` folder replaces the original, and on failure the
/// original path is used as-is and the task proceeds (the validator
/// surfaces what then fails downstream). A readable artefact keeps its
/// path.
pub fn copy_decision(
    path: &String,
    base: &String,
    out_path: &String,
    access: crate::file_ops::AccessProbe,
    extracted: Option<String>,
) -> (r: String)
    ensures
        access is Readable ==> r@ == path@,
        access is Unreadable && extracted is Some ==> r@ == spec_copied_path(
            out_path@,
            base@,
            path@,
        ),
        access is Unreadable && extracted is None ==> r@ == path@,
{
    match access {
        crate::file_ops::AccessProbe::Readable => path.clone(),
        crate::file_ops::AccessProbe::Unreadable => match extracted {
            Some(_) => {
                let mut prefix = base.clone();
                prefix.append("\\");
                let filename = replace_all(path.as_str(), prefix.as_str(), "");
                let renamed = replace_all(filename.as_str(), ":", "_");
                let dest = crate::exe_ops::join_path(out_path, &"Artefacts".to_owned());
                let r = crate::exe_ops::join_path(&dest, &renamed);
                proof {
                    reveal_strlit("");
                    assert(""@ =~= Seq::<char>::empty());
                }
                r
            },
            None => path.clone(),
        },
    }
}

/// A silent run never prompts: an artefact (other than the `none` no-op)
/// whose direct, encoded and legacy candidates all probed absent resolves
/// to the unavailable sentinel.
pub proof fn lemma_silent_miss_is_sentinel(
    name: Seq<char>,
    path: Seq<char>,
    legacy: Seq<char>,
    root: Seq<char>,
    probes: ProbeOutcome,
    answer: Option<Seq<char>>,
)
    requires
        !probes.direct,
        !probes.encoded,
        !probes.legacy,
        !probes.legacy_encoded,
        name != none_name(),
    ensures
        spec_resolved(name, path, legacy, root, true, probes, answer) == Some(sentinel_value()),
        !spec_prompts(name, path, legacy, root, true, probes),
{
}

} // verus!
