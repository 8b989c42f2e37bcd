use vstd::prelude::*;
use crate::audio_metadata::{
    feed_entry_outcome, feed_entry_report, AudioMetadataError, FeedEntryContext, FeedEntryMetadata,
};
use crate::cli_output::texts;
use crate::host_identity::{HostIdentityError, HostSummary, IdentitySummary};
use crate::project_format::{
    manifest_issues, validate_manifest, Manifest, ProjectFiles, ProjectFormatError, PublishTarget,
};
use crate::order::{is_sorted, stable_sort, SortOrder};
use crate::text::{
    clone_opt, concat, lemma_lex_le_antisymmetric, lemma_lex_le_reflexive, lemma_lex_le_total,
    lemma_lex_le_transitive, lex_le, string_of, text_eq, text_le,
};
use crate::validation::{views, with_severity, IssueView, Severity, ValidationIssue, ValidationReport};

verus! {

/// How a host or an identity that a target names was resolved.
#[derive(Debug, Clone, Copy, PartialEq, Eq, Structural)]
pub enum ResolutionStatus {
    NotRequired,
    Resolved,
    Missing,
    Blocked,
    Invalid,
}

/// The resolution of a host or an identity: its id, its status and a
/// sentence on why.
#[derive(Debug, Clone)]
pub struct Resolution {
    pub id: String,
    pub status: ResolutionStatus,
    pub detail: String,
}

/// Where a dry run looks for host and identity records.
#[derive(Debug, Clone, Default)]
pub struct PublishContext {
    pub hosts_root: Option<String>,
    pub identities_root: Option<String>,
}

/// The ways planning a publication can fail.
#[derive(Debug)]
pub enum PublishPlanError {
    Project(ProjectFormatError),
    ProjectInvalid,
    TargetNotFound(String),
    ReadDirectoryFailed { path: String, message: String },
}

/// A resolution stops the publication when its record is missing, blocked or invalid.
pub open spec fn status_blocks(s: ResolutionStatus) -> bool {
    s == ResolutionStatus::Missing || s == ResolutionStatus::Blocked || s
        == ResolutionStatus::Invalid
}

pub open spec fn blocks(r: Option<Resolution>) -> bool {
    match r {
        Some(res) => status_blocks(res.status),
        None => false,
    }
}

/// Whether a resolution stops the publication.
pub fn resolution_blocks(resolution: &Option<Resolution>) -> (r: bool)
    ensures
        r == blocks(*resolution),
{
    match resolution {
        Some(res) => match res.status {
            ResolutionStatus::Missing => true,
            ResolutionStatus::Blocked => true,
            ResolutionStatus::Invalid => true,
            _ => false,
        },
        None => false,
    }
}

/// The targets of a manifest.
pub open spec fn manifest_targets(m: Manifest) -> Seq<PublishTarget> {
    match m.publish {
        Some(p) => match p.targets {
            Some(ts) => ts@,
            None => Seq::empty(),
        },
        None => Seq::empty(),
    }
}

/// The position of the first target with a name.
pub open spec fn first_target(targets: Seq<PublishTarget>, name: Seq<char>) -> Option<int>
    decreases targets.len(),
{
    if targets.len() == 0 {
        None
    } else if targets[0].name@ == name {
        Some(0)
    } else {
        match first_target(targets.drop_first(), name) {
            Some(k) => Some(k + 1),
            None => None,
        }
    }
}

proof fn lemma_first_target(targets: Seq<PublishTarget>, name: Seq<char>, i: int)
    requires
        0 <= i <= targets.len(),
        forall|j: int| 0 <= j < i ==> (#[trigger] targets[j]).name@ != name,
    ensures
        i < targets.len() && targets[i].name@ == name ==> first_target(targets, name) == Some(i),
        i == targets.len() ==> first_target(targets, name) is None,
    decreases i,
{
    if i > 0 {
        lemma_first_target(targets.drop_first(), name, i - 1);
    }
}

/// The first target named `target_name`.
pub fn find_target<'a>(manifest: &'a Manifest, target_name: &str) -> (r: Result<
    &'a PublishTarget,
    PublishPlanError,
>)
    ensures
        match first_target(manifest_targets(*manifest), target_name@) {
            Some(i) => r matches Ok(t) && *t == manifest_targets(*manifest)[i],
            None => r matches Err(PublishPlanError::TargetNotFound(n)) && n@ == target_name@,
        },
{
    if let Some(p) = &manifest.publish {
        if let Some(targets) = &p.targets {
            let mut i: usize = 0;
            while i < targets.len()
                invariant
                    i <= targets@.len(),
                    manifest_targets(*manifest) == targets@,
                    forall|j: int| 0 <= j < i ==> (#[trigger] targets@[j]).name@ != target_name@,
                decreases targets@.len() - i,
            {
                if text_eq(targets[i].name.as_str(), target_name) {
                    proof {
                        lemma_first_target(targets@, target_name@, i as int);
                    }
                    return Ok(&targets[i]);
                }
                i = i + 1;
            }
            proof {
                lemma_first_target(targets@, target_name@, i as int);
            }
        }
    }
    Err(PublishPlanError::TargetNotFound(string_of(target_name)))
}

/// Where a target publishes to: its URL, else its host, else its path.
pub open spec fn destination_of(t: PublishTarget) -> Option<String> {
    match t.url {
        Some(u) => Some(u),
        None => match t.host {
            Some(h) => Some(h),
            None => t.path,
        },
    }
}

/// Where a target publishes to: its URL, else its host, else its path.
pub fn destination_for(target: &PublishTarget) -> (r: Option<String>)
    ensures
        r == destination_of(*target),
{
    match &target.url {
        Some(u) => Some(u.clone()),
        None => match &target.host {
            Some(h) => Some(h.clone()),
            None => match &target.path {
                Some(p) => Some(p.clone()),
                None => None,
            },
        },
    }
}

// ---------------------------------------------------------------------------
// Resolving hosts and identities
// ---------------------------------------------------------------------------

/// A host listed under the hosts root, with the check of its record.
#[derive(Debug)]
pub struct HostCandidate {
    pub summary: HostSummary,
    pub validation: Result<ValidationReport, HostIdentityError>,
}

/// An identity listed under the identities root, with the check of its record.
#[derive(Debug)]
pub struct IdentityCandidate {
    pub summary: IdentitySummary,
    pub validation: Result<ValidationReport, HostIdentityError>,
}

/// A resolution with the given id, status and detail.
pub open spec fn is_resolution(
    r: Option<Resolution>,
    id: Seq<char>,
    status: ResolutionStatus,
    detail: Seq<char>,
) -> bool {
    r matches Some(res) && res.id@ == id && res.status == status && res.detail@ == detail
}

/// The position of the first listed host with an id.
pub open spec fn first_host(hosts: Seq<HostCandidate>, id: Seq<char>) -> Option<int>
    decreases hosts.len(),
{
    if hosts.len() == 0 {
        None
    } else if hosts[0].summary.id@ == id {
        Some(0)
    } else {
        match first_host(hosts.drop_first(), id) {
            Some(k) => Some(k + 1),
            None => None,
        }
    }
}

/// The position of the first listed identity with an id.
pub open spec fn first_identity(identities: Seq<IdentityCandidate>, id: Seq<char>) -> Option<int>
    decreases identities.len(),
{
    if identities.len() == 0 {
        None
    } else if identities[0].summary.id@ == id {
        Some(0)
    } else {
        match first_identity(identities.drop_first(), id) {
            Some(k) => Some(k + 1),
            None => None,
        }
    }
}

proof fn lemma_first_host(hosts: Seq<HostCandidate>, id: Seq<char>, i: int)
    requires
        0 <= i <= hosts.len(),
        forall|j: int| 0 <= j < i ==> (#[trigger] hosts[j]).summary.id@ != id,
    ensures
        i < hosts.len() && hosts[i].summary.id@ == id ==> first_host(hosts, id) == Some(i),
        i == hosts.len() ==> first_host(hosts, id) is None,
    decreases i,
{
    if i > 0 {
        lemma_first_host(hosts.drop_first(), id, i - 1);
    }
}

proof fn lemma_first_identity(identities: Seq<IdentityCandidate>, id: Seq<char>, i: int)
    requires
        0 <= i <= identities.len(),
        forall|j: int| 0 <= j < i ==> (#[trigger] identities[j]).summary.id@ != id,
    ensures
        i < identities.len() && identities[i].summary.id@ == id ==> first_identity(identities, id)
            == Some(i),
        i == identities.len() ==> first_identity(identities, id) is None,
    decreases i,
{
    if i > 0 {
        lemma_first_identity(identities.drop_first(), id, i - 1);
    }
}

/// How the host that a target names resolves: not named, no hosts root,
/// an unreadable root, no such host, an unchecked or invalid record, or resolved.
pub open spec fn host_resolution(
    host: Option<String>,
    hosts: Option<Result<Vec<HostCandidate>, HostIdentityError>>,
    r: Option<Resolution>,
) -> bool {
    match host {
        None => r is None,
        Some(id) => match hosts {
            None => is_resolution(
                r,
                id@,
                ResolutionStatus::Missing,
                "host metadata root was not provided"@,
            ),
            Some(Err(_)) => is_resolution(
                r,
                id@,
                ResolutionStatus::Missing,
                "host metadata root could not be read"@,
            ),
            Some(Ok(hs)) => match first_host(hs@, id@) {
                None => is_resolution(
                    r,
                    id@,
                    ResolutionStatus::Missing,
                    "host record was not found"@,
                ),
                Some(k) => match hs@[k].validation {
                    Err(_) => is_resolution(
                        r,
                        id@,
                        ResolutionStatus::Invalid,
                        "host record could not be validated"@,
                    ),
                    Ok(report) => if !report.valid {
                        is_resolution(r, id@, ResolutionStatus::Invalid, "host record is invalid"@)
                    } else {
                        is_resolution(
                            r,
                            id@,
                            ResolutionStatus::Resolved,
                            "host "@ + hs@[k].summary.id@ + " resolved at "@
                                + hs@[k].summary.address@,
                        )
                    },
                },
            },
        },
    }
}

/// How the identity that a target names resolves.
pub open spec fn identity_resolution(
    identity: Option<String>,
    identities: Option<Result<Vec<IdentityCandidate>, HostIdentityError>>,
    r: Option<Resolution>,
) -> bool {
    match identity {
        None => r is None,
        Some(id) => match identities {
            None => is_resolution(
                r,
                id@,
                ResolutionStatus::Missing,
                "identity metadata root was not provided"@,
            ),
            Some(Err(_)) => is_resolution(
                r,
                id@,
                ResolutionStatus::Missing,
                "identity metadata root could not be read"@,
            ),
            Some(Ok(is)) => match first_identity(is@, id@) {
                None => is_resolution(
                    r,
                    id@,
                    ResolutionStatus::Missing,
                    "identity record was not found"@,
                ),
                Some(k) => match is@[k].validation {
                    Err(_) => is_resolution(
                        r,
                        id@,
                        ResolutionStatus::Invalid,
                        "identity record could not be validated"@,
                    ),
                    Ok(report) => if !report.valid {
                        is_resolution(
                            r,
                            id@,
                            ResolutionStatus::Invalid,
                            "identity record is invalid"@,
                        )
                    } else {
                        is_resolution(
                            r,
                            id@,
                            ResolutionStatus::Resolved,
                            "identity "@ + is@[k].summary.id@ + " resolved"@,
                        )
                    },
                },
            },
        },
    }
}

fn resolution(id: &String, status: ResolutionStatus, detail: &str) -> (r: Option<Resolution>)
    ensures
        is_resolution(r, id@, status, detail@),
{
    Some(Resolution { id: id.clone(), status, detail: string_of(detail) })
}

/// Resolves the host that a target names among the hosts listed under the
/// hosts root (`None` when no root was given).
pub fn resolve_host(
    target: &PublishTarget,
    hosts: &Option<Result<Vec<HostCandidate>, HostIdentityError>>,
) -> (r: Option<Resolution>)
    ensures
        host_resolution(target.host, *hosts, r),
{
    let host_id = match &target.host {
        None => return None,
        Some(h) => h,
    };
    let list = match hosts {
        None => return resolution(host_id, ResolutionStatus::Missing, "host metadata root was not provided"),
        Some(Err(_)) => return resolution(
            host_id,
            ResolutionStatus::Missing,
            "host metadata root could not be read",
        ),
        Some(Ok(list)) => list,
    };
    let mut i: usize = 0;
    while i < list.len()
        invariant
            i <= list@.len(),
            target.host == Some(*host_id),
            *hosts matches Some(Ok(l)) && l == *list,
            forall|j: int| 0 <= j < i ==> (#[trigger] list@[j]).summary.id@ != host_id@,
        decreases list@.len() - i,
    {
        if text_eq(list[i].summary.id.as_str(), host_id.as_str()) {
            proof {
                lemma_first_host(list@, host_id@, i as int);
            }
            let candidate = &list[i];
            return match &candidate.validation {
                Err(_) => resolution(
                    host_id,
                    ResolutionStatus::Invalid,
                    "host record could not be validated",
                ),
                Ok(report) => if !report.valid {
                    resolution(host_id, ResolutionStatus::Invalid, "host record is invalid")
                } else {
                    let mut detail = concat("host ", candidate.summary.id.as_str());
                    detail.append(" resolved at ");
                    detail.append(candidate.summary.address.as_str());
                    Some(
                        Resolution {
                            id: host_id.clone(),
                            status: ResolutionStatus::Resolved,
                            detail,
                        },
                    )
                },
            };
        }
        i = i + 1;
    }
    proof {
        lemma_first_host(list@, host_id@, i as int);
    }
    resolution(host_id, ResolutionStatus::Missing, "host record was not found")
}

/// Resolves the identity that a target names among the identities listed
/// under the identities root (`None` when no root was given).
pub fn resolve_identity(
    target: &PublishTarget,
    identities: &Option<Result<Vec<IdentityCandidate>, HostIdentityError>>,
) -> (r: Option<Resolution>)
    ensures
        identity_resolution(target.identity, *identities, r),
{
    let identity_id = match &target.identity {
        None => return None,
        Some(h) => h,
    };
    let list = match identities {
        None => return resolution(
            identity_id,
            ResolutionStatus::Missing,
            "identity metadata root was not provided",
        ),
        Some(Err(_)) => return resolution(
            identity_id,
            ResolutionStatus::Missing,
            "identity metadata root could not be read",
        ),
        Some(Ok(list)) => list,
    };
    let mut i: usize = 0;
    while i < list.len()
        invariant
            i <= list@.len(),
            target.identity == Some(*identity_id),
            *identities matches Some(Ok(l)) && l == *list,
            forall|j: int| 0 <= j < i ==> (#[trigger] list@[j]).summary.id@ != identity_id@,
        decreases list@.len() - i,
    {
        if text_eq(list[i].summary.id.as_str(), identity_id.as_str()) {
            proof {
                lemma_first_identity(list@, identity_id@, i as int);
            }
            let candidate = &list[i];
            return match &candidate.validation {
                Err(_) => resolution(
                    identity_id,
                    ResolutionStatus::Invalid,
                    "identity record could not be validated",
                ),
                Ok(report) => if !report.valid {
                    resolution(identity_id, ResolutionStatus::Invalid, "identity record is invalid")
                } else {
                    let mut detail = concat("identity ", candidate.summary.id.as_str());
                    detail.append(" resolved");
                    Some(
                        Resolution {
                            id: identity_id.clone(),
                            status: ResolutionStatus::Resolved,
                            detail,
                        },
                    )
                },
            };
        }
        i = i + 1;
    }
    proof {
        lemma_first_identity(list@, identity_id@, i as int);
    }
    resolution(identity_id, ResolutionStatus::Missing, "identity record was not found")
}

// ---------------------------------------------------------------------------
// The files to publish
// ---------------------------------------------------------------------------

/// Texts in lexicographic order.
impl SortOrder for String {
    open spec fn precedes(a: Self, b: Self) -> bool {
        lex_le(a@, b@)
    }

    proof fn precedes_transitive(a: Self, b: Self, c: Self) {
        lemma_lex_le_transitive(a@, b@, c@);
    }

    proof fn precedes_total(a: Self, b: Self) {
        lemma_lex_le_total(a@, b@);
    }

    fn precedes_exec(&self, other: &Self) -> (r: bool) {
        text_le(self.as_str(), other.as_str())
    }
}

/// The texts of a list of strings, as a set.
pub open spec fn text_set(s: Seq<String>) -> Set<Seq<char>> {
    Set::new(|t: Seq<char>| exists|i: int| 0 <= i < s.len() && (#[trigger] s[i])@ == t)
}

/// Each text comes strictly before the next: sorted, and nothing twice.
pub open spec fn strictly_sorted(s: Seq<String>) -> bool {
    forall|i: int, j: int|
        0 <= i < j < s.len() ==> lex_le((#[trigger] s[i])@, (#[trigger] s[j])@) && s[i]@ != s[j]@
}

/// The texts of `v`, sorted, each once.
pub fn sorted_unique(v: Vec<String>) -> (r: Vec<String>)
    ensures
        strictly_sorted(r@),
        text_set(r@) == text_set(v@),
{
    broadcast use vstd::seq_lib::group_to_multiset_ensures;

    let ghost orig = v@;
    let sorted = stable_sort(v);
    let ghost srt = sorted@;
    assert(text_set(srt) =~= text_set(orig)) by {
        assert forall|t: Seq<char>| text_set(srt).contains(t) implies text_set(orig).contains(t) by {
            let i = choose|i: int| 0 <= i < srt.len() && (#[trigger] srt[i])@ == t;
            assert(srt.to_multiset().count(srt[i]) > 0);
            assert(orig.contains(srt[i]));
            let j = choose|j: int| 0 <= j < orig.len() && orig[j] == srt[i];
            assert(orig[j]@ == t);
        }
        assert forall|t: Seq<char>| text_set(orig).contains(t) implies text_set(srt).contains(t) by {
            let i = choose|i: int| 0 <= i < orig.len() && (#[trigger] orig[i])@ == t;
            assert(orig.to_multiset().count(orig[i]) > 0);
            assert(srt.contains(orig[i]));
            let j = choose|j: int| 0 <= j < srt.len() && srt[j] == orig[i];
            assert(srt[j]@ == t);
        }
    }
    let mut out: Vec<String> = Vec::new();
    let mut i: usize = 0;
    while i < sorted.len()
        invariant
            i <= sorted@.len(),
            srt == sorted@,
            is_sorted(srt),
            strictly_sorted(out@),
            text_set(out@) == text_set(srt.take(i as int)),
            i > 0 ==> out@.len() > 0 && out@.last()@ == srt[i - 1]@,
            i == 0 ==> out@.len() == 0,
        decreases srt.len() - i,
    {
        let keep = out.len() == 0 || !text_eq(out[out.len() - 1].as_str(), sorted[i].as_str());
        let ghost before = out@;
        if keep {
            out.push(sorted[i].clone());
            proof {
                assert forall|a: int, b: int| 0 <= a < b < out@.len() implies lex_le(
                    (#[trigger] out@[a])@,
                    (#[trigger] out@[b])@,
                ) && out@[a]@ != out@[b]@ by {
                    if b == out@.len() - 1 && a < b {
                        // out[a] <= last(before) <= srt[i], and last(before) != srt[i]
                        let l = before.len() - 1;
                        if a < l {
                            assert(lex_le(before[a]@, before[l]@) && before[a]@ != before[l]@);
                        }
                        assert(String::precedes(srt[i - 1], srt[i as int]));
                        lemma_lex_le_reflexive(before[l]@);
                        lemma_lex_le_transitive(before[a]@, before[l]@, srt[i as int]@);
                        if before[a]@ == srt[i as int]@ {
                            lemma_lex_le_reflexive(before[l]@);
                            lemma_lex_le_antisymmetric(before[a]@, before[l]@);
                        }
                    }
                }
            }
        }
        proof {
            assert(text_set(out@) =~= text_set(srt.take(i + 1))) by {
                assert(srt.take(i + 1) =~= srt.take(i as int).push(srt[i as int]));
                assert forall|t: Seq<char>| text_set(srt.take(i + 1)).contains(t) implies text_set(
                    out@,
                ).contains(t) by {
                    let k = choose|k: int|
                        0 <= k < srt.take(i + 1).len() && (#[trigger] srt.take(i + 1)[k])@ == t;
                    if k < i {
                        assert(srt.take(i as int)[k]@ == t);
                        assert(text_set(srt.take(i as int)).contains(t));
                        assert(text_set(before).contains(t));
                        let m = choose|m: int| 0 <= m < before.len() && (#[trigger] before[m])@ == t;
                        assert(out@[m]@ == t);
                    } else if keep {
                        assert(out@[out@.len() - 1]@ == t);
                    } else {
                        assert(out@[out@.len() - 1]@ == t);
                    }
                }
                assert forall|t: Seq<char>| text_set(out@).contains(t) implies text_set(
                    srt.take(i + 1),
                ).contains(t) by {
                    let m = choose|m: int| 0 <= m < out@.len() && (#[trigger] out@[m])@ == t;
                    if m < before.len() {
                        assert(before[m]@ == t);
                        assert(text_set(before).contains(t));
                        assert(text_set(srt.take(i as int)).contains(t));
                        let k = choose|k: int|
                            0 <= k < srt.take(i as int).len() && (#[trigger] srt.take(i as int)[k])@ == t;
                        assert(srt.take(i + 1)[k]@ == t);
                    } else {
                        assert(srt.take(i + 1)[i as int]@ == t);
                    }
                }
            }
        }
        i = i + 1;
    }
    assert(srt.take(srt.len() as int) =~= srt);
    out
}

/// The files found for publication: those under the content root, and those
/// under the audio published directory (empty when the manifest names none).
#[derive(Debug)]
pub struct PublishableFiles {
    pub content: Vec<String>,
    pub audio_published: Vec<String>,
}

/// Every file that a publication carries, before sorting: the content, the
/// feed file when it is there, and the published audio.
pub open spec fn gathered_files(m: Manifest, feed_file_is_file: bool, found: PublishableFiles) -> Seq<
    String,
> {
    let feed = match m.feed {
        Some(f) => match f.path {
            Some(p) => if feed_file_is_file {
                seq![p]
            } else {
                Seq::empty()
            },
            None => Seq::empty(),
        },
        None => Seq::empty(),
    };
    let audio = match m.audio {
        Some(a) => if a.published is Some {
            found.audio_published@
        } else {
            Seq::empty()
        },
        None => Seq::empty(),
    };
    found.content@ + feed + audio
}

/// The files that a publication carries, sorted and each once. `found` is
/// what walking the project gave, or the failure to read a directory.
pub fn collect_publishable_files(
    manifest: &Manifest,
    feed_file_is_file: bool,
    found: Result<PublishableFiles, PublishPlanError>,
) -> (r: Result<Vec<String>, PublishPlanError>)
    ensures
        match found {
            Err(e) => r == Err::<Vec<String>, PublishPlanError>(e),
            Ok(f) => r matches Ok(files) && strictly_sorted(files@) && text_set(files@)
                == text_set(gathered_files(*manifest, feed_file_is_file, f)),
        },
{
    let f = match found {
        Err(e) => return Err(e),
        Ok(f) => f,
    };
    let ghost gathered = gathered_files(*manifest, feed_file_is_file, f);
    let PublishableFiles { content, audio_published } = f;
    let mut all = content;
    if let Some(feed) = &manifest.feed {
        if let Some(path) = &feed.path {
            if feed_file_is_file {
                all.push(path.clone());
            }
        }
    }
    if let Some(audio) = &manifest.audio {
        if audio.published.is_some() {
            let mut audio_published = audio_published;
            all.append(&mut audio_published);
        }
    }
    assert(all@ =~= gathered);
    Ok(sorted_unique(all))
}

// ---------------------------------------------------------------------------
// The feed's state
// ---------------------------------------------------------------------------

/// A prepared feed entry that failed its check: its path and why.
#[derive(Debug, Clone)]
pub struct FeedEntryDiagnostic {
    pub path: String,
    pub issues: Vec<String>,
}

/// What a publication finds of the project's feed and prepared entries.
#[derive(Debug, Clone)]
pub struct FeedPublicationState {
    pub configured: bool,
    pub enabled: bool,
    pub feed_type: Option<String>,
    pub path: Option<String>,
    pub exists: bool,
    pub prepared_entries: usize,
    pub invalid_entries: usize,
    pub invalid_entry_diagnostics: Vec<FeedEntryDiagnostic>,
}

/// One `.toml` item found under `feeds/entries`: unreadable, or an entry with
/// its path relative to the project, the metadata it holds (or the failure
/// to load it), and the context its check reads.
#[derive(Debug)]
pub enum ScannedFeedEntry {
    Unreadable,
    Entry { relative_path: String, entry: Result<FeedEntryMetadata, AudioMetadataError>, context: FeedEntryContext },
}

/// What listing `feeds/entries` gives: not a directory, unreadable, or its items.
#[derive(Debug)]
pub enum FeedEntryScan {
    NotDirectory,
    Unreadable,
    Items(Vec<ScannedFeedEntry>),
}

/// A diagnostic as plain values.
pub struct DiagnosticView {
    pub path: Seq<char>,
    pub issues: Seq<Seq<char>>,
}

pub open spec fn diagnostic_view(d: FeedEntryDiagnostic) -> DiagnosticView {
    DiagnosticView { path: d.path@, issues: texts(d.issues@) }
}

pub open spec fn diagnostic_views(s: Seq<FeedEntryDiagnostic>) -> Seq<DiagnosticView> {
    s.map_values(|d: FeedEntryDiagnostic| diagnostic_view(d))
}

/// What one item counts for: a prepared entry of this feed, nothing, or an
/// invalid entry with its diagnostic.
pub enum EntryTally {
    Prepared,
    Other,
    Invalid(DiagnosticView),
}

pub open spec fn invalid_tally(path: Seq<char>, issue: Seq<char>) -> EntryTally {
    EntryTally::Invalid(DiagnosticView { path, issues: seq![issue] })
}

pub open spec fn issue_messages(s: Seq<IssueView>) -> Seq<Seq<char>> {
    s.map_values(|i: IssueView| i.message)
}

/// Whether an entry belongs to the feed at `feed_path` (any feed when there is none).
pub open spec fn entry_in_feed(fe: FeedEntryMetadata, feed_path: Option<String>) -> bool {
    match feed_path {
        None => true,
        Some(p) => match fe.entry {
            Some(e) => match e.feed {
                Some(f) => f@ == p@,
                None => false,
            },
            None => false,
        },
    }
}

/// What an item counts for.
#[verifier::opaque]
pub open spec fn tally(item: ScannedFeedEntry, feed_path: Option<String>) -> EntryTally {
    match item {
        ScannedFeedEntry::Unreadable => invalid_tally(
            "feeds/entries"@,
            "feed entry directory item could not be read"@,
        ),
        ScannedFeedEntry::Entry { relative_path, entry, context } => match entry {
            Err(_) => invalid_tally(relative_path@, "feed entry could not be validated"@),
            Ok(fe) => match feed_entry_outcome(fe, context) {
                Err(_) => invalid_tally(relative_path@, "feed entry could not be validated"@),
                Ok(issues) => if with_severity(issues, Severity::Error).len() > 0 {
                    EntryTally::Invalid(
                        DiagnosticView {
                            path: relative_path@,
                            issues: issue_messages(with_severity(issues, Severity::Error)),
                        },
                    )
                } else if entry_in_feed(fe, feed_path) {
                    EntryTally::Prepared
                } else {
                    EntryTally::Other
                },
            },
        },
    }
}

pub open spec fn prepared_count(ts: Seq<EntryTally>) -> nat
    decreases ts.len(),
{
    if ts.len() == 0 {
        0
    } else {
        prepared_count(ts.drop_last()) + (if ts.last() is Prepared {
            1nat
        } else {
            0nat
        })
    }
}

pub open spec fn tally_diagnostics(ts: Seq<EntryTally>) -> Seq<DiagnosticView>
    decreases ts.len(),
{
    if ts.len() == 0 {
        Seq::empty()
    } else {
        tally_diagnostics(ts.drop_last()) + (match ts.last() {
            EntryTally::Invalid(d) => seq![d],
            _ => Seq::empty(),
        })
    }
}

pub open spec fn tallies(items: Seq<ScannedFeedEntry>, feed_path: Option<String>) -> Seq<EntryTally> {
    items.map_values(|it: ScannedFeedEntry| tally(it, feed_path))
}

proof fn lemma_counts_bounded(ts: Seq<EntryTally>)
    ensures
        prepared_count(ts) + tally_diagnostics(ts).len() <= ts.len(),
    decreases ts.len(),
{
    if ts.len() > 0 {
        lemma_counts_bounded(ts.drop_last());
    }
}

fn one_issue(issue: &str) -> (r: Vec<String>)
    ensures
        texts(r@) == seq![issue@],
{
    let mut v: Vec<String> = Vec::new();
    v.push(string_of(issue));
    assert(texts(v@) =~= seq![issue@]);
    v
}

fn error_messages(issues: &Vec<ValidationIssue>) -> (r: Vec<String>)
    ensures
        texts(r@) == issue_messages(views(issues@)),
{
    let mut out: Vec<String> = Vec::new();
    let mut i: usize = 0;
    while i < issues.len()
        invariant
            i <= issues@.len(),
            texts(out@) == issue_messages(views(issues@)).take(i as int),
        decreases issues@.len() - i,
    {
        let ghost before = out@;
        out.push(issues[i].message.clone());
        assert(texts(out@) =~= texts(before).push(issues@[i as int].message@));
        assert(issue_messages(views(issues@)).take(i + 1) =~= issue_messages(views(issues@)).take(
            i as int,
        ).push(issues@[i as int]@.message));
        i = i + 1;
    }
    assert(issue_messages(views(issues@)).take(issues@.len() as int) =~= issue_messages(
        views(issues@),
    ));
    out
}

/// Checks one item under `feeds/entries`.
fn tally_entry(item: ScannedFeedEntry, feed_path: &Option<String>) -> (r: (bool, Option<FeedEntryDiagnostic>))
    ensures
        match tally(item, *feed_path) {
            EntryTally::Prepared => r.0 && r.1 is None,
            EntryTally::Other => !r.0 && r.1 is None,
            EntryTally::Invalid(d) => !r.0 && (r.1 matches Some(x) && diagnostic_view(x) == d),
        },
{
    reveal(tally);
    match item {
        ScannedFeedEntry::Unreadable => (
            false,
            Some(
                FeedEntryDiagnostic {
                    path: string_of("feeds/entries"),
                    issues: one_issue("feed entry directory item could not be read"),
                },
            ),
        ),
        ScannedFeedEntry::Entry { relative_path, entry, context } => {
            let fe = match entry {
                Err(_) => {
                    return (
                        false,
                        Some(
                            FeedEntryDiagnostic {
                                path: relative_path,
                                issues: one_issue("feed entry could not be validated"),
                            },
                        ),
                    );
                },
                Ok(fe) => fe,
            };
            let report = match feed_entry_report(&fe, context) {
                Err(_) => {
                    return (
                        false,
                        Some(
                            FeedEntryDiagnostic {
                                path: relative_path,
                                issues: one_issue("feed entry could not be validated"),
                            },
                        ),
                    );
                },
                Ok(report) => report,
            };
            if !report.valid {
                let issues = error_messages(&report.errors);
                return (false, Some(FeedEntryDiagnostic { path: relative_path, issues }));
            }
            let in_feed = match feed_path {
                None => true,
                Some(p) => match &fe.entry {
                    Some(e) => match &e.feed {
                        Some(f) => text_eq(f.as_str(), p.as_str()),
                        None => false,
                    },
                    None => false,
                },
            };
            (in_feed, None)
        },
    }
}

/// Counts the prepared entries of the feed at `feed_path` and the invalid
/// ones, with a diagnostic for each invalid one.
pub fn prepared_feed_entry_counts(scan: FeedEntryScan, feed_path: &Option<String>) -> (r: (
    usize,
    usize,
    Vec<FeedEntryDiagnostic>,
))
    ensures
        r.1 == r.2@.len(),
        entry_counts(scan, *feed_path, r.0 as nat, r.2@),
{
    let items = match scan {
        FeedEntryScan::NotDirectory => return (0, 0, Vec::new()),
        FeedEntryScan::Unreadable => {
            let mut d: Vec<FeedEntryDiagnostic> = Vec::new();
            d.push(
                FeedEntryDiagnostic {
                    path: string_of("feeds/entries"),
                    issues: one_issue("feed entries directory could not be read"),
                },
            );
            assert(diagnostic_views(d@) =~= seq![diagnostic_view(d@[0])]);
            return (0, 1, d);
        },
        FeedEntryScan::Items(items) => items,
    };
    let ghost all = items@;
    let ghost ts = tallies(all, *feed_path);
    assert(all.len() == items.len());
    let mut rest = items;
    let mut prepared: usize = 0;
    let mut diagnostics: Vec<FeedEntryDiagnostic> = Vec::new();
    while rest.len() > 0
        invariant
            rest@.len() <= all.len(),
            all.len() <= usize::MAX,
            ts == tallies(all, *feed_path),
            rest@ == all.skip(all.len() - rest@.len()),
            prepared == prepared_count(ts.take(all.len() - rest@.len())),
            diagnostic_views(diagnostics@) == tally_diagnostics(ts.take(all.len() - rest@.len())),
        decreases rest@.len(),
    {
        let ghost k = all.len() - rest@.len();
        proof {
            lemma_counts_bounded(ts.take(k));
        }
        let item = rest.remove(0);
        assert(item == all[k]);
        let (is_prepared, diagnostic) = tally_entry(item, feed_path);
        assert(ts.take(k + 1).drop_last() =~= ts.take(k));
        if is_prepared {
            prepared = prepared + 1;
        }
        match diagnostic {
            Some(d) => {
                let ghost before = diagnostics@;
                diagnostics.push(d);
                assert(diagnostic_views(diagnostics@) =~= diagnostic_views(before).push(
                    diagnostic_view(d),
                ));
            },
            None => {},
        }
        assert(rest@ =~= all.skip(k + 1));
    }
    assert(ts.take(all.len() as int) =~= ts);
    let invalid = diagnostics.len();
    (prepared, invalid, diagnostics)
}

/// What the counts of the prepared entries are for a scan of `feeds/entries`.
pub open spec fn entry_counts(
    scan: FeedEntryScan,
    feed_path: Option<String>,
    prepared: nat,
    diagnostics: Seq<FeedEntryDiagnostic>,
) -> bool {
    match scan {
        FeedEntryScan::NotDirectory => prepared == 0 && diagnostics.len() == 0,
        FeedEntryScan::Unreadable => prepared == 0 && diagnostic_views(diagnostics) == seq![
            DiagnosticView {
                path: "feeds/entries"@,
                issues: seq!["feed entries directory could not be read"@],
            },
        ],
        FeedEntryScan::Items(items) => prepared == prepared_count(tallies(items@, feed_path))
            && diagnostic_views(diagnostics) == tally_diagnostics(tallies(items@, feed_path)),
    }
}

/// The feed state that a manifest, its feed file and a scan of
/// `feeds/entries` give. Every invalid entry has its diagnostic.
pub open spec fn feed_state_of(
    m: Manifest,
    feed_file_is_file: bool,
    scan: FeedEntryScan,
    st: FeedPublicationState,
) -> bool {
    &&& st.invalid_entries == st.invalid_entry_diagnostics@.len()
    &&& match m.feed {
        None => {
            &&& !st.configured
            &&& !st.enabled
            &&& st.feed_type is None
            &&& st.path is None
            &&& !st.exists
            &&& st.prepared_entries == 0
            &&& st.invalid_entries == 0
        },
        Some(f) => {
            &&& st.configured
            &&& st.enabled == (f.enabled == Some(true))
            &&& st.feed_type == f.feed_type
            &&& st.path == f.path
            &&& st.exists == (f.path is Some && feed_file_is_file)
            &&& entry_counts(
                scan,
                f.path,
                st.prepared_entries as nat,
                st.invalid_entry_diagnostics@,
            )
        },
    }
}

/// What a publication finds of the project's feed: its settings, whether the
/// feed file is there, and how many prepared entries are ready or invalid.
pub fn feed_publication_state(manifest: &Manifest, feed_file_is_file: bool, scan: FeedEntryScan) -> (r:
    FeedPublicationState)
    ensures
        feed_state_of(*manifest, feed_file_is_file, scan, r),
{
    let feed = match &manifest.feed {
        None => {
            return FeedPublicationState {
                configured: false,
                enabled: false,
                feed_type: None,
                path: None,
                exists: false,
                prepared_entries: 0,
                invalid_entries: 0,
                invalid_entry_diagnostics: Vec::new(),
            };
        },
        Some(f) => f,
    };
    let path = clone_opt(&feed.path);
    let exists = path.is_some() && feed_file_is_file;
    let (prepared_entries, invalid_entries, invalid_entry_diagnostics) = prepared_feed_entry_counts(
        scan,
        &path,
    );
    let enabled = match feed.enabled {
        Some(b) => b,
        None => false,
    };
    FeedPublicationState {
        configured: true,
        enabled,
        feed_type: clone_opt(&feed.feed_type),
        path,
        exists,
        prepared_entries,
        invalid_entries,
        invalid_entry_diagnostics,
    }
}

// ---------------------------------------------------------------------------
// The dry run
// ---------------------------------------------------------------------------

/// What publishing a project to a target would do, without doing it.
#[derive(Debug, Clone)]
pub struct PublishDryRun {
    pub project_id: String,
    pub target: String,
    pub method: String,
    pub destination: Option<String>,
    pub upload: Vec<String>,
    pub update: Vec<String>,
    pub delete: Vec<String>,
    pub skip: Vec<String>,
    pub confirmations: Vec<String>,
    pub verification_checks: Vec<String>,
    pub host_resolution: Option<Resolution>,
    pub identity_resolution: Option<Resolution>,
    pub feed: FeedPublicationState,
    pub blocked: bool,
}

/// What a dry run reads from the project and from the host and identity
/// roots: the manifest (or the failure to find or load it), what the file
/// system shows of the paths it names, the hosts and identities listed with
/// the checks of their records (`None` when no root was given), the scan of
/// `feeds/entries`, and the files found for publication.
#[derive(Debug)]
pub struct DryRunInputs {
    pub manifest: Result<Manifest, ProjectFormatError>,
    pub files: ProjectFiles,
    pub hosts: Option<Result<Vec<HostCandidate>, HostIdentityError>>,
    pub identities: Option<Result<Vec<IdentityCandidate>, HostIdentityError>>,
    pub feed_entries: FeedEntryScan,
    pub publishable: Result<PublishableFiles, PublishPlanError>,
}

/// The confirmations that a target asks for before a publication.
pub open spec fn target_confirmations(t: PublishTarget) -> Seq<Seq<char>> {
    if t.delete_policy matches Some(p) && p@ == "confirm"@ {
        seq!["remote deletion requires explicit confirmation"@]
    } else {
        Seq::empty()
    }
}

/// The plan that a dry run of a valid project to target `t` gives.
pub open spec fn is_dry_run(
    m: Manifest,
    t: PublishTarget,
    inputs: DryRunInputs,
    found: PublishableFiles,
    plan: PublishDryRun,
) -> bool {
    &&& plan.project_id@ == m.project.id@
    &&& plan.target@ == t.name@
    &&& plan.method@ == t.method@
    &&& plan.destination == destination_of(t)
    &&& host_resolution(t.host, inputs.hosts, plan.host_resolution)
    &&& identity_resolution(t.identity, inputs.identities, plan.identity_resolution)
    &&& plan.blocked == (blocks(plan.host_resolution) || blocks(plan.identity_resolution))
    &&& feed_state_of(m, inputs.files.feed_file_is_file, inputs.feed_entries, plan.feed)
    &&& strictly_sorted(plan.upload@)
    &&& text_set(plan.upload@) == text_set(
        gathered_files(m, inputs.files.feed_file_is_file, found),
    )
    &&& plan.update@.len() == 0
    &&& plan.delete@.len() == 0
    &&& plan.skip@.len() == 0
    &&& texts(plan.confirmations@) == target_confirmations(t)
    &&& texts(plan.verification_checks@) == seq!["fetch"@, "mime"@]
}

/// What a dry run gives: the project must load and pass its checks, and name
/// the target; then the plan carries the target's resolutions, the feed's
/// state and the files to upload, sorted and each once.
pub open spec fn dry_run_outcome(
    target_name: Seq<char>,
    inputs: DryRunInputs,
    r: Result<PublishDryRun, PublishPlanError>,
) -> bool {
    match inputs.manifest {
        Err(e) => r matches Err(PublishPlanError::Project(f)) && f == e,
        Ok(m) => if project_check_fails(m, inputs.files) {
            r matches Err(PublishPlanError::ProjectInvalid)
        } else {
            match first_target(manifest_targets(m), target_name) {
                None => r matches Err(PublishPlanError::TargetNotFound(n)) && n@ == target_name,
                Some(i) => match inputs.publishable {
                    Err(e) => r == Err::<PublishDryRun, PublishPlanError>(e),
                    Ok(found) => r matches Ok(plan) && is_dry_run(
                        m,
                        manifest_targets(m)[i],
                        inputs,
                        found,
                        plan,
                    ),
                },
            }
        }
    }
}

/// The project's checks find an error.
#[verifier::opaque]
pub open spec fn project_check_fails(m: Manifest, files: ProjectFiles) -> bool {
    with_severity(manifest_issues(m, files), Severity::Error).len() > 0
}

fn project_is_valid(m: &Manifest, files: &ProjectFiles) -> (r: bool)
    ensures
        r == !project_check_fails(*m, *files),
{
    reveal(project_check_fails);
    validate_manifest(m, files).valid
}

fn text_list(items: &[&str]) -> (r: Vec<String>)
    ensures
        texts(r@) == items@.map_values(|t: &str| t@),
{
    let mut out: Vec<String> = Vec::new();
    let mut i: usize = 0;
    while i < items.len()
        invariant
            i <= items@.len(),
            texts(out@) == items@.map_values(|t: &str| t@).take(i as int),
        decreases items@.len() - i,
    {
        let ghost before = out@;
        out.push(string_of(items[i]));
        assert(texts(out@) =~= texts(before).push(items@[i as int]@));
        assert(items@.map_values(|t: &str| t@).take(i + 1) =~= items@.map_values(|t: &str| t@).take(
            i as int,
        ).push(items@[i as int]@));
        i = i + 1;
    }
    assert(items@.map_values(|t: &str| t@).take(items@.len() as int) =~= items@.map_values(
        |t: &str| t@,
    ));
    out
}

fn confirmations_for(target: &PublishTarget) -> (r: Vec<String>)
    ensures
        texts(r@) == target_confirmations(*target),
{
    let confirm = match &target.delete_policy {
        Some(p) => text_eq(p.as_str(), "confirm"),
        None => false,
    };
    if confirm {
        let v = text_list(&["remote deletion requires explicit confirmation"]);
        assert(texts(v@) =~= seq!["remote deletion requires explicit confirmation"@]);
        v
    } else {
        let v: Vec<String> = Vec::new();
        assert(texts(v@) =~= Seq::<Seq<char>>::empty());
        v
    }
}

/// Plans the publication of a project to a target, without publishing: what
/// would be uploaded, how the target's host and identity resolve, whether
/// anything blocks it, and the state of the feed.
pub fn dry_run_publish_with_context(target_name: &str, inputs: DryRunInputs) -> (r: Result<
    PublishDryRun,
    PublishPlanError,
>)
    ensures
        dry_run_outcome(target_name@, inputs, r),
{
    let ghost given = inputs;
    let DryRunInputs { manifest, files, hosts, identities, feed_entries, publishable } = inputs;
    let m = match manifest {
        Err(e) => return Err(PublishPlanError::Project(e)),
        Ok(m) => m,
    };
    if !project_is_valid(&m, &files) {
        return Err(PublishPlanError::ProjectInvalid);
    }
    let target = match find_target(&m, target_name) {
        Err(e) => return Err(e),
        Ok(t) => t,
    };
    let host_resolution = resolve_host(target, &hosts);
    let identity_resolution = resolve_identity(target, &identities);
    let blocked = resolution_blocks(&host_resolution) || resolution_blocks(&identity_resolution);
    let feed = feed_publication_state(&m, files.feed_file_is_file, feed_entries);
    let upload = match collect_publishable_files(&m, files.feed_file_is_file, publishable) {
        Err(e) => return Err(e),
        Ok(u) => u,
    };
    let confirmations = confirmations_for(target);
    let verification_checks = text_list(&["fetch", "mime"]);
    assert(texts(verification_checks@) =~= seq!["fetch"@, "mime"@]);
    Ok(
        PublishDryRun {
            project_id: m.project.id.clone(),
            target: target.name.clone(),
            method: target.method.clone(),
            destination: destination_for(target),
            upload,
            update: Vec::new(),
            delete: Vec::new(),
            skip: Vec::new(),
            confirmations,
            verification_checks,
            host_resolution,
            identity_resolution,
            feed,
            blocked,
        },
    )
}

/// The inputs of a dry run without host or identity records.
pub open spec fn without_roots(inputs: DryRunInputs) -> DryRunInputs {
    DryRunInputs { hosts: None, identities: None, ..inputs }
}

/// Plans a publication with no host or identity records at hand: a target
/// that names a host or an identity is then blocked.
pub fn dry_run_publish(target_name: &str, inputs: DryRunInputs) -> (r: Result<
    PublishDryRun,
    PublishPlanError,
>)
    ensures
        dry_run_outcome(target_name@, without_roots(inputs), r),
{
    let DryRunInputs { manifest, files, hosts, identities, feed_entries, publishable } = inputs;
    dry_run_publish_with_context(
        target_name,
        DryRunInputs { manifest, files, hosts: None, identities: None, feed_entries, publishable },
    )
}

/// With no host or identity records at hand, a planned publication to a
/// target that names a host or an identity is blocked, and the named host or
/// identity is reported missing.
pub proof fn law_dry_run_without_records_blocks(
    target_name: Seq<char>,
    inputs: DryRunInputs,
    plan: PublishDryRun,
)
    requires
        dry_run_outcome(target_name, without_roots(inputs), Ok(plan)),
        plan.host_resolution is Some || plan.identity_resolution is Some,
    ensures
        plan.blocked,
        plan.host_resolution matches Some(h) ==> h.status == ResolutionStatus::Missing,
        plan.identity_resolution matches Some(i) ==> i.status == ResolutionStatus::Missing,
{
}

/// A plan is blocked exactly when its host or its identity resolves as
/// missing, blocked or invalid.
pub proof fn law_dry_run_blocked_iff_resolution_blocks(
    target_name: Seq<char>,
    inputs: DryRunInputs,
    plan: PublishDryRun,
)
    requires
        dry_run_outcome(target_name, inputs, Ok(plan)),
    ensures
        plan.blocked <==> (plan.host_resolution matches Some(h) && status_blocks(h.status)) || (
        plan.identity_resolution matches Some(i) && status_blocks(i.status)),
{
}


/// The target that `first_target` picks is one of the targets, and carries
/// the name asked for.
proof fn lemma_first_target_names(targets: Seq<PublishTarget>, name: Seq<char>)
    ensures
        first_target(targets, name) matches Some(i) ==> 0 <= i < targets.len()
            && targets[i].name@ == name,
    decreases targets.len(),
{
    if targets.len() > 0 && targets[0].name@ != name {
        lemma_first_target_names(targets.drop_first(), name);
    }
}

/// A planned publication goes to the target's URL whenever the target has
/// one. Only a target without a URL falls back to its host, and one with
/// neither URL nor host to its path.
pub proof fn law_dry_run_destination_prefers_url(
    target_name: Seq<char>,
    inputs: DryRunInputs,
    m: Manifest,
    plan: PublishDryRun,
)
    requires
        dry_run_outcome(target_name, inputs, Ok(plan)),
        inputs.manifest == Ok::<Manifest, ProjectFormatError>(m),
    ensures
        match first_target(manifest_targets(m), target_name) {
            Some(i) => {
                let t = manifest_targets(m)[i];
                &&& 0 <= i < manifest_targets(m).len()
                &&& t.name@ == target_name
                &&& plan.method@ == t.method@
                &&& t.url matches Some(u) ==> plan.destination == Some(u)
                &&& t.url is None ==> (t.host matches Some(h) ==> plan.destination == Some(h))
                &&& t.url is None ==> (t.host is None ==> plan.destination == t.path)
            },
            None => false,
        },
{
    lemma_first_target_names(manifest_targets(m), target_name);
}

} // verus!
