use vstd::prelude::*;
use crate::order::{is_sorted, keeps_tie_order, reversed, stable_sort, SortOrder};
use crate::text::{
    concat, concat3, contains_exec, contains_text, is_blank, is_blank_text, is_valid_id,
    is_valid_id_text, lemma_lex_le_total, lemma_lex_le_transitive, lex_le, starts_with_exec,
    starts_with_text, string_of, text_eq, text_le,
};
use crate::validation::{
    add_issue, error, error_issue, report_of, views, warning, warning_issue, with_severity,
    IssueView, ValidationIssue,
};
pub use crate::validation::{Severity, ValidationReport};

verus! {

/// A host record (`hosts/<id>.toml`).
#[derive(Debug)]
pub struct HostRecord {
    pub host: HostSection,
    pub services: Vec<HostService>,
}

#[derive(Debug)]
pub struct HostSection {
    pub id: String,
    pub display_name: String,
    pub address: String,
    pub notes: Option<String>,
}

/// A service that a host offers.
#[derive(Debug)]
pub struct HostService {
    pub service_type: String,
    pub port: u16,
    pub trust: String,
    pub fingerprint: Option<String>,
}

/// An identity record (`identities/<id>.toml`).
#[derive(Debug)]
pub struct IdentityRecord {
    pub identity: IdentitySection,
    pub ssh_keys: Vec<SshKeyRecord>,
    pub certificates: Vec<CertificateRecord>,
}

#[derive(Debug)]
pub struct IdentitySection {
    pub id: String,
    pub display_name: String,
    pub author_name: Option<String>,
}

#[derive(Debug)]
pub struct SshKeyRecord {
    pub id: String,
    pub public_key: String,
    pub private_key_ref: String,
}

#[derive(Debug)]
pub struct CertificateRecord {
    pub id: String,
    pub certificate_type: String,
    pub fingerprint: String,
    pub private_key_ref: String,
    pub expires: Option<String>,
}

/// The ways reading host and identity records can fail.
#[derive(Debug)]
pub enum HostIdentityError {
    NotFound(String),
    NotFile(String),
    Unreadable { path: String, message: String },
    ParseFailed(String),
    DirectoryNotFound(String),
    NotDirectory(String),
    ReadDirectoryFailed { path: String, message: String },
}

// ---------------------------------------------------------------------------
// What the records are found to break
// ---------------------------------------------------------------------------

pub open spec fn is_supported_trust_state(v: Seq<char>) -> bool {
    ||| v == "unknown"@
    ||| v == "observed"@
    ||| v == "trusted"@
    ||| v == "changed"@
    ||| v == "blocked"@
}

pub open spec fn id_issues(field: Seq<char>, value: Seq<char>) -> Seq<IssueView> {
    if is_valid_id(value) {
        Seq::empty()
    } else {
        seq![
            error_issue(
                "invalid_id"@,
                field + " must contain only ASCII letters, digits, '-' or '_'"@,
                field,
            ),
        ]
    }
}

pub open spec fn secret_ref_issues(field: Seq<char>, value: Seq<char>) -> Seq<IssueView> {
    if starts_with_text(value, "workspace-secret:"@) {
        Seq::empty()
    } else {
        seq![
            error_issue(
                "invalid_secret_reference"@,
                field + " must use workspace-secret: reference"@,
                field,
            ),
        ]
    }
}

pub open spec fn service_issues(s: HostService) -> Seq<IssueView> {
    (if is_blank(s.service_type@) {
        seq![
            error_issue("missing_service_type"@, "service type is required"@, "services.type"@),
        ]
    } else {
        Seq::empty()
    }) + (if !is_supported_trust_state(s.trust@) {
        seq![
            error_issue(
                "unsupported_trust_state"@,
                "unsupported trust state: "@ + s.trust@,
                "services.trust"@,
            ),
        ]
    } else {
        Seq::empty()
    })
}

pub open spec fn services_issues(s: Seq<HostService>, n: int) -> Seq<IssueView>
    decreases n,
{
    if n <= 0 {
        Seq::empty()
    } else {
        services_issues(s, n - 1) + service_issues(s[n - 1])
    }
}

/// Everything that validation finds in a host record, in order.
pub open spec fn host_issues(h: HostRecord) -> Seq<IssueView> {
    id_issues("host.id"@, h.host.id@) + (if is_blank(h.host.address@) {
        seq![
            error_issue("missing_host_address"@, "host address is required"@, "host.address"@),
        ]
    } else {
        Seq::empty()
    }) + services_issues(h.services@, h.services@.len() as int)
}

pub open spec fn key_issues(k: SshKeyRecord) -> Seq<IssueView> {
    id_issues("ssh_keys.id"@, k.id@) + (if !starts_with_text(k.public_key@, "ssh-"@) {
        seq![
            error_issue(
                "invalid_public_key"@,
                "SSH key "@ + k.id@ + " does not look like a public key"@,
                "ssh_keys.public_key"@,
            ),
        ]
    } else {
        Seq::empty()
    }) + secret_ref_issues("ssh_keys.private_key_ref"@, k.private_key_ref@)
}

pub open spec fn keys_issues(s: Seq<SshKeyRecord>, n: int) -> Seq<IssueView>
    decreases n,
{
    if n <= 0 {
        Seq::empty()
    } else {
        keys_issues(s, n - 1) + key_issues(s[n - 1])
    }
}

pub open spec fn certificate_issues(c: CertificateRecord) -> Seq<IssueView> {
    id_issues("certificates.id"@, c.id@) + (if !starts_with_text(c.fingerprint@, "sha256:"@) {
        seq![
            warning_issue(
                "unusual_certificate_fingerprint"@,
                "certificate "@ + c.id@ + " fingerprint does not start with sha256:"@,
                "certificates.fingerprint"@,
            ),
        ]
    } else {
        Seq::empty()
    }) + secret_ref_issues("certificates.private_key_ref"@, c.private_key_ref@)
}

pub open spec fn certificates_issues(s: Seq<CertificateRecord>, n: int) -> Seq<IssueView>
    decreases n,
{
    if n <= 0 {
        Seq::empty()
    } else {
        certificates_issues(s, n - 1) + certificate_issues(s[n - 1])
    }
}

/// Everything that validation finds in an identity record, in order.
pub open spec fn identity_issues(i: IdentityRecord) -> Seq<IssueView> {
    id_issues("identity.id"@, i.identity.id@) + keys_issues(
        i.ssh_keys@,
        i.ssh_keys@.len() as int,
    ) + certificates_issues(i.certificates@, i.certificates@.len() as int)
}

/// The private-key headers whose presence in a record's text betrays key material.
pub open spec fn has_private_key_material(text: Seq<char>) -> bool {
    ||| contains_text(text, "BEGIN OPENSSH PRIVATE KEY"@)
    ||| contains_text(text, "BEGIN RSA PRIVATE KEY"@)
    ||| contains_text(text, "BEGIN EC PRIVATE KEY"@)
    ||| contains_text(text, "BEGIN PRIVATE KEY"@)
}

// ---------------------------------------------------------------------------
// Validation
// ---------------------------------------------------------------------------

fn validate_id(issues: &mut Vec<ValidationIssue>, field: &'static str, value: &str)
    ensures
        views(final(issues)@) == views(old(issues)@) + id_issues(field@, value@),
{
    let ghost start = views(issues@);
    if !is_valid_id_text(value) {
        let message = concat(field, " must contain only ASCII letters, digits, '-' or '_'");
        add_issue(issues, error("invalid_id", message, Some(string_of(field))));
    }
    assert(views(issues@) =~= start + id_issues(field@, value@));
}

fn validate_secret_ref(issues: &mut Vec<ValidationIssue>, field: &'static str, value: &str)
    ensures
        views(final(issues)@) == views(old(issues)@) + secret_ref_issues(field@, value@),
{
    let ghost start = views(issues@);
    if !starts_with_exec(value, "workspace-secret:") {
        let message = concat(field, " must use workspace-secret: reference");
        add_issue(issues, error("invalid_secret_reference", message, Some(string_of(field))));
    }
    assert(views(issues@) =~= start + secret_ref_issues(field@, value@));
}

/// Whether the trust state is one that hosts may record.
pub fn supported_trust_state(value: &str) -> (r: bool)
    ensures
        r == is_supported_trust_state(value@),
{
    text_eq(value, "unknown") || text_eq(value, "observed") || text_eq(value, "trusted")
        || text_eq(value, "changed") || text_eq(value, "blocked")
}

fn validate_service(issues: &mut Vec<ValidationIssue>, service: &HostService)
    ensures
        views(final(issues)@) == views(old(issues)@) + service_issues(*service),
{
    let ghost start = views(issues@);
    if is_blank_text(service.service_type.as_str()) {
        add_issue(
            issues,
            error(
                "missing_service_type",
                string_of("service type is required"),
                Some(string_of("services.type")),
            ),
        );
    }
    let ghost a = views(issues@);
    if !supported_trust_state(service.trust.as_str()) {
        let message = concat("unsupported trust state: ", service.trust.as_str());
        add_issue(
            issues,
            error("unsupported_trust_state", message, Some(string_of("services.trust"))),
        );
    }
    assert(views(issues@) =~= start + service_issues(*service));
}

/// Validates a host record.
pub fn validate_host_record(host: &HostRecord) -> (r: ValidationReport)
    ensures
        report_of(host_issues(*host), r),
{
    let mut issues: Vec<ValidationIssue> = Vec::new();
    validate_id(&mut issues, "host.id", host.host.id.as_str());
    if is_blank_text(host.host.address.as_str()) {
        add_issue(
            &mut issues,
            error(
                "missing_host_address",
                string_of("host address is required"),
                Some(string_of("host.address")),
            ),
        );
    }
    let ghost head = views(issues@);
    let mut i: usize = 0;
    assert(views(issues@) =~= head + services_issues(host.services@, 0));
    while i < host.services.len()
        invariant
            i <= host.services@.len(),
            views(issues@) == head + services_issues(host.services@, i as int),
        decreases host.services@.len() - i,
    {
        validate_service(&mut issues, &host.services[i]);
        assert(views(issues@) =~= head + services_issues(host.services@, i + 1));
        i = i + 1;
    }
    assert(views(issues@) =~= host_issues(*host));
    ValidationReport::from_issues(issues)
}

fn validate_key(issues: &mut Vec<ValidationIssue>, key: &SshKeyRecord)
    ensures
        views(final(issues)@) == views(old(issues)@) + key_issues(*key),
{
    let ghost start = views(issues@);
    validate_id(issues, "ssh_keys.id", key.id.as_str());
    let ghost a = views(issues@);
    if !starts_with_exec(key.public_key.as_str(), "ssh-") {
        let message = concat3("SSH key ", key.id.as_str(), " does not look like a public key");
        add_issue(
            issues,
            error("invalid_public_key", message, Some(string_of("ssh_keys.public_key"))),
        );
    }
    let ghost b = views(issues@);
    validate_secret_ref(issues, "ssh_keys.private_key_ref", key.private_key_ref.as_str());
    assert(views(issues@) =~= start + key_issues(*key));
}

fn validate_certificate(issues: &mut Vec<ValidationIssue>, certificate: &CertificateRecord)
    ensures
        views(final(issues)@) == views(old(issues)@) + certificate_issues(*certificate),
{
    let ghost start = views(issues@);
    validate_id(issues, "certificates.id", certificate.id.as_str());
    let ghost a = views(issues@);
    if !starts_with_exec(certificate.fingerprint.as_str(), "sha256:") {
        let message = concat3(
            "certificate ",
            certificate.id.as_str(),
            " fingerprint does not start with sha256:",
        );
        add_issue(
            issues,
            warning(
                "unusual_certificate_fingerprint",
                message,
                Some(string_of("certificates.fingerprint")),
            ),
        );
    }
    let ghost b = views(issues@);
    validate_secret_ref(
        issues,
        "certificates.private_key_ref",
        certificate.private_key_ref.as_str(),
    );
    assert(views(issues@) =~= start + certificate_issues(*certificate));
}

/// Validates an identity record.
pub fn validate_identity_record(identity: &IdentityRecord) -> (r: ValidationReport)
    ensures
        report_of(identity_issues(*identity), r),
{
    let mut issues: Vec<ValidationIssue> = Vec::new();
    validate_id(&mut issues, "identity.id", identity.identity.id.as_str());
    let ghost head = views(issues@);
    let mut i: usize = 0;
    assert(views(issues@) =~= head + keys_issues(identity.ssh_keys@, 0));
    while i < identity.ssh_keys.len()
        invariant
            i <= identity.ssh_keys@.len(),
            views(issues@) == head + keys_issues(identity.ssh_keys@, i as int),
        decreases identity.ssh_keys@.len() - i,
    {
        validate_key(&mut issues, &identity.ssh_keys[i]);
        assert(views(issues@) =~= head + keys_issues(identity.ssh_keys@, i + 1));
        i = i + 1;
    }
    let ghost mid = views(issues@);
    let mut j: usize = 0;
    assert(views(issues@) =~= mid + certificates_issues(identity.certificates@, 0));
    while j < identity.certificates.len()
        invariant
            j <= identity.certificates@.len(),
            views(issues@) == mid + certificates_issues(identity.certificates@, j as int),
        decreases identity.certificates@.len() - j,
    {
        validate_certificate(&mut issues, &identity.certificates[j]);
        assert(views(issues@) =~= mid + certificates_issues(identity.certificates@, j + 1));
        j = j + 1;
    }
    assert(views(issues@) =~= identity_issues(*identity));
    ValidationReport::from_issues(issues)
}

/// Whether a record's text holds a private-key header.
pub fn contains_private_key_material(text: &str) -> (r: bool)
    ensures
        r == has_private_key_material(text@),
{
    contains_exec(text, "BEGIN OPENSSH PRIVATE KEY") || contains_exec(text, "BEGIN RSA PRIVATE KEY")
        || contains_exec(text, "BEGIN EC PRIVATE KEY") || contains_exec(text, "BEGIN PRIVATE KEY")
}

} // verus!

verus! {

/// Validates a host record that was read from a file; a failure to read or
/// parse it is handed back as it came.
pub fn validate_host(loaded: Result<HostRecord, HostIdentityError>) -> (r: Result<
    ValidationReport,
    HostIdentityError,
>)
    ensures
        match (loaded, r) {
            (Err(e), Err(f)) => e == f,
            (Ok(h), Ok(report)) => report_of(host_issues(h), report),
            _ => false,
        },
{
    match loaded {
        Err(e) => Err(e),
        Ok(h) => Ok(validate_host_record(&h)),
    }
}

/// An identity record with the text it was parsed from.
#[derive(Debug)]
pub struct LoadedIdentity {
    pub record: IdentityRecord,
    pub text: String,
}

pub open spec fn private_key_issue(path: Seq<char>) -> IssueView {
    error_issue(
        "private_key_material_present"@,
        "identity record appears to contain private key material"@,
        path,
    )
}

/// The report of an identity record read from `path`: the record's own
/// findings, and an error when the text holds private key material.
pub open spec fn identity_report(
    record: IdentityRecord,
    text: Seq<char>,
    path: Seq<char>,
    report: ValidationReport,
) -> bool {
    let issues = identity_issues(record);
    &&& views(report.errors@) == with_severity(issues, Severity::Error) + (if has_private_key_material(text) {
        seq![private_key_issue(path)]
    } else {
        Seq::empty()
    })
    &&& views(report.warnings@) == with_severity(issues, Severity::Warning)
    &&& report.valid == (with_severity(issues, Severity::Error).len() == 0
        && !has_private_key_material(text))
}

/// Validates an identity record read from `path`, and refuses one whose text
/// holds private key material. A failure to read or parse it is handed back as it came.
pub fn validate_identity(path: &str, loaded: Result<LoadedIdentity, HostIdentityError>) -> (r:
    Result<ValidationReport, HostIdentityError>)
    ensures
        match (loaded, r) {
            (Err(e), Err(f)) => e == f,
            (Ok(l), Ok(report)) => identity_report(l.record, l.text@, path@, report),
            _ => false,
        },
{
    let loaded = loaded?;
    let mut report = validate_identity_record(&loaded.record);
    if contains_private_key_material(loaded.text.as_str()) {
        let issue = error(
            "private_key_material_present",
            string_of("identity record appears to contain private key material"),
            Some(string_of(path)),
        );
        add_issue(&mut report.errors, issue);
        report.valid = false;
    }
    proof {
        let issues = identity_issues(loaded.record);
        assert(views(report.errors@) =~= with_severity(issues, Severity::Error) + (if has_private_key_material(loaded.text@) {
            seq![private_key_issue(path@)]
        } else {
            Seq::empty()
        }));
    }
    Ok(report)
}

/// A host record file found under a root: its path and, when it parsed, its record.
#[derive(Debug)]
pub struct HostFile {
    pub path: String,
    pub record: Option<HostRecord>,
}

/// A host found under a root.
#[derive(Debug, Clone)]
pub struct HostSummary {
    pub id: String,
    pub display_name: String,
    pub address: String,
    pub path: String,
}

/// An identity found under a root.
#[derive(Debug, Clone)]
pub struct IdentitySummary {
    pub id: String,
    pub display_name: String,
    pub path: String,
}

pub open spec fn host_summary_of(path: String, h: HostRecord) -> HostSummary {
    HostSummary {
        id: h.host.id,
        display_name: h.host.display_name,
        address: h.host.address,
        path,
    }
}

/// The summaries of the files that parsed, in order.
pub open spec fn host_summaries(files: Seq<HostFile>) -> Seq<HostSummary>
    decreases files.len(),
{
    if files.len() == 0 {
        Seq::empty()
    } else {
        let rest = host_summaries(files.drop_last());
        match files.last().record {
            Some(h) => rest.push(host_summary_of(files.last().path, h)),
            None => rest,
        }
    }
}

/// A list of hosts in their sort order runs by id, in text order.
pub proof fn law_sorted_hostsummary_run_by_id(v: Seq<HostSummary>)
    requires
        is_sorted(v),
    ensures
        forall|i: int, j: int| 0 <= i < j < v.len() ==> lex_le((#[trigger] v[i]).id@, (#[trigger] v[j]).id@),
{
    assert forall|i: int, j: int| 0 <= i < j < v.len() implies lex_le((#[trigger] v[i]).id@, (#[trigger] v[j]).id@) by {
        assert(HostSummary::precedes(v[i], v[j]));
    }
}

impl SortOrder for HostSummary {
    open spec fn precedes(a: Self, b: Self) -> bool {
        lex_le(a.id@, b.id@)
    }

    proof fn precedes_transitive(a: Self, b: Self, c: Self) {
        lemma_lex_le_transitive(a.id@, b.id@, c.id@);
    }

    proof fn precedes_total(a: Self, b: Self) {
        lemma_lex_le_total(a.id@, b.id@);
    }

    fn precedes_exec(&self, other: &Self) -> (r: bool) {
        text_le(self.id.as_str(), other.id.as_str())
    }
}

/// The hosts among the record files of a directory, ordered by id; files that
/// did not parse are left out. A failure to read the directory is handed back as it came.
pub fn list_hosts(files: Result<Vec<HostFile>, HostIdentityError>) -> (r: Result<
    Vec<HostSummary>,
    HostIdentityError,
>)
    ensures
        match (files, r) {
            (Err(e), Err(f)) => e == f,
            (Ok(fs), Ok(hosts)) => hosts@.to_multiset() == host_summaries(fs@).to_multiset()
                && is_sorted(hosts@)
                && keeps_tie_order(hosts@, host_summaries(fs@)),
            _ => false,
        },
{
    let files = files?;
    let ghost all = files@;
    let mut rest = files;
    let mut found: Vec<HostSummary> = Vec::new();
    assert(all.take(all.len() as int) =~= all);
    let ghost suffix_done: Seq<HostSummary> = Seq::empty();
    while rest.len() > 0
        invariant
            rest@.len() <= all.len(),
            rest@ == all.take(rest@.len() as int),
            host_summaries(all) == host_summaries(rest@) + found@.reverse(),
        decreases rest@.len(),
    {
        let ghost before = rest@;
        let file = rest.pop().unwrap();
        proof {
            assert(rest@ =~= all.take(rest@.len() as int));
            assert(before.drop_last() =~= rest@);
        }
        let ghost old_found = found@;
        match file.record {
            Some(h) => {
                found.push(
                    HostSummary {
                        id: h.host.id,
                        display_name: h.host.display_name,
                        address: h.host.address,
                        path: file.path,
                    },
                );
                assert(found@.reverse() =~= seq![found@.last()] + old_found.reverse());
            },
            None => {},
        }
    }
    assert(host_summaries(rest@) =~= Seq::<HostSummary>::empty());
    proof {
        found@.lemma_reverse_to_multiset();
    }
    assert(host_summaries(all) =~= found@.reverse());
    Ok(stable_sort(reversed(found)))
}

} // verus!

verus! {

/// An identity record file found under a root: its path and, when it parsed, its record.
#[derive(Debug)]
pub struct IdentityFile {
    pub path: String,
    pub record: Option<IdentityRecord>,
}

pub open spec fn identity_summary_of(path: String, i: IdentityRecord) -> IdentitySummary {
    IdentitySummary { id: i.identity.id, display_name: i.identity.display_name, path }
}

/// The summaries of the files that parsed, in order.
pub open spec fn identity_summaries(files: Seq<IdentityFile>) -> Seq<IdentitySummary>
    decreases files.len(),
{
    if files.len() == 0 {
        Seq::empty()
    } else {
        let rest = identity_summaries(files.drop_last());
        match files.last().record {
            Some(i) => rest.push(identity_summary_of(files.last().path, i)),
            None => rest,
        }
    }
}

/// A list of identities in their sort order runs by id, in text order.
pub proof fn law_sorted_identitysummary_run_by_id(v: Seq<IdentitySummary>)
    requires
        is_sorted(v),
    ensures
        forall|i: int, j: int| 0 <= i < j < v.len() ==> lex_le((#[trigger] v[i]).id@, (#[trigger] v[j]).id@),
{
    assert forall|i: int, j: int| 0 <= i < j < v.len() implies lex_le((#[trigger] v[i]).id@, (#[trigger] v[j]).id@) by {
        assert(IdentitySummary::precedes(v[i], v[j]));
    }
}

impl SortOrder for IdentitySummary {
    open spec fn precedes(a: Self, b: Self) -> bool {
        lex_le(a.id@, b.id@)
    }

    proof fn precedes_transitive(a: Self, b: Self, c: Self) {
        lemma_lex_le_transitive(a.id@, b.id@, c.id@);
    }

    proof fn precedes_total(a: Self, b: Self) {
        lemma_lex_le_total(a.id@, b.id@);
    }

    fn precedes_exec(&self, other: &Self) -> (r: bool) {
        text_le(self.id.as_str(), other.id.as_str())
    }
}

/// The identities among the record files of a directory, ordered by id; files
/// that did not parse are left out. A failure to read the directory is handed back as it came.
pub fn list_identities(files: Result<Vec<IdentityFile>, HostIdentityError>) -> (r: Result<
    Vec<IdentitySummary>,
    HostIdentityError,
>)
    ensures
        match (files, r) {
            (Err(e), Err(f)) => e == f,
            (Ok(fs), Ok(ids)) => ids@.to_multiset() == identity_summaries(fs@).to_multiset()
                && is_sorted(ids@)
                && keeps_tie_order(ids@, identity_summaries(fs@)),
            _ => false,
        },
{
    let files = files?;
    let ghost all = files@;
    let mut rest = files;
    let mut found: Vec<IdentitySummary> = Vec::new();
    assert(all.take(all.len() as int) =~= all);
    while rest.len() > 0
        invariant
            rest@.len() <= all.len(),
            rest@ == all.take(rest@.len() as int),
            identity_summaries(all) == identity_summaries(rest@) + found@.reverse(),
        decreases rest@.len(),
    {
        let ghost before = rest@;
        let file = rest.pop().unwrap();
        proof {
            assert(rest@ =~= all.take(rest@.len() as int));
            assert(before.drop_last() =~= rest@);
        }
        let ghost old_found = found@;
        match file.record {
            Some(i) => {
                found.push(
                    IdentitySummary {
                        id: i.identity.id,
                        display_name: i.identity.display_name,
                        path: file.path,
                    },
                );
                assert(found@.reverse() =~= seq![found@.last()] + old_found.reverse());
            },
            None => {},
        }
    }
    assert(identity_summaries(rest@) =~= Seq::<IdentitySummary>::empty());
    proof {
        found@.lemma_reverse_to_multiset();
    }
    assert(identity_summaries(all) =~= found@.reverse());
    Ok(stable_sort(reversed(found)))
}

} // verus!
