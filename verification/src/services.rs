use vstd::prelude::*;
use crate::audio_metadata::{
    audio_metadata_issues, validate_audio_metadata, AudioMetadata, AudioMetadataError,
};
use crate::audio_write::{
    attach_outcome, attach_recording, list_recordings, recording_summaries, AttachFacts, AttachPlan,
    AttachRecordingOptions, RecordingFile, RecordingSummary,
};
use crate::host_identity::{
    host_issues, host_summaries, identity_report, identity_summaries, list_hosts,
    list_identities, validate_host, validate_identity, HostFile, HostIdentityError, HostRecord,
    HostSummary, IdentityFile, IdentityRecord, IdentitySummary, LoadedIdentity,
};
use crate::order::{is_sorted, keeps_tie_order};
use crate::project_format::{
    create_project, creation_outcome, inspect_project, is_inspection, list_projects,
    manifest_issues, validate_project, Manifest, ProjectCreateOptions, ProjectCreation,
    ProjectFiles, ProjectFormatError, ProjectInspection, ProjectSummary,
};
use crate::validation::{report_of, ValidationReport};

verus! {

// ---------------------------------------------------------------------------
// Recordings
// ---------------------------------------------------------------------------

/// The recordings of a project's metadata directory.
#[derive(Debug, Default)]
pub struct AudioService;

/// A metadata directory whose recordings to list.
#[derive(Debug, Clone)]
pub struct ListRecordingsRequest {
    pub root: String,
}

/// A recording metadata file to inspect.
#[derive(Debug, Clone)]
pub struct InspectRecordingRequest {
    pub path: String,
}

/// A recording metadata file to check.
#[derive(Debug, Clone)]
pub struct ValidateRecordingRequest {
    pub path: String,
}

/// A recording to attach to a project.
#[derive(Debug, Clone)]
pub struct AttachRecordingRequest {
    pub project_root: String,
    pub metadata_root: String,
    pub id: String,
    pub title: String,
    pub master: String,
    pub published: String,
    pub feed: String,
    pub entry_id: String,
    pub mime_type: String,
}

impl AudioService {
    /// The recordings found under the request's root, ordered by id; `files`
    /// is what that directory holds, or the failure to read it.
    pub fn list_recordings(
        &self,
        request: ListRecordingsRequest,
        files: Result<Vec<RecordingFile>, AudioMetadataError>,
    ) -> (r: Result<Vec<RecordingSummary>, AudioMetadataError>)
        ensures
            match (files, r) {
                (Err(e), Err(f)) => e == f,
                (Ok(fs), Ok(found)) => found@.to_multiset() == recording_summaries(
                    fs@,
                ).to_multiset() && is_sorted(found@) && keeps_tie_order(
                    found@,
                    recording_summaries(fs@),
                ),
                _ => false,
            },
    {
        list_recordings(files)
    }

    /// The metadata of the recording at the request's path, as loaded.
    pub fn inspect_recording(
        &self,
        request: InspectRecordingRequest,
        loaded: Result<AudioMetadata, AudioMetadataError>,
    ) -> (r: Result<AudioMetadata, AudioMetadataError>)
        ensures
            r == loaded,
    {
        loaded
    }

    /// Checks the recording metadata at the request's path, as loaded.
    pub fn validate_recording(
        &self,
        request: ValidateRecordingRequest,
        loaded: Result<AudioMetadata, AudioMetadataError>,
    ) -> (r: Result<ValidationReport, AudioMetadataError>)
        ensures
            match (loaded, r) {
                (Err(e), Err(f)) => e == f,
                (Ok(m), Ok(report)) => report_of(audio_metadata_issues(m), report),
                _ => false,
            },
    {
        validate_audio_metadata(loaded)
    }

    /// Attaches a recording to a project (see `attach_recording`).
    pub fn attach_recording(&self, request: AttachRecordingRequest, facts: AttachFacts) -> (r: Result<
        AttachPlan,
        AudioMetadataError,
    >)
        ensures
            attach_outcome(attach_options(request), facts, r),
    {
        let options = AttachRecordingOptions {
            project_root: request.project_root,
            metadata_root: request.metadata_root,
            id: request.id,
            title: request.title,
            master: request.master,
            published: request.published,
            feed: request.feed,
            entry_id: request.entry_id,
            mime_type: request.mime_type,
        };
        attach_recording(&options, facts)
    }
}

/// The options of an attachment request.
pub open spec fn attach_options(q: AttachRecordingRequest) -> AttachRecordingOptions {
    AttachRecordingOptions {
        project_root: q.project_root,
        metadata_root: q.metadata_root,
        id: q.id,
        title: q.title,
        master: q.master,
        published: q.published,
        feed: q.feed,
        entry_id: q.entry_id,
        mime_type: q.mime_type,
    }
}

// ---------------------------------------------------------------------------
// Hosts
// ---------------------------------------------------------------------------

/// The host records of a directory.
#[derive(Debug, Default)]
pub struct HostService;

/// A directory whose hosts to list.
#[derive(Debug, Clone)]
pub struct ListHostsRequest {
    pub root: String,
}

/// A host record to inspect.
#[derive(Debug, Clone)]
pub struct InspectHostRequest {
    pub path: String,
}

/// A host record to check.
#[derive(Debug, Clone)]
pub struct ValidateHostRequest {
    pub path: String,
}

impl HostService {
    /// The hosts found under the request's root, ordered by id; `files` is
    /// what that directory holds, or the failure to read it.
    pub fn list_hosts(
        &self,
        request: ListHostsRequest,
        files: Result<Vec<HostFile>, HostIdentityError>,
    ) -> (r: Result<Vec<HostSummary>, HostIdentityError>)
        ensures
            match (files, r) {
                (Err(e), Err(f)) => e == f,
                (Ok(fs), Ok(hosts)) => hosts@.to_multiset() == host_summaries(fs@).to_multiset()
                    && is_sorted(hosts@) && keeps_tie_order(hosts@, host_summaries(fs@)),
                _ => false,
            },
    {
        list_hosts(files)
    }

    /// The host record at the request's path, as loaded.
    pub fn inspect_host(
        &self,
        request: InspectHostRequest,
        loaded: Result<HostRecord, HostIdentityError>,
    ) -> (r: Result<HostRecord, HostIdentityError>)
        ensures
            r == loaded,
    {
        loaded
    }

    /// Checks the host record at the request's path, as loaded.
    pub fn validate_host(
        &self,
        request: ValidateHostRequest,
        loaded: Result<HostRecord, HostIdentityError>,
    ) -> (r: Result<ValidationReport, HostIdentityError>)
        ensures
            match (loaded, r) {
                (Err(e), Err(f)) => e == f,
                (Ok(h), Ok(report)) => report_of(host_issues(h), report),
                _ => false,
            },
    {
        validate_host(loaded)
    }
}

// ---------------------------------------------------------------------------
// Identities
// ---------------------------------------------------------------------------

/// The identity records of a directory.
#[derive(Debug, Default)]
pub struct IdentityService;

/// A directory whose identities to list.
#[derive(Debug, Clone)]
pub struct ListIdentitiesRequest {
    pub root: String,
}

/// An identity record to inspect.
#[derive(Debug, Clone)]
pub struct InspectIdentityRequest {
    pub path: String,
}

/// An identity record to check.
#[derive(Debug, Clone)]
pub struct ValidateIdentityRequest {
    pub path: String,
}

impl IdentityService {
    /// The identities found under the request's root, ordered by id; `files`
    /// is what that directory holds, or the failure to read it.
    pub fn list_identities(
        &self,
        request: ListIdentitiesRequest,
        files: Result<Vec<IdentityFile>, HostIdentityError>,
    ) -> (r: Result<Vec<IdentitySummary>, HostIdentityError>)
        ensures
            match (files, r) {
                (Err(e), Err(f)) => e == f,
                (Ok(fs), Ok(ids)) => ids@.to_multiset() == identity_summaries(fs@).to_multiset()
                    && is_sorted(ids@) && keeps_tie_order(ids@, identity_summaries(fs@)),
                _ => false,
            },
    {
        list_identities(files)
    }

    /// The identity record at the request's path, as loaded.
    pub fn inspect_identity(
        &self,
        request: InspectIdentityRequest,
        loaded: Result<IdentityRecord, HostIdentityError>,
    ) -> (r: Result<IdentityRecord, HostIdentityError>)
        ensures
            r == loaded,
    {
        loaded
    }

    /// Checks the identity record at the request's path, with the text it was
    /// parsed from, as loaded.
    pub fn validate_identity(
        &self,
        request: ValidateIdentityRequest,
        loaded: Result<LoadedIdentity, HostIdentityError>,
    ) -> (r: Result<ValidationReport, HostIdentityError>)
        ensures
            match (loaded, r) {
                (Err(e), Err(f)) => e == f,
                (Ok(l), Ok(report)) => identity_report(l.record, l.text@, request.path@, report),
                _ => false,
            },
    {
        validate_identity(request.path.as_str(), loaded)
    }
}

// ---------------------------------------------------------------------------
// Projects
// ---------------------------------------------------------------------------

/// Creates, lists, inspects and checks projects.
#[derive(Debug, Default)]
pub struct ProjectService;

/// A project to create.
#[derive(Debug, Clone)]
pub struct CreateProjectRequest {
    pub parent: String,
    pub id: String,
    pub name: String,
    pub project_type: String,
    pub content_index: String,
    pub language: Option<String>,
    pub author: Option<String>,
}

/// A created project: where, and its schema.
#[derive(Debug, Clone)]
pub struct CreateProjectResponse {
    pub project_path: String,
    pub schema: u32,
}

/// A directory whose projects to list.
#[derive(Debug, Clone)]
pub struct ListProjectsRequest {
    pub root: String,
}

/// A project to inspect.
#[derive(Debug, Clone)]
pub struct InspectProjectRequest {
    pub path: String,
}

/// A project to check.
#[derive(Debug, Clone)]
pub struct ValidateProjectRequest {
    pub path: String,
}

/// The creation options of a request.
pub open spec fn create_options(q: CreateProjectRequest) -> ProjectCreateOptions {
    ProjectCreateOptions {
        parent: q.parent,
        id: q.id,
        name: q.name,
        project_type: q.project_type,
        content_index: q.content_index,
        language: q.language,
        author: q.author,
    }
}

impl ProjectService {
    /// Checks a project to create and gives the steps that create it (see
    /// `create_project`); `exists` tells whether its directory is already there.
    pub fn create_project(&self, request: CreateProjectRequest, exists: bool) -> (r: Result<
        ProjectCreation,
        ProjectFormatError,
    >)
        ensures
            creation_outcome(create_options(request), exists, r),
    {
        let options = ProjectCreateOptions {
            parent: request.parent,
            id: request.id,
            name: request.name,
            project_type: request.project_type,
            content_index: request.content_index,
            language: request.language,
            author: request.author,
        };
        create_project(&options, exists)
    }

    /// The projects found under the request's root, ordered by id; `found` is
    /// what walking it gave, or the failure to read it.
    pub fn list_projects(
        &self,
        request: ListProjectsRequest,
        found: Result<Vec<ProjectSummary>, ProjectFormatError>,
    ) -> (r: Result<Vec<ProjectSummary>, ProjectFormatError>)
        ensures
            match (found, r) {
                (Err(e), Err(f)) => e == f,
                (Ok(v), Ok(w)) => w@.to_multiset() == v@.to_multiset() && is_sorted(w@)
                    && keeps_tie_order(w@, v@),
                _ => false,
            },
    {
        match found {
            Err(e) => Err(e),
            Ok(v) => Ok(list_projects(v)),
        }
    }

    /// Inspects the project at the request's path (see `inspect_project`).
    pub fn inspect_project(
        &self,
        request: InspectProjectRequest,
        manifest: Result<Manifest, ProjectFormatError>,
        files: &ProjectFiles,
    ) -> (r: Result<ProjectInspection, ProjectFormatError>)
        ensures
            match (manifest, r) {
                (Err(e), Err(f)) => e == f,
                (Ok(m), Ok(i)) => is_inspection(m, *files, i),
                _ => false,
            },
    {
        inspect_project(manifest, files)
    }

    /// Checks the project at the request's path (see `validate_project`).
    pub fn validate_project(
        &self,
        request: ValidateProjectRequest,
        manifest: Result<Manifest, ProjectFormatError>,
        files: &ProjectFiles,
    ) -> (r: Result<ValidationReport, ProjectFormatError>)
        ensures
            match (manifest, r) {
                (Err(e), Err(f)) => e == f,
                (Ok(m), Ok(report)) => report_of(manifest_issues(m, *files), report),
                _ => false,
            },
    {
        validate_project(manifest, files)
    }
}

} // verus!
