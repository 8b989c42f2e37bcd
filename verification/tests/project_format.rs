use waystone::project_format::{
    create_project, inspect_project, list_projects, validate_project, ContentSection, CreateStep,
    Manifest, ProjectCreateOptions, ProjectFiles, ProjectFormatError, ProjectSection,
    ProjectSummary, WaystoneSection,
};

fn minimal_capsule() -> Manifest {
    Manifest {
        waystone: WaystoneSection { schema: 1, created_by: Some("WaystoneOS".to_string()) },
        project: ProjectSection {
            id: "minimal-capsule".to_string(),
            name: "Minimal Capsule".to_string(),
            project_type: "capsule".to_string(),
            language: Some("en".to_string()),
            author: None,
            description: None,
        },
        content: ContentSection { root: "content".to_string(), index: "index.gmi".to_string() },
        audio: None,
        feed: None,
        publish: None,
    }
}

fn present() -> ProjectFiles {
    ProjectFiles { content_root_is_dir: true, content_index_is_file: true, feed_file_is_file: false }
}

#[test]
fn validates_minimal_capsule_example() {
    let report = validate_project(Ok(minimal_capsule()), &present())
        .expect("minimal capsule fixture should load");
    assert!(report.valid, "{report:#?}");
}

#[test]
fn reports_missing_content_index() {
    let files = ProjectFiles { content_index_is_file: false, ..present() };
    let report =
        validate_project(Ok(minimal_capsule()), &files).expect("invalid fixture should still parse");

    assert!(!report.valid);
    assert!(report.errors.iter().any(|issue| issue.code == "missing_content_index"));
}

#[test]
fn rejects_path_traversal() {
    let mut manifest = minimal_capsule();
    manifest.content.root = "../outside".to_string();
    let report = validate_project(Ok(manifest), &present()).expect("invalid fixture should still parse");

    assert!(!report.valid);
    assert!(report.errors.iter().any(|issue| issue.code == "invalid_project_path"));
}

#[test]
fn rejects_absolute_paths() {
    let mut manifest = minimal_capsule();
    manifest.content.root = "/srv/content".to_string();
    let report = validate_project(Ok(manifest), &present()).expect("invalid fixture should still parse");

    assert!(!report.valid);
    assert!(report.errors.iter().any(|issue| issue.code == "invalid_project_path"));
}

#[test]
fn inspects_project_identity() {
    let inspection = inspect_project(Ok(minimal_capsule()), &present())
        .expect("minimal capsule fixture should inspect");

    assert_eq!(inspection.schema, 1);
    assert_eq!(inspection.id, "minimal-capsule");
    assert_eq!(inspection.project_type, "capsule");
}

#[test]
fn missing_index_message_names_the_path() {
    let files = ProjectFiles { content_index_is_file: false, ..present() };
    let report = validate_project(Ok(minimal_capsule()), &files).expect("manifest loads");
    let issue = report.errors.iter().find(|i| i.code == "missing_content_index").expect("issue");
    assert_eq!(issue.message, "content index is missing: content/index.gmi");
    assert_eq!(issue.path.as_deref(), Some("content/index.gmi"));
}

#[test]
fn unsupported_schema_and_type_are_errors() {
    let mut manifest = minimal_capsule();
    manifest.waystone.schema = 2;
    manifest.project.project_type = "blog".to_string();
    let report = validate_project(Ok(manifest), &present()).expect("manifest loads");
    let codes: Vec<&str> = report.errors.iter().map(|i| i.code).collect();
    assert_eq!(codes, vec!["unsupported_schema", "unsupported_project_type"]);
    assert_eq!(report.errors[0].message, "schema 2 is not supported; expected 1");
}

#[test]
fn a_failed_load_is_handed_back() {
    let result = validate_project(Err(ProjectFormatError::ManifestMissing("p/project.toml".to_string())), &present());
    assert!(matches!(result, Err(ProjectFormatError::ManifestMissing(p)) if p == "p/project.toml"));
}

fn create_options(id: &str, project_type: &str) -> ProjectCreateOptions {
    ProjectCreateOptions {
        parent: "/tmp/projects".to_string(),
        id: id.to_string(),
        name: "Created Capsule".to_string(),
        project_type: project_type.to_string(),
        content_index: "index.gmi".to_string(),
        language: Some("en".to_string()),
        author: None,
    }
}

#[test]
fn creation_plans_the_project_directory() {
    let created = create_project(&create_options("created-capsule", "capsule"), false)
        .expect("project should be planned");
    assert_eq!(created.project_path, "/tmp/projects/created-capsule.wayproject");
    assert_eq!(created.schema, 1);
    let last = created.steps.last().expect("steps");
    assert!(matches!(last, CreateStep::Rename { to, .. } if to == "/tmp/projects/created-capsule.wayproject/project.toml"));
}

#[test]
fn creation_refuses_bad_ids_types_and_existing_projects() {
    assert!(matches!(
        create_project(&create_options("bad id", "capsule"), false),
        Err(ProjectFormatError::InvalidProjectId(v)) if v == "bad id"
    ));
    assert!(matches!(
        create_project(&create_options("ok", "blog"), false),
        Err(ProjectFormatError::InvalidProjectType(v)) if v == "blog"
    ));
    assert!(matches!(
        create_project(&create_options("ok", "capsule"), true),
        Err(ProjectFormatError::ProjectAlreadyExists(p)) if p == "/tmp/projects/ok.wayproject"
    ));
}

#[test]
fn projects_are_listed_by_id() {
    let summary = |id: &str| ProjectSummary {
        schema: 1,
        id: id.to_string(),
        name: id.to_string(),
        project_type: "capsule".to_string(),
        path: format!("/p/{id}.wayproject"),
    };
    let listed = list_projects(vec![summary("zeta"), summary("alpha"), summary("mid")]);
    let ids: Vec<&str> = listed.iter().map(|p| p.id.as_str()).collect();
    assert_eq!(ids, vec!["alpha", "mid", "zeta"]);
}

#[test]
fn project_errors_read_as_messages() {
    assert_eq!(
        ProjectFormatError::InvalidProjectPath {
            field: "content.root".to_string(),
            value: "../x".to_string()
        }
        .message(),
        "invalid project path in content.root: ../x"
    );
    assert_eq!(
        ProjectFormatError::DuplicatePublishTarget("export".to_string()).message(),
        "duplicate publish target: export"
    );
}
