use waystone::audio_write::PathKind;
use waystone::project_format::{ProjectFormatError, ProjectInspection};
use waystone::project_search::{find_projects, is_project_dir_name_exec, ProjectRootItem, ProjectSubItem};

fn inspection(id: &str) -> ProjectInspection {
    ProjectInspection {
        schema: 1,
        id: id.to_string(),
        name: id.to_uppercase(),
        project_type: "gemini-capsule".to_string(),
        content_root: "content".to_string(),
        content_index: "index.gmi".to_string(),
        publish_targets: vec![],
        warnings: vec![],
    }
}

fn root_item(name: &str, is_dir: bool) -> ProjectRootItem {
    ProjectRootItem {
        path: format!("root/{name}"),
        name: name.to_string(),
        is_dir,
        inspection: None,
        children: None,
    }
}

#[test]
fn project_directories_are_named_wayproject() {
    assert!(is_project_dir_name_exec("minimal.wayproject"));
    assert!(!is_project_dir_name_exec("minimal.wayproject.bak"));
    assert!(!is_project_dir_name_exec("category"));
}

#[test]
fn finds_projects_at_the_root_and_one_level_below() {
    let mut top = root_item("top.wayproject", true);
    top.inspection = Some(Ok(inspection("top")));
    let notes = root_item("notes.wayproject", false);
    let mut category = root_item("category", true);
    category.children = Some(Ok(vec![
        ProjectSubItem {
            path: "root/category/inner.wayproject".to_string(),
            name: "inner.wayproject".to_string(),
            is_dir: true,
            inspection: Some(Ok(inspection("inner"))),
        },
        ProjectSubItem {
            path: "root/category/broken.wayproject".to_string(),
            name: "broken.wayproject".to_string(),
            is_dir: true,
            inspection: Some(Err(ProjectFormatError::ManifestMissing("m".to_string()))),
        },
        ProjectSubItem {
            path: "root/category/deeper".to_string(),
            name: "deeper".to_string(),
            is_dir: true,
            inspection: None,
        },
    ]));
    let found = find_projects("root", PathKind::Directory, Ok(vec![top, notes, category]))
        .expect("projects should be found");
    let paths: Vec<&str> = found.iter().map(|p| p.path.as_str()).collect();
    assert_eq!(paths, vec!["root/top.wayproject", "root/category/inner.wayproject"]);
    assert_eq!(found[1].id, "inner");
    assert_eq!(found[1].name, "INNER");
}

#[test]
fn a_directory_that_cannot_be_listed_stops_the_search() {
    let mut category = root_item("category", true);
    category.children = Some(Err(ProjectFormatError::ReadDirectoryFailed {
        path: "root/category".to_string(),
        message: "denied".to_string(),
    }));
    let result = find_projects("root", PathKind::Directory, Ok(vec![category]));
    assert!(matches!(result, Err(ProjectFormatError::ReadDirectoryFailed { path, .. }) if path == "root/category"));
}

#[test]
fn the_root_must_be_a_directory() {
    assert!(matches!(
        find_projects("nowhere", PathKind::Missing, Ok(vec![])),
        Err(ProjectFormatError::ProjectNotFound(p)) if p == "nowhere"
    ));
    assert!(matches!(
        find_projects("file.txt", PathKind::File, Ok(vec![])),
        Err(ProjectFormatError::ProjectNotDirectory(p)) if p == "file.txt"
    ));
}
