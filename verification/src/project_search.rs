use vstd::prelude::*;
use crate::audio_write::PathKind;
use crate::project_format::{ProjectFormatError, ProjectInspection, ProjectSummary};
use crate::text::{ends_with_exec, ends_with_text};

verus! {

/// A directory holds a project when its name ends with `.wayproject`.
pub open spec fn is_project_dir_name(name: Seq<char>) -> bool {
    ends_with_text(name, ".wayproject"@)
}

/// Whether a directory of this name holds a project.
pub fn is_project_dir_name_exec(name: &str) -> (r: bool)
    ensures
        r == is_project_dir_name(name@),
{
    ends_with_exec(name, ".wayproject")
}

/// An item of a directory one level below the root: its path, its name,
/// whether it is a directory, and, for a project directory, its inspection.
#[derive(Debug)]
pub struct ProjectSubItem {
    pub path: String,
    pub name: String,
    pub is_dir: bool,
    pub inspection: Option<Result<ProjectInspection, ProjectFormatError>>,
}

/// An item of the root: as a sub-item, and, for a directory that is not a
/// project, what it holds (or the failure to list it).
#[derive(Debug)]
pub struct ProjectRootItem {
    pub path: String,
    pub name: String,
    pub is_dir: bool,
    pub inspection: Option<Result<ProjectInspection, ProjectFormatError>>,
    pub children: Option<Result<Vec<ProjectSubItem>, ProjectFormatError>>,
}

pub open spec fn summary_of(i: ProjectInspection, path: String) -> ProjectSummary {
    ProjectSummary { schema: i.schema, id: i.id, name: i.name, project_type: i.project_type, path }
}

/// The project that an item names, if it is a project directory whose
/// inspection succeeded.
pub open spec fn project_of(
    is_dir: bool,
    name: Seq<char>,
    path: String,
    inspection: Option<Result<ProjectInspection, ProjectFormatError>>,
) -> Seq<ProjectSummary> {
    if is_dir && is_project_dir_name(name) {
        match inspection {
            Some(Ok(i)) => seq![summary_of(i, path)],
            _ => Seq::empty(),
        }
    } else {
        Seq::empty()
    }
}

/// The projects among the items one level below the root, in order.
pub open spec fn sub_projects(items: Seq<ProjectSubItem>) -> Seq<ProjectSummary>
    decreases items.len(),
{
    if items.len() == 0 {
        Seq::empty()
    } else {
        let x = items.last();
        sub_projects(items.drop_last()) + project_of(x.is_dir, x.name@, x.path, x.inspection)
    }
}

/// The projects found under the root items, in order, or the first failure
/// to list a directory that is not a project.
pub open spec fn root_projects(items: Seq<ProjectRootItem>) -> Result<Seq<ProjectSummary>, ProjectFormatError>
    decreases items.len(),
{
    if items.len() == 0 {
        Ok(Seq::empty())
    } else {
        match root_projects(items.drop_last()) {
            Err(e) => Err(e),
            Ok(found) => {
                let x = items.last();
                if !x.is_dir {
                    Ok(found)
                } else if is_project_dir_name(x.name@) {
                    Ok(found + project_of(x.is_dir, x.name@, x.path, x.inspection))
                } else {
                    match x.children {
                        Some(Err(e)) => Err(e),
                        Some(Ok(subs)) => Ok(found + sub_projects(subs@)),
                        None => Ok(found),
                    }
                }
            },
        }
    }
}

fn project_from(
    is_dir: bool,
    name: &str,
    path: String,
    inspection: Option<Result<ProjectInspection, ProjectFormatError>>,
) -> (r: Option<ProjectSummary>)
    ensures
        project_of(is_dir, name@, path, inspection) == (match r {
            Some(s) => seq![s],
            None => Seq::<ProjectSummary>::empty(),
        }),
{
    if is_dir && is_project_dir_name_exec(name) {
        match inspection {
            Some(Ok(i)) => Some(
                ProjectSummary {
                    schema: i.schema,
                    id: i.id,
                    name: i.name,
                    project_type: i.project_type,
                    path,
                },
            ),
            _ => None,
        }
    } else {
        None
    }
}

fn collect_sub_projects(items: Vec<ProjectSubItem>, found: &mut Vec<ProjectSummary>)
    ensures
        final(found)@ == old(found)@ + sub_projects(items@),
{
    let ghost orig = items@;
    let ghost start = found@;
    let mut rest = items;
    let ghost mut k: int = 0;
    while rest.len() > 0
        invariant
            0 <= k <= orig.len(),
            rest@.len() + k == orig.len(),
            rest@ == orig.skip(k),
            found@ == start + sub_projects(orig.take(k)),
        decreases rest@.len(),
    {
        let x = rest.remove(0);
        assert(x == orig[k]);
        let ghost before = found@;
        match project_from(x.is_dir, x.name.as_str(), x.path, x.inspection) {
            Some(s) => found.push(s),
            None => {},
        }
        assert(orig.take(k + 1).drop_last() =~= orig.take(k));
        assert(found@ =~= start + sub_projects(orig.take(k + 1)));
        assert(rest@ =~= orig.skip(k + 1));
        proof {
            k = k + 1;
        }
    }
    assert(orig.take(k) =~= orig);
}

/// The projects under a root, in the order in which the root and the
/// directories below it list them: the root must be a directory; a
/// `.wayproject` directory counts when its inspection succeeded, and other
/// directories directly under the root are searched one level down. A
/// failure to list the root or one of those directories is handed back.
pub fn find_projects(
    root: &str,
    kind: PathKind,
    items: Result<Vec<ProjectRootItem>, ProjectFormatError>,
) -> (r: Result<Vec<ProjectSummary>, ProjectFormatError>)
    ensures
        kind == PathKind::Missing ==> (r matches Err(ProjectFormatError::ProjectNotFound(p)) && p@
            == root@),
        kind != PathKind::Missing && kind != PathKind::Directory ==> (r matches Err(
            ProjectFormatError::ProjectNotDirectory(p),
        ) && p@ == root@),
        kind == PathKind::Directory ==> match items {
            Err(e) => r == Err::<Vec<ProjectSummary>, ProjectFormatError>(e),
            Ok(v) => match (root_projects(v@), r) {
                (Ok(s), Ok(found)) => found@ == s,
                (Err(e), Err(f)) => e == f,
                _ => false,
            },
        },
{
    match kind {
        PathKind::Missing => return Err(ProjectFormatError::ProjectNotFound(root.to_string())),
        PathKind::Directory => {},
        _ => return Err(ProjectFormatError::ProjectNotDirectory(root.to_string())),
    }
    let v = match items {
        Err(e) => return Err(e),
        Ok(v) => v,
    };
    let ghost orig = v@;
    let mut rest = v;
    let mut found: Vec<ProjectSummary> = Vec::new();
    let ghost mut k: int = 0;
    while rest.len() > 0
        invariant
            0 <= k <= orig.len(),
            rest@.len() + k == orig.len(),
            rest@ == orig.skip(k),
            kind == PathKind::Directory,
            items matches Ok(v) && v@ == orig,
            root_projects(orig.take(k)) == Ok::<Seq<ProjectSummary>, ProjectFormatError>(found@),
        decreases rest@.len(),
    {
        let x = rest.remove(0);
        assert(x == orig[k]);
        assert(orig.take(k + 1).drop_last() =~= orig.take(k));
        assert(orig.take(k + 1).last() == x);
        let ghost before = found@;
        let ghost xv = x;
        if x.is_dir {
            if is_project_dir_name_exec(x.name.as_str()) {
                match project_from(x.is_dir, x.name.as_str(), x.path, x.inspection) {
                    Some(s) => found.push(s),
                    None => {},
                }
            } else {
                match x.children {
                    Some(Err(e)) => {
                        proof {
                            lemma_root_projects_error_stays(orig, k + 1, e);
                        }
                        return Err(e);
                    },
                    Some(Ok(subs)) => collect_sub_projects(subs, &mut found),
                    None => {},
                }
            }
        }
        proof {
            if !xv.is_dir {
                assert(found@ =~= before);
            } else if is_project_dir_name(xv.name@) {
                assert(found@ =~= before + project_of(xv.is_dir, xv.name@, xv.path, xv.inspection));
            } else {
                match xv.children {
                    Some(Ok(subs)) => assert(found@ =~= before + sub_projects(subs@)),
                    _ => assert(found@ =~= before),
                }
            }
        }
        assert(root_projects(orig.take(k + 1)) == Ok::<Seq<ProjectSummary>, ProjectFormatError>(found@));
        assert(rest@ =~= orig.skip(k + 1));
        proof {
            k = k + 1;
        }
    }
    assert(orig.take(k) =~= orig);
    Ok(found)
}

/// Once the items so far end in a failure, the items after them keep it.
proof fn lemma_root_projects_error_stays(items: Seq<ProjectRootItem>, n: int, e: ProjectFormatError)
    requires
        0 <= n <= items.len(),
        root_projects(items.take(n)) == Err::<Seq<ProjectSummary>, ProjectFormatError>(e),
    ensures
        root_projects(items) == Err::<Seq<ProjectSummary>, ProjectFormatError>(e),
    decreases items.len() - n,
{
    if n < items.len() {
        assert(items.take(n + 1).drop_last() =~= items.take(n));
        lemma_root_projects_error_stays(items, n + 1, e);
    } else {
        assert(items.take(n) =~= items);
    }
}

} // verus!
