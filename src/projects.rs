use vstd::prelude::*;
use crate::ids::{fresh_id, now_rfc3339, resolve_id};
use crate::model::{copy_opt, Column, Project, ProjectV};
use crate::store::{ops_of, Op, Stmt};

verus! {

/// The title of the `k`-th column that a new project starts with.
pub open spec fn default_title(k: int) -> Seq<char> {
    if k == 0 {
        "待办"@
    } else if k == 1 {
        "进行中"@
    } else {
        "已完成"@
    }
}

/// The background colour of the `k`-th column that a new project starts with.
pub open spec fn default_color(k: int) -> Seq<char> {
    if k == 0 {
        "#f8fafc"@
    } else if k == 1 {
        "#eff6ff"@
    } else {
        "#f0fdf4"@
    }
}

/// Whether `op` inserts the `k`-th default column of project `pid`, made at `now`.
pub open spec fn is_default_column(op: Op, pid: Seq<char>, k: int, now: Seq<char>) -> bool {
    match op {
        Op::InsertColumn(p, c) => p == pid && c.id.len() == 36 && c.title == default_title(k)
            && c.position == k && c.card_ids.len() == 0 && c.background_color == Some(
            default_color(k),
        ) && c.created_at == now && c.updated_at == now,
        _ => false,
    }
}

/// The statement that inserts the `k`-th default column of a project.
fn default_column(project_id: &String, k: usize, now: &String) -> (r: Stmt)
    requires
        k < 3,
    ensures
        is_default_column(r@, project_id@, k as int, now@),
{
    let (title, position, color) = if k == 0 {
        ("待办", 0i32, "#f8fafc")
    } else if k == 1 {
        ("进行中", 1i32, "#eff6ff")
    } else {
        ("已完成", 2i32, "#f0fdf4")
    };
    proof {
        reveal_strlit("待办");
        reveal_strlit("进行中");
        reveal_strlit("已完成");
        reveal_strlit("#f8fafc");
        reveal_strlit("#eff6ff");
        reveal_strlit("#f0fdf4");
    }
    let column = Column {
        id: fresh_id(),
        title: title.to_owned(),
        position: position,
        card_ids: Vec::new(),
        background_color: Some(color.to_owned()),
        created_at: now.clone(),
        updated_at: now.clone(),
    };
    Stmt::InsertColumn(project_id.clone(), column)
}

/// The three columns a new project starts with: to do, in progress and done,
/// at positions 0, 1 and 2.
pub fn create_default_columns(project_id: &String, now: &String) -> (r: Vec<Stmt>)
    ensures
        r@.len() == 3,
        forall|k: int| 0 <= k < 3 ==> is_default_column(#[trigger] r@[k]@, project_id@, k, now@),
{
    let mut r: Vec<Stmt> = Vec::new();
    let mut k: usize = 0;
    while k < 3
        invariant
            k <= 3,
            r@.len() == k,
            forall|j: int| 0 <= j < k ==> is_default_column(#[trigger] r@[j]@, project_id@, j, now@),
        decreases 3 - k,
    {
        r.push(default_column(project_id, k, now));
        k = k + 1;
    }
    r
}

/// Creates a project: the project as stored, and the statements that insert it
/// and then its three default columns. An empty id is replaced by a freshly
/// generated one; both timestamps are the time of creation.
pub fn create_project(project: &Project) -> (r: (Project, Vec<Stmt>))
    ensures
        project.id@.len() > 0 ==> r.0.id@ == project.id@,
        project.id@.len() == 0 ==> r.0.id@.len() == 36,
        r.0@ == (ProjectV {
            id: r.0.id@,
            created_at: r.0.created_at@,
            updated_at: r.0.created_at@,
            ..project@
        }),
        r.1@.len() == 4,
        r.1@[0]@ == Op::InsertProject(r.0@),
        forall|k: int|
            0 <= k < 3 ==> is_default_column(#[trigger] r.1@[k + 1]@, r.0.id@, k, r.0.created_at@),
{
    let now = now_rfc3339();
    let id = resolve_id(&project.id);
    let stored = Project {
        id: id,
        name: project.name.clone(),
        description: copy_opt(&project.description),
        created_at: now.clone(),
        updated_at: now.clone(),
    };
    let mut stmts: Vec<Stmt> = Vec::new();
    stmts.push(Stmt::InsertProject(stored.duplicate()));
    let mut columns = create_default_columns(&stored.id, &now);
    stmts.append(&mut columns);
    (stored, stmts)
}

/// Updates a project's name and description, stamped with the time of the
/// update; its id and creation time are kept as given.
pub fn update_project(project: &Project) -> (r: (Project, Stmt))
    ensures
        r.0@ == (ProjectV { updated_at: r.0.updated_at@, ..project@ }),
        r.1@ == Op::UpdateProject(r.0@),
{
    let now = now_rfc3339();
    let mut stored = project.duplicate();
    stored.updated_at = now;
    let stmt = Stmt::UpdateProject(stored.duplicate());
    (stored, stmt)
}

/// Deletes a project; the schema's cascade removes its columns and cards.
pub fn delete_project(project_id: &String) -> (r: Stmt)
    ensures
        r@ == Op::DeleteProject(project_id@),
{
    Stmt::DeleteProject(project_id.clone())
}

/// What follows the deletion of project `pid`, given the current-project
/// setting read after it: the setting is cleared where it named `pid`.
pub open spec fn clear_after_delete_ops(pid: Seq<char>, current: Option<Seq<char>>) -> Seq<Op> {
    if current == Some(pid) {
        seq![Op::ClearCurrentProject]
    } else {
        Seq::empty()
    }
}

/// The statements that follow the deletion of a project, given the
/// current-project setting as it stands after it.
pub fn clear_current_after_delete(project_id: &String, current: &Option<String>) -> (r: Vec<Stmt>)
    ensures
        ops_of(r@) == clear_after_delete_ops(
            project_id@,
            match current {
                Some(c) => Some(c@),
                None => None,
            },
        ),
{
    let mut r: Vec<Stmt> = Vec::new();
    match current {
        Some(c) => {
            if *c == *project_id {
                r.push(Stmt::ClearCurrentProject);
            }
        },
        None => {},
    }
    assert(ops_of(r@) =~= clear_after_delete_ops(
        project_id@,
        match current {
            Some(c) => Some(c@),
            None => None,
        },
    ));
    r
}

/// Makes a project the current one.
pub fn set_current_project(project_id: &String) -> (r: Stmt)
    ensures
        r@ == Op::SetCurrentProject(project_id@),
{
    Stmt::SetCurrentProject(project_id.clone())
}

} // verus!
