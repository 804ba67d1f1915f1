use zetodo::gateway::check_access;
use zetodo::ids::resolve_id;
use zetodo::projects::{
    clear_current_after_delete, create_default_columns, create_project, delete_project,
    set_current_project, update_project,
};
use zetodo::schema::{migration_sql, run_migrations, LATEST_VERSION};
use zetodo::{DbError, Project, Stmt};

fn project(id: &str, name: &str) -> Project {
    Project {
        id: id.to_string(),
        name: name.to_string(),
        description: None,
        created_at: "2024-01-01T00:00:00+00:00".to_string(),
        updated_at: "2024-01-01T00:00:00+00:00".to_string(),
    }
}

#[test]
fn new_project_gets_three_default_columns() {
    let (stored, stmts) = create_project(&project("", "X"));
    assert_eq!(stored.id.len(), 36);
    assert_eq!(stored.name, "X");
    assert_eq!(stored.created_at, stored.updated_at);
    assert_eq!(stmts.len(), 4);
    assert_eq!(stmts[0], Stmt::InsertProject(stored.clone()));
    let expected = [("待办", 0, "#f8fafc"), ("进行中", 1, "#eff6ff"), ("已完成", 2, "#f0fdf4")];
    let mut ids = Vec::new();
    for (k, (title, position, color)) in expected.iter().enumerate() {
        match &stmts[k + 1] {
            Stmt::InsertColumn(pid, c) => {
                assert_eq!(pid, &stored.id);
                assert_eq!(c.title, *title);
                assert_eq!(c.position, *position);
                assert_eq!(c.background_color.as_deref(), Some(*color));
                assert_eq!(c.created_at, stored.created_at);
                assert_eq!(c.id.len(), 36);
                ids.push(c.id.clone());
            }
            other => panic!("unexpected statement {:?}", other),
        }
    }
    assert_ne!(ids[0], ids[1]);
    assert_ne!(ids[1], ids[2]);
}

#[test]
fn new_project_keeps_given_id() {
    let (stored, _) = create_project(&project("p1", "X"));
    assert_eq!(stored.id, "p1");
}

#[test]
fn default_columns_alone() {
    let stmts = create_default_columns(&"p".to_string(), &"now".to_string());
    assert_eq!(stmts.len(), 3);
}

#[test]
fn update_project_stamps_time() {
    let input = project("p1", "Y");
    let (stored, stmt) = update_project(&input);
    assert_eq!(stored.id, "p1");
    assert_eq!(stored.name, "Y");
    assert_eq!(stored.created_at, input.created_at);
    assert_ne!(stored.updated_at, input.updated_at);
    assert_eq!(stmt, Stmt::UpdateProject(stored.clone()));
}

#[test]
fn deleting_current_project_clears_it() {
    assert_eq!(set_current_project(&"p".to_string()), Stmt::SetCurrentProject("p".to_string()));
    assert_eq!(delete_project(&"p".to_string()), Stmt::DeleteProject("p".to_string()));
    let after = clear_current_after_delete(&"p".to_string(), &Some("p".to_string()));
    assert_eq!(after, vec![Stmt::ClearCurrentProject]);
}

#[test]
fn deleting_other_project_keeps_current() {
    assert!(clear_current_after_delete(&"p".to_string(), &Some("q".to_string())).is_empty());
    assert!(clear_current_after_delete(&"p".to_string(), &None).is_empty());
}

#[test]
fn migrations_run_in_order_once() {
    assert_eq!(LATEST_VERSION, 2);
    assert_eq!(run_migrations(0), vec![1, 2]);
    assert_eq!(run_migrations(1), vec![2]);
    assert_eq!(run_migrations(2), Vec::<i32>::new());
    assert_eq!(run_migrations(-3), vec![1, 2]);
    assert_eq!(run_migrations(9), Vec::<i32>::new());
}

#[test]
fn second_migration_run_does_nothing() {
    let first = run_migrations(0);
    let reached = *first.last().unwrap();
    assert!(run_migrations(reached).is_empty());
}

#[test]
fn access_errors() {
    assert_eq!(check_access(true, false), Ok(()));
    assert_eq!(check_access(false, false), Err(DbError::NotInitialized));
    assert_eq!(check_access(false, true), Err(DbError::NotInitialized));
    assert_eq!(check_access(true, true), Err(DbError::LockPoisoned));
}

#[test]
fn resolve_id_fills_empty() {
    assert_eq!(resolve_id(&"abc".to_string()), "abc");
    let fresh = resolve_id(&String::new());
    assert_eq!(fresh.len(), 36);
    assert_eq!(fresh.matches('-').count(), 4);
}

#[test]
fn migration_steps_have_their_statements() {
    let first = migration_sql(1);
    assert_eq!(first.len(), 9);
    assert!(first[0].starts_with("CREATE TABLE IF NOT EXISTS projects"));
    assert!(first[1].contains("ON DELETE CASCADE"));
    let second = migration_sql(2);
    assert_eq!(second.len(), 3);
    assert!(second[0].contains("priority TEXT DEFAULT 'low'"));
    assert!(migration_sql(3).is_empty());
    assert!(migration_sql(0).is_empty());
}
