use zetodo::board::{
    assemble_board, card_ids_in_column, completed_code, completed_from_code, create_card,
    create_column, delete_card, delete_column, get_board, move_card, save_board, update_card,
    update_column,
};
use zetodo::gateway::abort_statements;
use zetodo::{Board, Card, Column, MoveCardParams, Stmt};

fn card(id: &str, column_id: &str, position: i32) -> Card {
    Card {
        id: id.to_string(),
        title: format!("card {}", id),
        description: None,
        column_id: column_id.to_string(),
        position,
        completed: None,
        priority: "low".to_string(),
        start_date: None,
        due_date: None,
        created_at: "2024-01-01T00:00:00+00:00".to_string(),
        updated_at: "2024-01-01T00:00:00+00:00".to_string(),
    }
}

fn column(id: &str, position: i32) -> Column {
    Column {
        id: id.to_string(),
        title: format!("column {}", id),
        position,
        card_ids: Vec::new(),
        background_color: Some("#ffffff".to_string()),
        created_at: "2024-01-01T00:00:00+00:00".to_string(),
        updated_at: "2024-01-01T00:00:00+00:00".to_string(),
    }
}

#[test]
fn card_ids_follow_card_order() {
    let cards = vec![card("a", "c1", 0), card("b", "c2", 0), card("c", "c1", 1)];
    let ids = card_ids_in_column(&cards, &"c1".to_string());
    assert_eq!(ids, vec!["a".to_string(), "c".to_string()]);
    let none = card_ids_in_column(&cards, &"c3".to_string());
    assert!(none.is_empty());
}

#[test]
fn assemble_board_fills_card_ids() {
    let columns = vec![column("c1", 0), column("c2", 1), column("c3", 2)];
    let cards = vec![card("a", "c1", 0), card("b", "c2", 0), card("c", "c1", 1)];
    let board = assemble_board(&"p".to_string(), &columns, cards.clone(), "now".to_string());
    assert_eq!(board.id, "p");
    assert_eq!(board.title, "看板");
    assert_eq!(board.created_at, "now");
    assert_eq!(board.updated_at, "now");
    assert_eq!(board.cards, cards);
    assert_eq!(board.columns.len(), 3);
    assert_eq!(board.columns[0].card_ids, vec!["a".to_string(), "c".to_string()]);
    assert_eq!(board.columns[1].card_ids, vec!["b".to_string()]);
    assert!(board.columns[2].card_ids.is_empty());
    assert_eq!(board.columns[1].title, "column c2");
    assert_eq!(board.columns[1].position, 1);
}

#[test]
fn get_board_stamps_read_time() {
    let board = get_board(&"p".to_string(), &vec![column("c1", 0)], vec![card("a", "c1", 0)]);
    assert!(!board.created_at.is_empty());
    assert_eq!(board.created_at, board.updated_at);
    assert_eq!(board.columns[0].card_ids, vec!["a".to_string()]);
}

#[test]
fn save_board_replaces_in_one_transaction() {
    let board = Board {
        id: "p".to_string(),
        title: "看板".to_string(),
        columns: vec![column("c1", 0), column("c2", 1)],
        cards: vec![card("a", "c1", 0)],
        created_at: "t".to_string(),
        updated_at: "t".to_string(),
    };
    let plan = save_board(&"p".to_string(), &board);
    assert_eq!(
        plan,
        vec![
            Stmt::Begin,
            Stmt::DeleteCardsOfProject("p".to_string()),
            Stmt::DeleteColumnsOfProject("p".to_string()),
            Stmt::InsertColumn("p".to_string(), column("c1", 0)),
            Stmt::InsertColumn("p".to_string(), column("c2", 1)),
            Stmt::InsertCard("p".to_string(), card("a", "c1", 0)),
            Stmt::Commit,
        ]
    );
}

#[test]
fn failed_save_is_rolled_back() {
    let board = Board {
        id: "p".to_string(),
        title: "看板".to_string(),
        columns: vec![column("c1", 0)],
        cards: vec![card("a", "c1", 0), card("b", "c1", 1)],
        created_at: "t".to_string(),
        updated_at: "t".to_string(),
    };
    let plan = save_board(&"p".to_string(), &board);
    // the second card's insert is refused
    assert_eq!(abort_statements(&plan, 5), vec![Stmt::Rollback]);
    // nothing was begun yet
    assert!(abort_statements(&plan, 0).is_empty());
    // the commit went through
    assert!(abort_statements(&plan, plan.len()).is_empty());
}

#[test]
fn create_card_generates_fresh_ids() {
    let mut input = card("", "c1", 3);
    input.title = "t".to_string();
    let (first, stmt) = create_card(&"p".to_string(), &input);
    assert!(!first.id.is_empty());
    assert_eq!(first.id.len(), 36);
    assert_eq!(first.created_at, first.updated_at);
    assert_eq!(first.title, "t");
    assert_eq!(first.position, 3);
    assert_eq!(stmt, Stmt::InsertCard("p".to_string(), first.clone()));
    let (second, _) = create_card(&"p".to_string(), &input);
    assert_ne!(first.id, second.id);
}

#[test]
fn create_card_keeps_given_id() {
    let input = card("mine", "c1", 0);
    let (stored, _) = create_card(&"p".to_string(), &input);
    assert_eq!(stored.id, "mine");
    assert_ne!(stored.created_at, input.created_at);
}

#[test]
fn update_card_keeps_creation_time() {
    let mut input = card("a", "c2", 4);
    input.completed = Some(true);
    let (stored, stmt) = update_card(&input);
    assert_eq!(stored.created_at, input.created_at);
    assert_ne!(stored.updated_at, input.updated_at);
    assert_eq!(stored.completed, Some(true));
    assert_eq!(stmt, Stmt::UpdateCard(stored.clone()));
}

#[test]
fn delete_card_by_id() {
    assert_eq!(delete_card(&"a".to_string()), Stmt::DeleteCard("a".to_string()));
}

#[test]
fn move_card_ignores_origin_column() {
    let params = MoveCardParams {
        card_id: "a".to_string(),
        from_column_id: "c1".to_string(),
        to_column_id: "c2".to_string(),
        new_position: 7,
    };
    match move_card(&params) {
        Stmt::MoveCard(id, col, pos, at) => {
            assert_eq!(id, "a");
            assert_eq!(col, "c2");
            assert_eq!(pos, 7);
            assert!(!at.is_empty());
        }
        other => panic!("unexpected statement {:?}", other),
    }
}

#[test]
fn create_column_starts_empty() {
    let mut input = column("", 5);
    input.card_ids = vec!["x".to_string()];
    let (stored, stmt) = create_column(&"p".to_string(), &input);
    assert_eq!(stored.id.len(), 36);
    assert!(stored.card_ids.is_empty());
    assert_eq!(stored.created_at, stored.updated_at);
    assert_eq!(stored.position, 5);
    assert_eq!(stmt, Stmt::InsertColumn("p".to_string(), stored.clone()));
}

#[test]
fn update_column_keeps_card_ids() {
    let mut input = column("c1", 2);
    input.card_ids = vec!["x".to_string()];
    let (stored, stmt) = update_column(&input);
    assert_eq!(stored.card_ids, vec!["x".to_string()]);
    assert_eq!(stored.created_at, input.created_at);
    assert_ne!(stored.updated_at, input.updated_at);
    assert_eq!(stmt, Stmt::UpdateColumn(stored.clone()));
}

#[test]
fn delete_column_removes_cards_first() {
    assert_eq!(
        delete_column(&"c1".to_string()),
        vec![Stmt::DeleteCardsOfColumn("c1".to_string()), Stmt::DeleteColumn("c1".to_string())]
    );
}

#[test]
fn completed_round_trip() {
    assert_eq!(completed_code(Some(true)), Some(1));
    assert_eq!(completed_code(Some(false)), Some(0));
    assert_eq!(completed_code(None), None);
    assert_eq!(completed_from_code(Some(1)), Some(true));
    assert_eq!(completed_from_code(Some(0)), Some(false));
    assert_eq!(completed_from_code(Some(5)), Some(false));
    assert_eq!(completed_from_code(None), None);
}

#[test]
fn saved_board_reads_back() {
    let mut c1 = column("c1", 0);
    c1.card_ids = vec!["stale".to_string()];
    let board = Board {
        id: "p".to_string(),
        title: "看板".to_string(),
        columns: vec![c1, column("c2", 1)],
        cards: vec![card("a", "c2", 0), card("b", "c1", 1), card("c", "c2", 2)],
        created_at: "t".to_string(),
        updated_at: "t".to_string(),
    };
    let plan = save_board(&"p".to_string(), &board);
    let mut columns = Vec::new();
    let mut cards = Vec::new();
    for stmt in plan {
        match stmt {
            Stmt::InsertColumn(_, mut c) => {
                c.card_ids = Vec::new();
                columns.push(c);
            }
            Stmt::InsertCard(_, c) => cards.push(c),
            _ => {}
        }
    }
    let read = assemble_board(&"p".to_string(), &columns, cards, "now".to_string());
    assert_eq!(read.cards, board.cards);
    assert_eq!(read.columns.len(), 2);
    assert_eq!(read.columns[0].id, "c1");
    assert_eq!(read.columns[0].card_ids, vec!["b".to_string()]);
    assert_eq!(read.columns[1].card_ids, vec!["a".to_string(), "c".to_string()]);
    assert_eq!(read.columns[1].title, board.columns[1].title);
    assert_eq!(read.columns[1].created_at, board.columns[1].created_at);
}
