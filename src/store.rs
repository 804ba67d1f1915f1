use vstd::prelude::*;
use crate::model::{Card, CardV, Column, ColumnV, Project, ProjectV};

verus! {

/// One statement that an operation of the store issues to the engine.
#[derive(Clone, Debug, PartialEq, Eq)]
pub enum Stmt {
    Begin,
    Commit,
    Rollback,
    InsertProject(Project),
    UpdateProject(Project),
    DeleteProject(String),
    SetCurrentProject(String),
    ClearCurrentProject,
    /// Owning project id, then the column.
    InsertColumn(String, Column),
    UpdateColumn(Column),
    DeleteColumn(String),
    DeleteColumnsOfProject(String),
    /// Owning project id, then the card.
    InsertCard(String, Card),
    UpdateCard(Card),
    /// Card id, target column id, new position, update time.
    MoveCard(String, String, i32, String),
    DeleteCard(String),
    DeleteCardsOfColumn(String),
    DeleteCardsOfProject(String),
}

/// The value of a statement.
pub enum Op {
    Begin,
    Commit,
    Rollback,
    InsertProject(ProjectV),
    UpdateProject(ProjectV),
    DeleteProject(Seq<char>),
    SetCurrentProject(Seq<char>),
    ClearCurrentProject,
    InsertColumn(Seq<char>, ColumnV),
    UpdateColumn(ColumnV),
    DeleteColumn(Seq<char>),
    DeleteColumnsOfProject(Seq<char>),
    InsertCard(Seq<char>, CardV),
    UpdateCard(CardV),
    MoveCard(Seq<char>, Seq<char>, i32, Seq<char>),
    DeleteCard(Seq<char>),
    DeleteCardsOfColumn(Seq<char>),
    DeleteCardsOfProject(Seq<char>),
}

impl View for Stmt {
    type V = Op;

    open spec fn view(&self) -> Op {
        match self {
            Stmt::Begin => Op::Begin,
            Stmt::Commit => Op::Commit,
            Stmt::Rollback => Op::Rollback,
            Stmt::InsertProject(p) => Op::InsertProject(p@),
            Stmt::UpdateProject(p) => Op::UpdateProject(p@),
            Stmt::DeleteProject(id) => Op::DeleteProject(id@),
            Stmt::SetCurrentProject(id) => Op::SetCurrentProject(id@),
            Stmt::ClearCurrentProject => Op::ClearCurrentProject,
            Stmt::InsertColumn(pid, c) => Op::InsertColumn(pid@, c@),
            Stmt::UpdateColumn(c) => Op::UpdateColumn(c@),
            Stmt::DeleteColumn(id) => Op::DeleteColumn(id@),
            Stmt::DeleteColumnsOfProject(pid) => Op::DeleteColumnsOfProject(pid@),
            Stmt::InsertCard(pid, c) => Op::InsertCard(pid@, c@),
            Stmt::UpdateCard(c) => Op::UpdateCard(c@),
            Stmt::MoveCard(id, col, pos, at) => Op::MoveCard(id@, col@, *pos, at@),
            Stmt::DeleteCard(id) => Op::DeleteCard(id@),
            Stmt::DeleteCardsOfColumn(id) => Op::DeleteCardsOfColumn(id@),
            Stmt::DeleteCardsOfProject(pid) => Op::DeleteCardsOfProject(pid@),
        }
    }
}

/// The values of a list of statements.
pub open spec fn ops_of(v: Seq<Stmt>) -> Seq<Op> {
    v.map_values(|s: Stmt| s@)
}

/// The rows of the store: projects, columns and cards (each with its owning
/// project id), and the current-project setting.
pub struct StoreModel {
    pub projects: Seq<ProjectV>,
    pub columns: Seq<(Seq<char>, ColumnV)>,
    pub cards: Seq<(Seq<char>, CardV)>,
    pub current: Option<Seq<char>>,
}

/// A column as its row holds it: the card-id list is not stored.
pub open spec fn column_row(c: ColumnV) -> ColumnV {
    ColumnV { card_ids: Seq::empty(), ..c }
}

/// Whether a project with this id exists.
pub open spec fn has_project(s: StoreModel, id: Seq<char>) -> bool {
    exists|i: int| 0 <= i < s.projects.len() && (#[trigger] s.projects[i]).id == id
}

/// Whether a column with this id exists.
pub open spec fn has_column(s: StoreModel, id: Seq<char>) -> bool {
    exists|i: int| 0 <= i < s.columns.len() && (#[trigger] s.columns[i]).1.id == id
}

/// Whether a card with this id exists.
pub open spec fn has_card(s: StoreModel, id: Seq<char>) -> bool {
    exists|i: int| 0 <= i < s.cards.len() && (#[trigger] s.cards[i]).1.id == id
}

/// Picks the column rows of project `pid`.
pub open spec fn column_in(pid: Seq<char>) -> spec_fn((Seq<char>, ColumnV)) -> bool {
    |r: (Seq<char>, ColumnV)| r.0 == pid
}

/// Picks the card rows of project `pid`.
pub open spec fn card_in(pid: Seq<char>) -> spec_fn((Seq<char>, CardV)) -> bool {
    |r: (Seq<char>, CardV)| r.0 == pid
}

/// Picks the card rows of every project but `pid`.
pub open spec fn card_not_in(pid: Seq<char>) -> spec_fn((Seq<char>, CardV)) -> bool {
    |r: (Seq<char>, CardV)| r.0 != pid
}

/// The columns of a project, in the order the store holds them.
pub open spec fn project_columns(s: StoreModel, pid: Seq<char>) -> Seq<ColumnV> {
    s.columns.filter(column_in(pid)).map_values(|r: (Seq<char>, ColumnV)| r.1)
}

/// The cards of a project, in the order the store holds them.
pub open spec fn project_cards(s: StoreModel, pid: Seq<char>) -> Seq<CardV> {
    s.cards.filter(card_in(pid)).map_values(|r: (Seq<char>, CardV)| r.1)
}

/// Picks the column rows that `gone` does not pick.
pub open spec fn column_kept(gone: spec_fn((Seq<char>, ColumnV)) -> bool) -> spec_fn(
    (Seq<char>, ColumnV),
) -> bool {
    |r: (Seq<char>, ColumnV)| !gone(r)
}

/// Picks the card rows that do not sit in a column of `columns` that `gone` picks.
pub open spec fn card_kept(
    columns: Seq<(Seq<char>, ColumnV)>,
    gone: spec_fn((Seq<char>, ColumnV)) -> bool,
) -> spec_fn((Seq<char>, CardV)) -> bool {
    |r: (Seq<char>, CardV)|
        !(exists|i: int|
            0 <= i < columns.len() && (#[trigger] columns[i]).1.id == r.1.column_id && gone(
                columns[i],
            ))
}

/// Removes the columns that `gone` picks, and by the schema's cascade the cards
/// that sit in them.
pub open spec fn remove_columns(
    s: StoreModel,
    gone: spec_fn((Seq<char>, ColumnV)) -> bool,
) -> StoreModel {
    StoreModel {
        columns: s.columns.filter(column_kept(gone)),
        cards: s.cards.filter(card_kept(s.columns, gone)),
        ..s
    }
}

/// A project row after an update by `q`: name, description and update time.
pub open spec fn update_project_row(p: ProjectV, q: ProjectV) -> ProjectV {
    if p.id == q.id {
        ProjectV { name: q.name, description: q.description, updated_at: q.updated_at, ..p }
    } else {
        p
    }
}

/// A column row after an update by `c`: title, position, colour and update time.
pub open spec fn update_column_row(r: (Seq<char>, ColumnV), c: ColumnV) -> (Seq<char>, ColumnV) {
    if r.1.id == c.id {
        (
            r.0,
            ColumnV {
                title: c.title,
                position: c.position,
                background_color: c.background_color,
                updated_at: c.updated_at,
                ..r.1
            },
        )
    } else {
        r
    }
}

/// A card row after an update by `c`: every field but its id and creation time.
pub open spec fn update_card_row(r: (Seq<char>, CardV), c: CardV) -> (Seq<char>, CardV) {
    if r.1.id == c.id {
        (r.0, CardV { id: r.1.id, created_at: r.1.created_at, ..c })
    } else {
        r
    }
}

/// A card row after a move of card `id` to column `col` at position `pos`.
pub open spec fn move_card_row(
    r: (Seq<char>, CardV),
    id: Seq<char>,
    col: Seq<char>,
    pos: i32,
    at: Seq<char>,
) -> (Seq<char>, CardV) {
    if r.1.id == id {
        (r.0, CardV { column_id: col, position: pos, updated_at: at, ..r.1 })
    } else {
        r
    }
}

/// What one statement does to the store: `None` where the engine refuses it
/// (a duplicate id, or a reference to a row that does not exist).
pub open spec fn apply(s: StoreModel, op: Op) -> Option<StoreModel> {
    match op {
        Op::Begin | Op::Commit | Op::Rollback => Some(s),
        Op::InsertProject(p) => if has_project(s, p.id) {
            None
        } else {
            Some(StoreModel { projects: s.projects.push(p), ..s })
        },
        Op::UpdateProject(p) => Some(
            StoreModel {
                projects: s.projects.map_values(|q: ProjectV| update_project_row(q, p)),
                ..s
            },
        ),
        Op::DeleteProject(pid) => {
            let t = remove_columns(s, column_in(pid));
            Some(
                StoreModel {
                    projects: t.projects.filter(|p: ProjectV| p.id != pid),
                    cards: t.cards.filter(card_not_in(pid)),
                    ..t
                },
            )
        },
        Op::SetCurrentProject(pid) => Some(StoreModel { current: Some(pid), ..s }),
        Op::ClearCurrentProject => Some(StoreModel { current: None, ..s }),
        Op::InsertColumn(pid, c) => if !has_project(s, pid) || has_column(s, c.id) {
            None
        } else {
            Some(StoreModel { columns: s.columns.push((pid, column_row(c))), ..s })
        },
        Op::UpdateColumn(c) => Some(
            StoreModel {
                columns: s.columns.map_values(
                    |r: (Seq<char>, ColumnV)| update_column_row(r, c),
                ),
                ..s
            },
        ),
        Op::DeleteColumn(id) => Some(remove_columns(s, |r: (Seq<char>, ColumnV)| r.1.id == id)),
        Op::DeleteColumnsOfProject(pid) => Some(remove_columns(s, column_in(pid))),
        Op::InsertCard(pid, c) => if !has_project(s, pid) || !has_column(s, c.column_id)
            || has_card(s, c.id) {
            None
        } else {
            Some(StoreModel { cards: s.cards.push((pid, c)), ..s })
        },
        Op::UpdateCard(c) => if has_card(s, c.id) && !has_column(s, c.column_id) {
            None
        } else {
            Some(
                StoreModel {
                    cards: s.cards.map_values(|r: (Seq<char>, CardV)| update_card_row(r, c)),
                    ..s
                },
            )
        },
        Op::MoveCard(id, col, pos, at) => if has_card(s, id) && !has_column(s, col) {
            None
        } else {
            Some(
                StoreModel {
                    cards: s.cards.map_values(
                        |r: (Seq<char>, CardV)| move_card_row(r, id, col, pos, at),
                    ),
                    ..s
                },
            )
        },
        Op::DeleteCard(id) => Some(
            StoreModel { cards: s.cards.filter(|r: (Seq<char>, CardV)| r.1.id != id), ..s },
        ),
        Op::DeleteCardsOfColumn(id) => Some(
            StoreModel {
                cards: s.cards.filter(|r: (Seq<char>, CardV)| r.1.column_id != id),
                ..s
            },
        ),
        Op::DeleteCardsOfProject(pid) => Some(
            StoreModel { cards: s.cards.filter(card_not_in(pid)), ..s },
        ),
    }
}

/// Applies statements in order; `None` as soon as one is refused.
pub open spec fn apply_all(s: StoreModel, ops: Seq<Op>) -> Option<StoreModel>
    decreases ops.len(),
{
    if ops.len() == 0 {
        Some(s)
    } else {
        match apply_all(s, ops.drop_last()) {
            Some(t) => apply(t, ops.last()),
            None => None,
        }
    }
}

/// Runs statements as one transaction: all of them take effect, or where one
/// is refused, none does.
pub open spec fn run_transaction(s: StoreModel, ops: Seq<Op>) -> StoreModel {
    match apply_all(s, ops) {
        Some(t) => t,
        None => s,
    }
}

/// The statements that insert `cols` into project `pid`, in order.
pub open spec fn insert_column_ops(pid: Seq<char>, cols: Seq<ColumnV>) -> Seq<Op> {
    cols.map_values(|c: ColumnV| Op::InsertColumn(pid, c))
}

/// The statements that insert `cards` into project `pid`, in order.
pub open spec fn insert_card_ops(pid: Seq<char>, cards: Seq<CardV>) -> Seq<Op> {
    cards.map_values(|c: CardV| Op::InsertCard(pid, c))
}

/// Places `x` after the last element of `t` whose key is at most its own.
pub open spec fn insert_by_key<A>(t: Seq<A>, x: A, key: spec_fn(A) -> int) -> Seq<A>
    decreases t.len(),
{
    if t.len() == 0 {
        seq![x]
    } else if key(t.last()) <= key(x) {
        t.push(x)
    } else {
        insert_by_key(t.drop_last(), x, key).push(t.last())
    }
}

/// `s` in ascending order of `key`; elements with equal keys keep their order.
pub open spec fn sort_by_key<A>(s: Seq<A>, key: spec_fn(A) -> int) -> Seq<A>
    decreases s.len(),
{
    if s.len() == 0 {
        s
    } else {
        insert_by_key(sort_by_key(s.drop_last(), key), s.last(), key)
    }
}

/// Whether `s` is in ascending order of `key`.
pub open spec fn sorted_by_key<A>(s: Seq<A>, key: spec_fn(A) -> int) -> bool {
    forall|i: int, j: int| 0 <= i < j < s.len() ==> key(s[i]) <= key(s[j])
}

/// A column's position.
pub open spec fn column_position() -> spec_fn(ColumnV) -> int {
    |c: ColumnV| c.position as int
}

/// A card's position.
pub open spec fn card_position() -> spec_fn(CardV) -> int {
    |c: CardV| c.position as int
}

/// The columns of a project as a read returns them: by position.
pub open spec fn read_columns(s: StoreModel, pid: Seq<char>) -> Seq<ColumnV> {
    sort_by_key(project_columns(s, pid), column_position())
}

/// The cards of a project as a read returns them: by position.
pub open spec fn read_cards(s: StoreModel, pid: Seq<char>) -> Seq<CardV> {
    sort_by_key(project_cards(s, pid), card_position())
}

} // verus!
