use vstd::prelude::*;
use crate::ids::{now_rfc3339, resolve_id};
use crate::model::{copy_opt, Board, BoardV, Card, CardV, Column, ColumnV, MoveCardParams};
use crate::store::{insert_card_ops, insert_column_ops, ops_of, Op, Stmt};

verus! {

pub open spec fn cards_view(v: Seq<Card>) -> Seq<CardV> {
    v.map_values(|c: Card| c@)
}

pub open spec fn columns_view(v: Seq<Column>) -> Seq<ColumnV> {
    v.map_values(|c: Column| c@)
}

/// The ids of the cards that sit in column `cid`, in the order of `cards`.
pub open spec fn ids_in_column(cards: Seq<CardV>, cid: Seq<char>) -> Seq<Seq<char>>
    decreases cards.len(),
{
    if cards.len() == 0 {
        Seq::empty()
    } else {
        let rest = ids_in_column(cards.drop_last(), cid);
        if cards.last().column_id == cid {
            rest.push(cards.last().id)
        } else {
            rest
        }
    }
}

/// A column with its card-id list derived from `cards`.
pub open spec fn with_card_ids(c: ColumnV, cards: Seq<CardV>) -> ColumnV {
    ColumnV { card_ids: ids_in_column(cards, c.id), ..c }
}

/// The title every board is read with.
pub open spec fn board_title() -> Seq<char> {
    "看板"@
}

/// The board of project `pid`, assembled from its columns and cards.
pub open spec fn board_of(
    pid: Seq<char>,
    columns: Seq<ColumnV>,
    cards: Seq<CardV>,
    now: Seq<char>,
) -> BoardV {
    BoardV {
        id: pid,
        title: board_title(),
        columns: columns.map_values(|c: ColumnV| with_card_ids(c, cards)),
        cards: cards,
        created_at: now,
        updated_at: now,
    }
}

/// The ids of the cards that sit in the column with id `column_id`, in order.
pub fn card_ids_in_column(cards: &Vec<Card>, column_id: &String) -> (r: Vec<String>)
    ensures
        r@.map_values(|s: String| s@) == ids_in_column(cards_view(cards@), column_id@),
{
    let mut r: Vec<String> = Vec::new();
    let mut i: usize = 0;
    while i < cards.len()
        invariant
            i <= cards@.len(),
            r@.map_values(|s: String| s@) == ids_in_column(
                cards_view(cards@.subrange(0, i as int)),
                column_id@,
            ),
        decreases cards@.len() - i,
    {
        proof {
            assert(cards_view(cards@.subrange(0, i + 1)).drop_last() =~= cards_view(
                cards@.subrange(0, i as int),
            ));
        }
        if cards[i].column_id == *column_id {
            r.push(cards[i].id.clone());
            proof {
                assert(r@.map_values(|s: String| s@) =~= ids_in_column(
                    cards_view(cards@.subrange(0, i + 1)),
                    column_id@,
                ));
            }
        }
        i = i + 1;
    }
    proof {
        assert(cards@.subrange(0, cards@.len() as int) == cards@);
    }
    r
}

/// Assembles the board of a project from the columns and the cards that the
/// store returned for it: each column gets the ids of its cards.
pub fn assemble_board(project_id: &String, columns: &Vec<Column>, cards: Vec<Card>, now: String) -> (r:
    Board)
    ensures
        r@ == board_of(project_id@, columns_view(columns@), cards_view(cards@), now@),
{
    let mut cols: Vec<Column> = Vec::new();
    let mut i: usize = 0;
    while i < columns.len()
        invariant
            i <= columns@.len(),
            cols@.len() == i,
            forall|j: int|
                0 <= j < i ==> (#[trigger] cols@[j])@ == with_card_ids(
                    columns@[j]@,
                    cards_view(cards@),
                ),
        decreases columns@.len() - i,
    {
        let c = &columns[i];
        let ids = card_ids_in_column(&cards, &c.id);
        cols.push(
            Column {
                id: c.id.clone(),
                title: c.title.clone(),
                position: c.position,
                card_ids: ids,
                background_color: copy_opt(&c.background_color),
                created_at: c.created_at.clone(),
                updated_at: c.updated_at.clone(),
            },
        );
        i = i + 1;
    }
    let r = Board {
        id: project_id.clone(),
        title: "看板".to_owned(),
        columns: cols,
        cards: cards,
        created_at: now.clone(),
        updated_at: now,
    };
    proof {
        reveal_strlit("看板");
        assert(r@.columns =~= board_of(
            project_id@,
            columns_view(columns@),
            cards_view(cards@),
            now@,
        ).columns);
    }
    r
}


/// Reads the clock and assembles the board of a project from its columns and
/// cards; the board's two timestamps are the time of reading.
pub fn get_board(project_id: &String, columns: &Vec<Column>, cards: Vec<Card>) -> (r: Board)
    ensures
        r@ == board_of(project_id@, columns_view(columns@), cards_view(cards@), r@.created_at),
        r@.created_at == r@.updated_at,
{
    let now = now_rfc3339();
    assemble_board(project_id, columns, cards, now)
}

/// The statements that replace the whole board of project `pid` by `b`, in
/// one transaction: its cards and columns go, then each column and each card
/// of `b` is inserted as given.
pub open spec fn save_board_ops(pid: Seq<char>, b: BoardV) -> Seq<Op> {
    seq![Op::Begin, Op::DeleteCardsOfProject(pid), Op::DeleteColumnsOfProject(pid)]
        + insert_column_ops(pid, b.columns) + insert_card_ops(pid, b.cards)
        + seq![Op::Commit]
}

/// The statements that save `board` as the whole board of a project.
pub fn save_board(project_id: &String, board: &Board) -> (r: Vec<Stmt>)
    ensures
        ops_of(r@) == save_board_ops(project_id@, board@),
{
    let mut r: Vec<Stmt> = Vec::new();
    r.push(Stmt::Begin);
    r.push(Stmt::DeleteCardsOfProject(project_id.clone()));
    r.push(Stmt::DeleteColumnsOfProject(project_id.clone()));
    let ghost pid = project_id@;
    let ghost head = seq![Op::Begin, Op::DeleteCardsOfProject(pid), Op::DeleteColumnsOfProject(pid)];
    assert(ops_of(r@) =~= head);
    let mut i: usize = 0;
    while i < board.columns.len()
        invariant
            i <= board.columns@.len(),
            ops_of(r@) == head + insert_column_ops(pid, board@.columns.subrange(0, i as int)),
            pid == project_id@,
        decreases board.columns@.len() - i,
    {
        let ghost before = r@;
        r.push(Stmt::InsertColumn(project_id.clone(), board.columns[i].duplicate()));
        assert(board@.columns[i as int] == board.columns@[i as int]@);
        assert(ops_of(r@) =~= ops_of(before).push(Op::InsertColumn(pid, board@.columns[i as int])));
        assert(ops_of(r@) =~= head + insert_column_ops(pid, board@.columns.subrange(0, i + 1)));
        i = i + 1;
    }
    assert(board@.columns.subrange(0, i as int) =~= board@.columns);
    let ghost mid = head + insert_column_ops(pid, board@.columns);
    let mut k: usize = 0;
    while k < board.cards.len()
        invariant
            k <= board.cards@.len(),
            ops_of(r@) == mid + insert_card_ops(pid, board@.cards.subrange(0, k as int)),
            pid == project_id@,
        decreases board.cards@.len() - k,
    {
        let ghost before = r@;
        r.push(Stmt::InsertCard(project_id.clone(), board.cards[k].duplicate()));
        assert(board@.cards[k as int] == board.cards@[k as int]@);
        assert(ops_of(r@) =~= ops_of(before).push(Op::InsertCard(pid, board@.cards[k as int])));
        assert(ops_of(r@) =~= mid + insert_card_ops(pid, board@.cards.subrange(0, k + 1)));
        k = k + 1;
    }
    assert(board@.cards.subrange(0, k as int) =~= board@.cards);
    r.push(Stmt::Commit);
    assert(ops_of(r@) =~= save_board_ops(pid, board@));
    r
}

/// A new card as it is stored: under id `id`, created and updated at `now`.
pub open spec fn stored_card(c: CardV, id: Seq<char>, now: Seq<char>) -> CardV {
    CardV { id: id, created_at: now, updated_at: now, ..c }
}

/// Creates a card in a project: the card as stored, and the statement that
/// inserts it. An empty id is replaced by a freshly generated one.
pub fn create_card(project_id: &String, card: &Card) -> (r: (Card, Stmt))
    ensures
        card.id@.len() > 0 ==> r.0.id@ == card.id@,
        card.id@.len() == 0 ==> r.0.id@.len() == 36,
        r.0@ == stored_card(card@, r.0.id@, r.0.created_at@),
        r.0.created_at@ == r.0.updated_at@,
        r.1@ == Op::InsertCard(project_id@, r.0@),
{
    let now = now_rfc3339();
    let id = resolve_id(&card.id);
    let stored = Card {
        id: id,
        title: card.title.clone(),
        description: copy_opt(&card.description),
        column_id: card.column_id.clone(),
        position: card.position,
        completed: card.completed,
        priority: card.priority.clone(),
        start_date: copy_opt(&card.start_date),
        due_date: copy_opt(&card.due_date),
        created_at: now.clone(),
        updated_at: now,
    };
    let stmt = Stmt::InsertCard(project_id.clone(), stored.duplicate());
    (stored, stmt)
}

/// Updates a card: every field as given, stamped with the time of the update;
/// `created_at` is kept as given.
pub fn update_card(card: &Card) -> (r: (Card, Stmt))
    ensures
        r.0@ == (CardV { updated_at: r.0.updated_at@, ..card@ }),
        r.1@ == Op::UpdateCard(r.0@),
{
    let now = now_rfc3339();
    let mut stored = card.duplicate();
    stored.updated_at = now;
    let stmt = Stmt::UpdateCard(stored.duplicate());
    (stored, stmt)
}

/// Deletes one card.
pub fn delete_card(card_id: &String) -> (r: Stmt)
    ensures
        r@ == Op::DeleteCard(card_id@),
{
    Stmt::DeleteCard(card_id.clone())
}

/// Moves a card to a column and a position. The card is found by its id
/// alone: the column it came from is not consulted.
pub fn move_card(params: &MoveCardParams) -> (r: Stmt)
    ensures
        match r@ {
            Op::MoveCard(id, col, pos, _) => id == params.card_id@ && col
                == params.to_column_id@ && pos == params.new_position,
            _ => false,
        },
{
    let now = now_rfc3339();
    Stmt::MoveCard(params.card_id.clone(), params.to_column_id.clone(), params.new_position, now)
}

/// A new column as it is stored: under id `id`, with no card ids, created and
/// updated at `now`.
pub open spec fn stored_column(c: ColumnV, id: Seq<char>, now: Seq<char>) -> ColumnV {
    ColumnV { id: id, card_ids: Seq::empty(), created_at: now, updated_at: now, ..c }
}

/// Creates a column in a project: the column as stored, and the statement
/// that inserts it. An empty id is replaced by a freshly generated one.
pub fn create_column(project_id: &String, column: &Column) -> (r: (Column, Stmt))
    ensures
        column.id@.len() > 0 ==> r.0.id@ == column.id@,
        column.id@.len() == 0 ==> r.0.id@.len() == 36,
        r.0@ == stored_column(column@, r.0.id@, r.0.created_at@),
        r.0.created_at@ == r.0.updated_at@,
        r.1@ == Op::InsertColumn(project_id@, r.0@),
{
    let now = now_rfc3339();
    let id = resolve_id(&column.id);
    let stored = Column {
        id: id,
        title: column.title.clone(),
        position: column.position,
        card_ids: Vec::new(),
        background_color: copy_opt(&column.background_color),
        created_at: now.clone(),
        updated_at: now,
    };
    proof {
        assert(stored@.card_ids =~= Seq::<Seq<char>>::empty());
    }
    let stmt = Stmt::InsertColumn(project_id.clone(), stored.duplicate());
    (stored, stmt)
}

/// Updates a column: title, position and colour as given, stamped with the
/// time of the update; the other fields are kept as given.
pub fn update_column(column: &Column) -> (r: (Column, Stmt))
    ensures
        r.0@ == (ColumnV { updated_at: r.0.updated_at@, ..column@ }),
        r.1@ == Op::UpdateColumn(r.0@),
{
    let now = now_rfc3339();
    let mut stored = column.duplicate();
    stored.updated_at = now;
    let stmt = Stmt::UpdateColumn(stored.duplicate());
    (stored, stmt)
}

/// Deletes a column: first the cards in it, then the column itself.
pub fn delete_column(column_id: &String) -> (r: Vec<Stmt>)
    ensures
        ops_of(r@) == seq![Op::DeleteCardsOfColumn(column_id@), Op::DeleteColumn(column_id@)],
{
    let r = vec![Stmt::DeleteCardsOfColumn(column_id.clone()), Stmt::DeleteColumn(column_id.clone())];
    assert(ops_of(r@) =~= seq![Op::DeleteCardsOfColumn(column_id@), Op::DeleteColumn(column_id@)]);
    r
}

/// How the store holds a card's tri-state `completed`: 1 for done, 0 for not.
pub fn completed_code(completed: Option<bool>) -> (r: Option<i32>)
    ensures
        r == match completed {
            Some(true) => Some(1i32),
            Some(false) => Some(0i32),
            None => None::<i32>,
        },
{
    match completed {
        Some(true) => Some(1),
        Some(false) => Some(0),
        None => None,
    }
}

/// Reads a stored `completed` value: 1 is done, any other value is not.
pub fn completed_from_code(code: Option<i32>) -> (r: Option<bool>)
    ensures
        r == match code {
            Some(c) => Some(c == 1),
            None => None::<bool>,
        },
{
    match code {
        Some(c) => Some(c == 1),
        None => None,
    }
}

} // verus!
