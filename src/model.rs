use vstd::prelude::*;

verus! {

/// The mathematical value of an optional string.
pub open spec fn opt_view(o: Option<String>) -> Option<Seq<char>> {
    match o {
        Some(s) => Some(s@),
        None => None,
    }
}

/// The mathematical value of a list of strings.
pub open spec fn strs_view(v: Seq<String>) -> Seq<Seq<char>> {
    v.map_values(|s: String| s@)
}

/// Copies an optional string, keeping its value.
pub fn copy_opt(o: &Option<String>) -> (r: Option<String>)
    ensures
        opt_view(r) == opt_view(*o),
{
    match o {
        Some(s) => Some(s.clone()),
        None => None,
    }
}

/// Copies a list of strings, keeping its value.
pub fn copy_strs(v: &Vec<String>) -> (r: Vec<String>)
    ensures
        strs_view(r@) == strs_view(v@),
{
    let mut r: Vec<String> = Vec::new();
    let mut i: usize = 0;
    while i < v.len()
        invariant
            i <= v@.len(),
            r@.len() == i,
            forall|j: int| 0 <= j < i ==> (#[trigger] r@[j])@ == v@[j]@,
        decreases v@.len() - i,
    {
        r.push(v[i].clone());
        i = i + 1;
    }
    assert(strs_view(r@) =~= strs_view(v@));
    r
}

/// A card: one task on a board.
#[derive(Clone, Debug, PartialEq, Eq)]
pub struct Card {
    pub id: String,
    pub title: String,
    pub description: Option<String>,
    pub column_id: String,
    pub position: i32,
    pub completed: Option<bool>,
    pub priority: String,
    pub start_date: Option<String>,
    pub due_date: Option<String>,
    pub created_at: String,
    pub updated_at: String,
}

/// The value of a card.
pub struct CardV {
    pub id: Seq<char>,
    pub title: Seq<char>,
    pub description: Option<Seq<char>>,
    pub column_id: Seq<char>,
    pub position: i32,
    pub completed: Option<bool>,
    pub priority: Seq<char>,
    pub start_date: Option<Seq<char>>,
    pub due_date: Option<Seq<char>>,
    pub created_at: Seq<char>,
    pub updated_at: Seq<char>,
}

impl View for Card {
    type V = CardV;

    open spec fn view(&self) -> CardV {
        CardV {
            id: self.id@,
            title: self.title@,
            description: opt_view(self.description),
            column_id: self.column_id@,
            position: self.position,
            completed: self.completed,
            priority: self.priority@,
            start_date: opt_view(self.start_date),
            due_date: opt_view(self.due_date),
            created_at: self.created_at@,
            updated_at: self.updated_at@,
        }
    }
}

impl Card {
    /// A copy of the card with the same value.
    pub fn duplicate(&self) -> (r: Card)
        ensures
            r@ == self@,
    {
        Card {
            id: self.id.clone(),
            title: self.title.clone(),
            description: copy_opt(&self.description),
            column_id: self.column_id.clone(),
            position: self.position,
            completed: self.completed,
            priority: self.priority.clone(),
            start_date: copy_opt(&self.start_date),
            due_date: copy_opt(&self.due_date),
            created_at: self.created_at.clone(),
            updated_at: self.updated_at.clone(),
        }
    }
}

/// A column of a board; `card_ids` is derived when a board is read.
#[derive(Clone, Debug, PartialEq, Eq)]
pub struct Column {
    pub id: String,
    pub title: String,
    pub position: i32,
    pub card_ids: Vec<String>,
    pub background_color: Option<String>,
    pub created_at: String,
    pub updated_at: String,
}

/// The value of a column.
pub struct ColumnV {
    pub id: Seq<char>,
    pub title: Seq<char>,
    pub position: i32,
    pub card_ids: Seq<Seq<char>>,
    pub background_color: Option<Seq<char>>,
    pub created_at: Seq<char>,
    pub updated_at: Seq<char>,
}

impl View for Column {
    type V = ColumnV;

    open spec fn view(&self) -> ColumnV {
        ColumnV {
            id: self.id@,
            title: self.title@,
            position: self.position,
            card_ids: strs_view(self.card_ids@),
            background_color: opt_view(self.background_color),
            created_at: self.created_at@,
            updated_at: self.updated_at@,
        }
    }
}

impl Column {
    /// A copy of the column with the same value.
    pub fn duplicate(&self) -> (r: Column)
        ensures
            r@ == self@,
    {
        Column {
            id: self.id.clone(),
            title: self.title.clone(),
            position: self.position,
            card_ids: copy_strs(&self.card_ids),
            background_color: copy_opt(&self.background_color),
            created_at: self.created_at.clone(),
            updated_at: self.updated_at.clone(),
        }
    }
}

/// The whole board of one project, as it is read: its columns and its cards.
#[derive(Clone, Debug, PartialEq, Eq)]
pub struct Board {
    pub id: String,
    pub title: String,
    pub columns: Vec<Column>,
    pub cards: Vec<Card>,
    pub created_at: String,
    pub updated_at: String,
}

/// The value of a board.
pub struct BoardV {
    pub id: Seq<char>,
    pub title: Seq<char>,
    pub columns: Seq<ColumnV>,
    pub cards: Seq<CardV>,
    pub created_at: Seq<char>,
    pub updated_at: Seq<char>,
}

impl View for Board {
    type V = BoardV;

    open spec fn view(&self) -> BoardV {
        BoardV {
            id: self.id@,
            title: self.title@,
            columns: self.columns@.map_values(|c: Column| c@),
            cards: self.cards@.map_values(|c: Card| c@),
            created_at: self.created_at@,
            updated_at: self.updated_at@,
        }
    }
}

/// What a move of one card asks for.
#[derive(Clone, Debug, PartialEq, Eq)]
pub struct MoveCardParams {
    pub card_id: String,
    pub from_column_id: String,
    pub to_column_id: String,
    pub new_position: i32,
}

/// A project: the owner of one board.
#[derive(Clone, Debug, PartialEq, Eq)]
pub struct Project {
    pub id: String,
    pub name: String,
    pub description: Option<String>,
    pub created_at: String,
    pub updated_at: String,
}

/// The value of a project.
pub struct ProjectV {
    pub id: Seq<char>,
    pub name: Seq<char>,
    pub description: Option<Seq<char>>,
    pub created_at: Seq<char>,
    pub updated_at: Seq<char>,
}

impl View for Project {
    type V = ProjectV;

    open spec fn view(&self) -> ProjectV {
        ProjectV {
            id: self.id@,
            name: self.name@,
            description: opt_view(self.description),
            created_at: self.created_at@,
            updated_at: self.updated_at@,
        }
    }
}

impl Project {
    /// A copy of the project with the same value.
    pub fn duplicate(&self) -> (r: Project)
        ensures
            r@ == self@,
    {
        Project {
            id: self.id.clone(),
            name: self.name.clone(),
            description: copy_opt(&self.description),
            created_at: self.created_at.clone(),
            updated_at: self.updated_at.clone(),
        }
    }
}

} // verus!
