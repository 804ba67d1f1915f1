use vstd::prelude::*;
use crate::gateway::transaction_open;
use crate::board::{board_of, board_title, save_board_ops, with_card_ids};
use crate::model::{BoardV, CardV, ColumnV, ProjectV};
use crate::projects::{clear_after_delete_ops, default_title, is_default_column};
use crate::store::{
    apply, apply_all, card_in, card_kept, card_not_in, column_in, column_kept, column_row,
    has_project, read_cards, read_columns, remove_columns, sort_by_key, sorted_by_key,
    card_position, column_position, insert_card_ops, insert_column_ops, project_cards,
    project_columns, run_transaction, Op, StoreModel,
};

verus! {

proof fn lemma_filter_none<A>(s: Seq<A>, p: spec_fn(A) -> bool)
    requires
        forall|i: int| 0 <= i < s.len() ==> !p(#[trigger] s[i]),
    ensures
        s.filter(p) == Seq::<A>::empty(),
    decreases s.len(),
{
    reveal(Seq::filter);
    if s.len() > 0 {
        lemma_filter_none(s.drop_last(), p);
        assert(!p(s[s.len() - 1]));
    }
}

proof fn lemma_filter_push<A>(s: Seq<A>, x: A, p: spec_fn(A) -> bool)
    ensures
        s.push(x).filter(p) == if p(x) {
            s.filter(p).push(x)
        } else {
            s.filter(p)
        },
{
    reveal(Seq::filter);
    assert(s.push(x).drop_last() =~= s);
}

proof fn lemma_sorted_is_fixed<A>(s: Seq<A>, key: spec_fn(A) -> int)
    requires
        sorted_by_key(s, key),
    ensures
        sort_by_key(s, key) == s,
    decreases s.len(),
{
    if s.len() > 0 {
        let t = s.drop_last();
        assert(sorted_by_key(t, key));
        lemma_sorted_is_fixed(t, key);
        if t.len() > 0 {
            assert(key(t.last()) <= key(s.last()));
        }
        assert(t.push(s.last()) =~= s);
    }
}

proof fn lemma_apply_all_append(s: StoreModel, a: Seq<Op>, b: Seq<Op>)
    ensures
        apply_all(s, a + b) == match apply_all(s, a) {
            Some(t) => apply_all(t, b),
            None => None,
        },
    decreases b.len(),
{
    if b.len() == 0 {
        assert(a + b =~= a);
    } else {
        assert((a + b).drop_last() =~= a + b.drop_last());
        assert((a + b).last() == b.last());
        lemma_apply_all_append(s, a, b.drop_last());
    }
}

proof fn lemma_insert_columns(u: StoreModel, pid: Seq<char>, cols: Seq<ColumnV>, v: StoreModel)
    requires
        apply_all(u, insert_column_ops(pid, cols)) == Some(v),
    ensures
        project_columns(v, pid) == project_columns(u, pid) + cols.map_values(
            |c: ColumnV| column_row(c),
        ),
        project_cards(v, pid) == project_cards(u, pid),
    decreases cols.len(),
{
    let ops = insert_column_ops(pid, cols);
    if cols.len() == 0 {
        assert(cols.map_values(|c: ColumnV| column_row(c)) =~= Seq::<ColumnV>::empty());
    } else {
        assert(ops.drop_last() =~= insert_column_ops(pid, cols.drop_last()));
        let w = apply_all(u, ops.drop_last()).unwrap();
        lemma_insert_columns(u, pid, cols.drop_last(), w);
        let c = cols.last();
        assert(ops.last() == Op::InsertColumn(pid, c));
        lemma_filter_push(w.columns, (pid, column_row(c)), column_in(pid));
        assert(v.columns == w.columns.push((pid, column_row(c))));
        assert(project_columns(v, pid) =~= project_columns(w, pid).push(column_row(c)));
        assert(cols.map_values(|c: ColumnV| column_row(c)) =~= cols.drop_last().map_values(
            |c: ColumnV| column_row(c),
        ).push(column_row(c)));
        assert(project_columns(v, pid) =~= project_columns(u, pid) + cols.map_values(
            |c: ColumnV| column_row(c),
        ));
    }
}

proof fn lemma_insert_cards(u: StoreModel, pid: Seq<char>, cards: Seq<CardV>, v: StoreModel)
    requires
        apply_all(u, insert_card_ops(pid, cards)) == Some(v),
    ensures
        project_cards(v, pid) == project_cards(u, pid) + cards,
        project_columns(v, pid) == project_columns(u, pid),
    decreases cards.len(),
{
    let ops = insert_card_ops(pid, cards);
    if cards.len() == 0 {
        assert(project_cards(u, pid) + cards =~= project_cards(u, pid));
    } else {
        assert(ops.drop_last() =~= insert_card_ops(pid, cards.drop_last()));
        let w = apply_all(u, ops.drop_last()).unwrap();
        lemma_insert_cards(u, pid, cards.drop_last(), w);
        let c = cards.last();
        assert(ops.last() == Op::InsertCard(pid, c));
        lemma_filter_push(w.cards, (pid, c), card_in(pid));
        assert(v.cards == w.cards.push((pid, c)));
        assert(project_cards(v, pid) =~= project_cards(w, pid).push(c));
        assert(project_cards(v, pid) =~= project_cards(u, pid) + cards);
    }
}

/// Deleting a project leaves no project under its id, and no column or card
/// that belongs to it.
pub proof fn lemma_delete_project_cascades(s: StoreModel, pid: Seq<char>)
    ensures
        apply(s, Op::DeleteProject(pid)) is Some,
        !has_project(apply(s, Op::DeleteProject(pid)).unwrap(), pid),
        forall|i: int|
            0 <= i < apply(s, Op::DeleteProject(pid)).unwrap().columns.len() ==> (#[trigger] apply(
                s,
                Op::DeleteProject(pid),
            ).unwrap().columns[i]).0 != pid,
        forall|i: int|
            0 <= i < apply(s, Op::DeleteProject(pid)).unwrap().cards.len() ==> (#[trigger] apply(
                s,
                Op::DeleteProject(pid),
            ).unwrap().cards[i]).0 != pid,
        project_columns(apply(s, Op::DeleteProject(pid)).unwrap(), pid).len() == 0,
        project_cards(apply(s, Op::DeleteProject(pid)).unwrap(), pid).len() == 0,
{
    broadcast use vstd::seq_lib::group_filter_ensures;

    let t = apply(s, Op::DeleteProject(pid)).unwrap();
    assert forall|i: int| 0 <= i < t.columns.len() implies !column_in(pid)(
        #[trigger] t.columns[i],
    ) by {
        assert(column_kept(column_in(pid))(t.columns[i]));
    }
    assert forall|i: int| 0 <= i < t.cards.len() implies !card_in(pid)(#[trigger] t.cards[i]) by {
        assert(card_not_in(pid)(t.cards[i]));
    }
    assert forall|i: int| 0 <= i < t.projects.len() implies (#[trigger] t.projects[i]).id != pid by {
        assert((|p: ProjectV| p.id != pid)(t.projects[i]));
    }
    lemma_filter_none(t.columns, column_in(pid));
    lemma_filter_none(t.cards, card_in(pid));
}

/// Saving a board is all or nothing: where any of its statements is refused,
/// the store, and so the project's columns and cards, are as before.
pub proof fn lemma_save_board_atomic(s: StoreModel, pid: Seq<char>, b: BoardV)
    ensures
        apply_all(s, save_board_ops(pid, b)) is None ==> run_transaction(
            s,
            save_board_ops(pid, b),
        ) == s,
        apply_all(s, save_board_ops(pid, b)) is None ==> project_columns(
            run_transaction(s, save_board_ops(pid, b)),
            pid,
        ) == project_columns(s, pid) && project_cards(
            run_transaction(s, save_board_ops(pid, b)),
            pid,
        ) == project_cards(s, pid),
        apply_all(s, save_board_ops(pid, b)) is Some ==> run_transaction(
            s,
            save_board_ops(pid, b),
        ) == apply_all(s, save_board_ops(pid, b)).unwrap(),
{
}

/// After a board is saved, the project's stored columns and cards are exactly
/// the board's, in the board's order; a board assembled from them lists in each
/// column exactly the ids of the cards in it, in order.
pub proof fn lemma_save_then_read(s: StoreModel, pid: Seq<char>, b: BoardV, now: Seq<char>)
    requires
        apply_all(s, save_board_ops(pid, b)) is Some,
    ensures
        project_columns(apply_all(s, save_board_ops(pid, b)).unwrap(), pid) == b.columns.map_values(
            |c: ColumnV| column_row(c),
        ),
        project_cards(apply_all(s, save_board_ops(pid, b)).unwrap(), pid) == b.cards,
        board_of(
            pid,
            project_columns(apply_all(s, save_board_ops(pid, b)).unwrap(), pid),
            project_cards(apply_all(s, save_board_ops(pid, b)).unwrap(), pid),
            now,
        ) == (BoardV {
            id: pid,
            title: board_title(),
            columns: b.columns.map_values(|c: ColumnV| with_card_ids(c, b.cards)),
            cards: b.cards,
            created_at: now,
            updated_at: now,
        }),
{
    let head = seq![Op::Begin, Op::DeleteCardsOfProject(pid), Op::DeleteColumnsOfProject(pid)];
    let cops = insert_column_ops(pid, b.columns);
    let kops = insert_card_ops(pid, b.cards);
    let ops = save_board_ops(pid, b);
    assert(ops == ((head + cops) + kops) + seq![Op::Commit]);
    lemma_apply_all_append(s, (head + cops) + kops, seq![Op::Commit]);
    lemma_apply_all_append(s, head + cops, kops);
    lemma_apply_all_append(s, head, cops);
    reveal_with_fuel(apply_all, 4);
    assert(head.drop_last().drop_last().drop_last() =~= Seq::<Op>::empty());
    assert(head.drop_last().drop_last() =~= seq![Op::Begin]);
    assert(head.drop_last() =~= seq![Op::Begin, Op::DeleteCardsOfProject(pid)]);
    assert(seq![Op::Commit].drop_last() =~= Seq::<Op>::empty());
    let t0 = apply_all(s, head).unwrap();
    let s1 = apply(s, Op::DeleteCardsOfProject(pid)).unwrap();
    assert(t0 == remove_columns(s1, column_in(pid)));
    assert forall|i: int| 0 <= i < t0.columns.len() implies !column_in(pid)(
        #[trigger] t0.columns[i],
    ) by {
        assert(column_kept(column_in(pid))(t0.columns[i]));
    }
    assert forall|i: int| 0 <= i < t0.cards.len() implies !card_in(pid)(#[trigger] t0.cards[i]) by {
        s1.cards.lemma_filter_contains_rev(card_kept(s1.columns, column_in(pid)), t0.cards[i]);
        assert(s1.cards.contains(t0.cards[i]));
        let k = choose|k: int| 0 <= k < s1.cards.len() && s1.cards[k] == t0.cards[i];
        assert(card_not_in(pid)(s1.cards[k]));
    }
    lemma_filter_none(t0.columns, column_in(pid));
    lemma_filter_none(t0.cards, card_in(pid));
    let t1 = apply_all(t0, cops).unwrap();
    lemma_insert_columns(t0, pid, b.columns, t1);
    let t2 = apply_all(t1, kops).unwrap();
    lemma_insert_cards(t1, pid, b.cards, t2);
    let t = apply_all(s, ops).unwrap();
    assert(t == t2);
    assert(project_columns(t0, pid) + b.columns.map_values(|c: ColumnV| column_row(c))
        =~= b.columns.map_values(|c: ColumnV| column_row(c)));
    assert(project_cards(t0, pid) + b.cards =~= b.cards);
    assert(board_of(pid, project_columns(t, pid), project_cards(t, pid), now).columns =~= b.columns.map_values(
        |c: ColumnV| with_card_ids(c, b.cards),
    ));
}

/// Deleting a project, then clearing the current-project setting as the
/// operation does, leaves no setting that names it; where it was the current
/// project, no current project is left.
pub proof fn lemma_delete_clears_current(s: StoreModel, pid: Seq<char>)
    ensures
        ({
            let t = apply(s, Op::DeleteProject(pid)).unwrap();
            let u = apply_all(t, clear_after_delete_ops(pid, t.current));
            &&& u is Some
            &&& u.unwrap().current != Some(pid)
            &&& s.current == Some(pid) ==> u.unwrap().current is None
        }),
{
    let t = apply(s, Op::DeleteProject(pid)).unwrap();
    let ops = clear_after_delete_ops(pid, t.current);
    reveal_with_fuel(apply_all, 2);
    if t.current == Some(pid) {
        assert(ops.drop_last() =~= Seq::<Op>::empty());
    }
}

/// Making a project current and then deleting it leaves no current project.
pub proof fn lemma_set_then_delete_current(s: StoreModel, pid: Seq<char>)
    ensures
        ({
            let t1 = apply(s, Op::SetCurrentProject(pid)).unwrap();
            let t2 = apply(t1, Op::DeleteProject(pid)).unwrap();
            let u = apply_all(t2, clear_after_delete_ops(pid, t2.current));
            u is Some && u.unwrap().current is None
        }),
{
    let t1 = apply(s, Op::SetCurrentProject(pid)).unwrap();
    lemma_delete_clears_current(t1, pid);
}

spec fn inserted_column(op: Op) -> ColumnV {
    match op {
        Op::InsertColumn(_, c) => c,
        _ => arbitrary(),
    }
}

/// A new project, created by inserting it and then its default columns, has
/// exactly three columns: to do, in progress and done, at positions 0, 1, 2,
/// which is also the order in which a read returns them.
pub proof fn lemma_new_project_columns(s: StoreModel, p: ProjectV, ops: Seq<Op>, now: Seq<char>)
    requires
        ops.len() == 4,
        ops[0] == Op::InsertProject(p),
        forall|k: int| 0 <= k < 3 ==> is_default_column(#[trigger] ops[k + 1], p.id, k, now),
        project_columns(s, p.id).len() == 0,
        apply_all(s, ops) is Some,
    ensures
        read_columns(apply_all(s, ops).unwrap(), p.id) == project_columns(
            apply_all(s, ops).unwrap(),
            p.id,
        ),
        project_columns(apply_all(s, ops).unwrap(), p.id).len() == 3,
        forall|k: int|
            0 <= k < 3 ==> (#[trigger] project_columns(apply_all(s, ops).unwrap(), p.id)[k]).title
                == default_title(k) && project_columns(apply_all(s, ops).unwrap(), p.id)[k].position
                == k,
{
    let cs = ops.subrange(1, 4).map_values(|op: Op| inserted_column(op));
    assert forall|k: int| 0 <= k < 3 implies ops.subrange(1, 4)[k] == Op::InsertColumn(
        p.id,
        cs[k],
    ) by {
        assert(is_default_column(ops[k + 1], p.id, k, now));
    }
    assert(ops =~= seq![ops[0]] + insert_column_ops(p.id, cs));
    lemma_apply_all_append(s, seq![ops[0]], insert_column_ops(p.id, cs));
    reveal_with_fuel(apply_all, 2);
    assert(seq![ops[0]].drop_last() =~= Seq::<Op>::empty());
    let t0 = apply_all(s, seq![ops[0]]).unwrap();
    assert(t0.columns == s.columns);
    let t = apply_all(t0, insert_column_ops(p.id, cs)).unwrap();
    lemma_insert_columns(t0, p.id, cs, t);
    let cols = project_columns(t, p.id);
    assert(cols =~= cs.map_values(|c: ColumnV| column_row(c)));
    assert forall|k: int| 0 <= k < 3 implies (#[trigger] cols[k]).title == default_title(k)
        && cols[k].position == k by {
        assert(is_default_column(ops[k + 1], p.id, k, now));
        assert(ops.subrange(1, 4)[k] == ops[k + 1]);
    }
    assert(sorted_by_key(cols, column_position()));
    lemma_sorted_is_fixed(cols, column_position());
}

/// A saved board whose columns and cards are each in position order reads
/// back as it was saved, through the read that orders them by position.
pub proof fn lemma_save_then_get_board(s: StoreModel, pid: Seq<char>, b: BoardV, now: Seq<char>)
    requires
        apply_all(s, save_board_ops(pid, b)) is Some,
        sorted_by_key(b.columns, column_position()),
        sorted_by_key(b.cards, card_position()),
    ensures
        board_of(
            pid,
            read_columns(apply_all(s, save_board_ops(pid, b)).unwrap(), pid),
            read_cards(apply_all(s, save_board_ops(pid, b)).unwrap(), pid),
            now,
        ) == (BoardV {
            id: pid,
            title: board_title(),
            columns: b.columns.map_values(|c: ColumnV| with_card_ids(c, b.cards)),
            cards: b.cards,
            created_at: now,
            updated_at: now,
        }),
{
    lemma_save_then_read(s, pid, b, now);
    let t = apply_all(s, save_board_ops(pid, b)).unwrap();
    let rows = b.columns.map_values(|c: ColumnV| column_row(c));
    assert(sorted_by_key(rows, column_position()));
    lemma_sorted_is_fixed(rows, column_position());
    lemma_sorted_is_fixed(b.cards, card_position());
    assert(read_columns(t, pid) == project_columns(t, pid));
    assert(read_cards(t, pid) == project_cards(t, pid));
}

/// Wherever a statement of a board save after its `Begin` is refused, the
/// statements before it leave the transaction open, so the failure is met by
/// a rollback.
pub proof fn lemma_save_board_failure_in_transaction(pid: Seq<char>, b: BoardV, failed: int)
    requires
        1 <= failed < save_board_ops(pid, b).len(),
    ensures
        transaction_open(save_board_ops(pid, b).subrange(0, failed)),
    decreases failed,
{
    let ops = save_board_ops(pid, b);
    let head = seq![Op::Begin, Op::DeleteCardsOfProject(pid), Op::DeleteColumnsOfProject(pid)];
    let cops = insert_column_ops(pid, b.columns);
    let kops = insert_card_ops(pid, b.cards);
    assert(ops == ((head + cops) + kops) + seq![Op::Commit]);
    let prefix = ops.subrange(0, failed);
    assert(prefix.drop_last() =~= ops.subrange(0, failed - 1));
    assert(prefix.last() == ops[failed - 1]);
    if failed > 1 {
        let k = failed - 1;
        if k < 3 {
            assert(ops[k] == head[k]);
        } else if k < 3 + cops.len() {
            assert(ops[k] == cops[k - 3]);
        } else {
            assert(ops[k] == kops[k - 3 - cops.len()]);
        }
        lemma_save_board_failure_in_transaction(pid, b, failed - 1);
    }
}

} // verus!
