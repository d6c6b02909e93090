use vstd::prelude::*;

use crate::models::Flashcard;
use crate::oboete::models::folder::{Folder, FolderModel};

verus! {

/// A study set of the `oboete` pages and its folders.
#[derive(Debug, Clone)]
pub struct StudySet {
    pub id: Option<i32>,
    pub name: String,
    pub folders: Vec<Folder>,
}

impl StudySet {
    /// A new study set with this name and no folders.
    pub fn new(name: String) -> (s: StudySet)
        ensures
            s.id is None,
            s.name == name,
            s.folders@.len() == 0,
    {
        StudySet { id: None, name, folders: Vec::new() }
    }
}

/// A study set as a value: id, name and its folders as values.
pub type StudySetModel = (Option<i32>, String, Seq<FolderModel>);

pub open spec fn folder_models(folders: Seq<Folder>) -> Seq<FolderModel> {
    folders.map_values(|f: Folder| f@)
}

impl View for StudySet {
    type V = StudySetModel;

    open spec fn view(&self) -> StudySetModel {
        (self.id, self.name, folder_models(self.folders@))
    }
}

pub open spec fn study_set_models(sets: Seq<StudySet>) -> Seq<StudySetModel> {
    sets.map_values(|s: StudySet| s@)
}

/// One row of the query for all data: a study set, left-joined with its
/// folders and their cards, in the order of study set, folder and card ids.
/// The card columns are read when the row has a card.
pub struct StudySetDataRow {
    pub studyset_id: i32,
    pub studyset_name: String,
    pub folder_id: Option<i32>,
    pub folder_name: Option<String>,
    pub flashcard_id: Option<i32>,
    pub front: Option<String>,
    pub back: Option<String>,
    pub status: Option<i32>,
}

/// `i` is the first index of a folder with the id `id`.
pub open spec fn is_first_data_folder(folders: Seq<FolderModel>, id: i32, i: int) -> bool {
    &&& 0 <= i < folders.len()
    &&& folders[i].0 == Some(id)
    &&& forall|j: int| 0 <= j < i ==> folders[j].0 != Some(id)
}

/// The index of the first folder with the id `id`, or -1 if there is none.
pub open spec fn data_folder_position(folders: Seq<FolderModel>, id: i32) -> int {
    if exists|i: int| 0 <= i < folders.len() && folders[i].0 == Some(id) {
        choose|i: int| is_first_data_folder(folders, id, i)
    } else {
        -1
    }
}

/// The card of a row that has one.
pub open spec fn data_row_card(row: StudySetDataRow) -> Flashcard {
    Flashcard {
        id: row.flashcard_id,
        front: row.front->0,
        back: row.back->0,
        status: row.status->0,
    }
}

/// What a row adds to its study set: nothing without a folder; else its
/// card, if any, is appended to the set's first folder with the row's folder
/// id, or a new folder (left to right) is added with the row's folder name
/// and that card.
pub open spec fn add_data_row(set: StudySetModel, row: StudySetDataRow) -> StudySetModel {
    match row.folder_id {
        Some(folder_id) => {
            let pos = data_folder_position(set.2, folder_id);
            let cards: Seq<Flashcard> = if row.flashcard_id is Some {
                seq![data_row_card(row)]
            } else {
                Seq::empty()
            };
            if pos >= 0 {
                let f = set.2[pos];
                (set.0, set.1, set.2.update(pos, (f.0, f.1, f.2, f.3 + cards)))
            } else {
                (set.0, set.1, set.2.push((Some(folder_id), row.folder_name->0, false, cards)))
            }
        },
        None => set,
    }
}

/// The grouping state: the finished study sets and the open one.
pub type DataState = (Seq<StudySetModel>, Option<StudySetModel>);

/// The state after a row's study set is open: a row of another set than the
/// open one closes it and opens its own, empty.
pub open spec fn open_for_row(state: DataState, row: StudySetDataRow) -> (Seq<StudySetModel>, StudySetModel) {
    let fresh: StudySetModel = (Some(row.studyset_id), row.studyset_name, Seq::empty());
    match state.1 {
        Some(set) => if set.0 == Some(row.studyset_id) {
            (state.0, set)
        } else {
            (state.0.push(set), fresh)
        },
        None => (state.0, fresh),
    }
}

pub open spec fn data_step(state: DataState, row: StudySetDataRow) -> DataState {
    let (done, open) = open_for_row(state, row);
    (done, Some(add_data_row(open, row)))
}

/// The grouping state after the given rows.
pub open spec fn data_fold(rows: Seq<StudySetDataRow>) -> DataState
    decreases rows.len(),
{
    if rows.len() == 0 {
        (Seq::empty(), None)
    } else {
        data_step(data_fold(rows.drop_last()), rows.last())
    }
}

/// A row can be read in the given state: a row that opens a new folder
/// carries the folder's name, and a row with a folder and a card carries the
/// card's columns.
pub open spec fn data_row_readable(state: DataState, row: StudySetDataRow) -> bool {
    match row.folder_id {
        Some(folder_id) => {
            &&& (row.folder_name is Some || data_folder_position(open_for_row(state, row).1.2, folder_id) >= 0)
            &&& (row.flashcard_id is Some ==> row.front is Some && row.back is Some && row.status is Some)
        },
        None => true,
    }
}

/// Every row can be read in the state that the rows before it leave.
pub open spec fn data_rows_readable(rows: Seq<StudySetDataRow>) -> bool
    decreases rows.len(),
{
    rows.len() == 0 || (data_rows_readable(rows.drop_last()) && data_row_readable(
        data_fold(rows.drop_last()),
        rows.last(),
    ))
}

/// The study sets that the rows group into.
pub open spec fn grouped_study_sets(rows: Seq<StudySetDataRow>) -> Seq<StudySetModel> {
    let state = data_fold(rows);
    match state.1 {
        Some(set) => state.0.push(set),
        None => state.0,
    }
}

proof fn lemma_readable_prefix(rows: Seq<StudySetDataRow>, i: int)
    requires
        data_rows_readable(rows),
        0 <= i < rows.len(),
    ensures
        data_rows_readable(rows.take(i + 1)),
        data_row_readable(data_fold(rows.take(i)), rows[i]),
    decreases rows.len(),
{
    if i + 1 == rows.len() {
        assert(rows.take(i + 1) =~= rows);
        assert(rows.drop_last() =~= rows.take(i));
    } else {
        lemma_readable_prefix(rows.drop_last(), i);
        assert(rows.drop_last().take(i + 1) =~= rows.take(i + 1));
        assert(rows.drop_last().take(i) =~= rows.take(i));
    }
    let p = rows.take(i + 1);
    assert(p.drop_last() =~= rows.take(i));
}

/// The first index of a folder with the given id, if any.
fn find_data_folder(folders: &Vec<Folder>, id: i32) -> (r: Option<usize>)
    ensures
        match r {
            Some(i) => i == data_folder_position(folder_models(folders@), id) && i < folders.len(),
            None => data_folder_position(folder_models(folders@), id) == -1,
        },
{
    let ghost model = folder_models(folders@);
    let mut i: usize = 0;
    while i < folders.len()
        invariant
            i <= folders.len(),
            model == folder_models(folders@),
            forall|j: int| 0 <= j < i ==> model[j].0 != Some(id),
        decreases folders.len() - i,
    {
        let found = match folders[i].id {
            Some(x) => x == id,
            None => false,
        };
        if found {
            proof {
                assert(is_first_data_folder(model, id, i as int));
                let k = choose|k: int| is_first_data_folder(model, id, k);
                if k < i {
                    assert(model[k].0 != Some(id));
                }
                if i < k {
                    assert(model[i as int].0 != Some(id));
                }
            }
            return Some(i);
        }
        i = i + 1;
    }
    proof {
        if exists|k: int| 0 <= k < model.len() && model[k].0 == Some(id) {
            let k = choose|k: int| 0 <= k < model.len() && model[k].0 == Some(id);
            assert(model[k].0 != Some(id));
        }
    }
    None
}

/// Adds one row to its study set.
fn add_data_row_to(set: StudySet, row: &StudySetDataRow) -> (r: StudySet)
    requires
        match row.folder_id {
            Some(folder_id) => {
                &&& (row.folder_name is Some || data_folder_position(set@.2, folder_id) >= 0)
                &&& (row.flashcard_id is Some ==> row.front is Some && row.back is Some && row.status is Some)
            },
            None => true,
        },
    ensures
        r@ == add_data_row(set@, *row),
{
    let folder_id = match row.folder_id {
        Some(id) => id,
        None => {
            return set;
        },
    };
    let ghost before = set@;
    let mut set = set;
    let mut cards: Vec<Flashcard> = Vec::new();
    match row.flashcard_id {
        Some(card_id) => {
            let front = match &row.front {
                Some(t) => t.clone(),
                None => String::new(),
            };
            let back = match &row.back {
                Some(t) => t.clone(),
                None => String::new(),
            };
            let status = match row.status {
                Some(s) => s,
                None => 0,
            };
            cards.push(Flashcard { id: Some(card_id), front, back, status });
        },
        None => {},
    }
    let ghost added = cards@;
    proof {
        if row.flashcard_id is Some {
            assert(added =~= seq![data_row_card(*row)]);
        } else {
            assert(added =~= Seq::<Flashcard>::empty());
        }
    }
    match find_data_folder(&set.folders, folder_id) {
        Some(p) => {
            let mut folder = set.folders.remove(p);
            let ghost old_cards = folder.flashcards@;
            folder.flashcards.append(&mut cards);
            set.folders.insert(p, folder);
            proof {
                let f = before.2[p as int];
                assert(folder_models(set.folders@) =~= before.2.update(
                    p as int,
                    (f.0, f.1, f.2, f.3 + added),
                ));
            }
        },
        None => {
            let name = match &row.folder_name {
                Some(n) => n.clone(),
                None => String::new(),
            };
            set.folders.push(Folder { id: Some(folder_id), name, rtl_fix: false, flashcards: cards });
            proof {
                assert(folder_models(set.folders@) =~= before.2.push(
                    (Some(folder_id), row.folder_name->0, false, added),
                ));
            }
        },
    }
    set
}

impl StudySet {
    /// Groups the rows of the query for all data into study sets, each with
    /// its folders in order of first appearance and each folder with its
    /// cards in order.
    pub fn group_data_rows(rows: &Vec<StudySetDataRow>) -> (sets: Vec<StudySet>)
        requires
            data_rows_readable(rows@),
        ensures
            study_set_models(sets@) == grouped_study_sets(rows@),
    {
        let mut study_sets: Vec<StudySet> = Vec::new();
        let mut current: Option<StudySet> = None;
        let mut i: usize = 0;
        while i < rows.len()
            invariant
                i <= rows.len(),
                data_rows_readable(rows@),
                study_set_models(study_sets@) == data_fold(rows@.take(i as int)).0,
                match current {
                    Some(s) => data_fold(rows@.take(i as int)).1 == Some(s@),
                    None => data_fold(rows@.take(i as int)).1 is None,
                },
            decreases rows.len() - i,
        {
            let row = &rows[i];
            proof {
                lemma_readable_prefix(rows@, i as int);
            }
            let ghost state = data_fold(rows@.take(i as int));
            let ghost sets_before = study_set_models(study_sets@);
            let open = match current {
                Some(s) => {
                    let same = match s.id {
                        Some(x) => x == row.studyset_id,
                        None => false,
                    };
                    if same {
                        s
                    } else {
                        study_sets.push(s);
                        proof {
                            assert(study_set_models(study_sets@) =~= sets_before.push(s@));
                        }
                        let fresh = StudySet { id: Some(row.studyset_id), name: row.studyset_name.clone(), folders: Vec::new() };
                        proof {
                            assert(folder_models(fresh.folders@) =~= Seq::<FolderModel>::empty());
                        }
                        fresh
                    }
                },
                None => {
                    let fresh = StudySet { id: Some(row.studyset_id), name: row.studyset_name.clone(), folders: Vec::new() };
                    proof {
                        assert(folder_models(fresh.folders@) =~= Seq::<FolderModel>::empty());
                    }
                    fresh
                },
            };
            proof {
                assert(open@ == open_for_row(state, *row).1);
            }
            let next = add_data_row_to(open, row);
            current = Some(next);
            proof {
                assert(rows@.take(i + 1).drop_last() =~= rows@.take(i as int));
                assert(rows@.take(i + 1).last() == rows@[i as int]);
            }
            i = i + 1;
        }
        proof {
            assert(rows@.take(rows.len() as int) =~= rows@);
        }
        let ghost sets_before = study_set_models(study_sets@);
        match current {
            Some(s) => {
                study_sets.push(s);
                proof {
                    assert(study_set_models(study_sets@) =~= sets_before.push(s@));
                }
            },
            None => {},
        }
        study_sets
    }
}

} // verus!

verus! {

/// No two folders have the same id.
pub open spec fn data_folder_ids_distinct(folders: Seq<FolderModel>) -> bool {
    forall|i: int, j: int| 0 <= i < j < folders.len() ==> folders[i].0 != folders[j].0
}

/// The rows come in order of study set id, as the query sorts them.
pub open spec fn data_rows_sorted_by_set(rows: Seq<StudySetDataRow>) -> bool {
    forall|i: int, j: int| 0 <= i < j < rows.len() ==> rows[i].studyset_id <= rows[j].studyset_id
}

/// Every study set has an id, and the ids strictly increase.
pub open spec fn data_set_ids_increasing(sets: Seq<StudySetModel>) -> bool {
    &&& forall|i: int| 0 <= i < sets.len() ==> (#[trigger] sets[i]).0 is Some
    &&& forall|i: int, j: int| 0 <= i < j < sets.len() ==> sets[i].0->0 < sets[j].0->0
}

proof fn lemma_data_first_folder_exists(folders: Seq<FolderModel>, id: i32)
    requires
        exists|i: int| 0 <= i < folders.len() && folders[i].0 == Some(id),
    ensures
        exists|i: int| is_first_data_folder(folders, id, i),
    decreases folders.len(),
{
    let init = folders.drop_last();
    if exists|i: int| 0 <= i < init.len() && init[i].0 == Some(id) {
        lemma_data_first_folder_exists(init, id);
        let i = choose|i: int| is_first_data_folder(init, id, i);
        assert(init[i] == folders[i]);
        assert forall|j: int| 0 <= j < i implies folders[j].0 != Some(id) by {
            assert(init[j] == folders[j]);
        }
        assert(is_first_data_folder(folders, id, i));
    } else {
        let last = folders.len() - 1;
        let k = choose|k: int| 0 <= k < folders.len() && folders[k].0 == Some(id);
        if k < last {
            assert(init[k].0 == Some(id));
        }
        assert forall|j: int| 0 <= j < last implies folders[j].0 != Some(id) by {
            if folders[j].0 == Some(id) {
                assert(init[j].0 == Some(id));
            }
        }
        assert(is_first_data_folder(folders, id, last));
    }
}

proof fn lemma_data_position(folders: Seq<FolderModel>, id: i32)
    ensures
        data_folder_position(folders, id) < 0 ==> forall|i: int| 0 <= i < folders.len() ==> folders[i].0 != Some(id),
        data_folder_position(folders, id) >= 0 ==> is_first_data_folder(folders, id, data_folder_position(folders, id)),
{
    if exists|i: int| 0 <= i < folders.len() && folders[i].0 == Some(id) {
        lemma_data_first_folder_exists(folders, id);
    }
}

proof fn lemma_add_data_row_distinct(set: StudySetModel, row: StudySetDataRow)
    requires
        data_folder_ids_distinct(set.2),
    ensures
        data_folder_ids_distinct(add_data_row(set, row).2),
        add_data_row(set, row).0 == set.0,
{
    if let Some(folder_id) = row.folder_id {
        let pos = data_folder_position(set.2, folder_id);
        lemma_data_position(set.2, folder_id);
        let r = add_data_row(set, row).2;
        if pos >= 0 {
            assert forall|i: int, j: int| 0 <= i < j < r.len() implies r[i].0 != r[j].0 by {
                assert(r[i].0 == set.2[i].0);
                assert(r[j].0 == set.2[j].0);
            }
        } else {
            assert forall|i: int, j: int| 0 <= i < j < r.len() implies r[i].0 != r[j].0 by {
                assert(r[i] == set.2[i]);
                if j < set.2.len() {
                    assert(r[j] == set.2[j]);
                }
            }
        }
    }
}

proof fn lemma_data_fold_shape(rows: Seq<StudySetDataRow>)
    ensures
        forall|i: int| 0 <= i < data_fold(rows).0.len() ==> data_folder_ids_distinct(
            #[trigger] data_fold(rows).0[i].2,
        ),
        data_fold(rows).1 matches Some(s) ==> data_folder_ids_distinct(s.2),
        rows.len() > 0 ==> (data_fold(rows).1 matches Some(s) && s.0 == Some(rows.last().studyset_id)),
        data_rows_sorted_by_set(rows) ==> {
            &&& data_set_ids_increasing(data_fold(rows).0)
            &&& forall|i: int| 0 <= i < data_fold(rows).0.len() ==> (#[trigger] data_fold(rows).0[i]).0->0
                < rows.last().studyset_id
        },
    decreases rows.len(),
{
    if rows.len() > 0 {
        let init = rows.drop_last();
        let row = rows.last();
        lemma_data_fold_shape(init);
        let prev = data_fold(init);
        assert(data_rows_sorted_by_set(rows) ==> data_rows_sorted_by_set(init)) by {
            if data_rows_sorted_by_set(rows) {
                assert forall|i: int, j: int| 0 <= i < j < init.len() implies init[i].studyset_id
                    <= init[j].studyset_id by {
                    assert(init[i] == rows[i] && init[j] == rows[j]);
                }
            }
        }
        let fresh: StudySetModel = (Some(row.studyset_id), row.studyset_name, Seq::empty());
        assert(data_folder_ids_distinct(fresh.2));
        match prev.1 {
            Some(set) => {
                if set.0 == Some(row.studyset_id) {
                    lemma_add_data_row_distinct(set, row);
                } else {
                    lemma_add_data_row_distinct(fresh, row);
                    let done = prev.0.push(set);
                    assert forall|i: int| 0 <= i < done.len() implies data_folder_ids_distinct(
                        #[trigger] done[i].2,
                    ) by {
                        if i < prev.0.len() {
                            assert(done[i] == prev.0[i]);
                        }
                    }
                    if data_rows_sorted_by_set(rows) {
                        assert(init.last() == rows[rows.len() - 2]);
                        assert(rows[rows.len() - 2].studyset_id <= row.studyset_id);
                        assert forall|i: int| 0 <= i < done.len() implies (#[trigger] done[i]).0 is Some by {
                            if i < prev.0.len() {
                                assert(done[i] == prev.0[i]);
                            }
                        }
                        assert forall|i: int, j: int| 0 <= i < j < done.len() implies done[i].0->0
                            < done[j].0->0 by {
                            assert(done[i] == prev.0[i]);
                            if j < prev.0.len() {
                                assert(done[j] == prev.0[j]);
                            }
                        }
                        assert forall|i: int| 0 <= i < done.len() implies (#[trigger] done[i]).0->0
                            < row.studyset_id by {
                            if i < prev.0.len() {
                                assert(done[i] == prev.0[i]);
                            }
                        }
                    }
                }
            },
            None => {
                lemma_add_data_row_distinct(fresh, row);
            },
        }
    }
}

/// The shape of the grouped study sets: no folder appears twice in a study
/// set, and for rows in order of study set id, as the query gives them,
/// there is one study set per id, in increasing order of id.
pub proof fn lemma_grouped_shape(rows: Seq<StudySetDataRow>)
    ensures
        forall|i: int| 0 <= i < grouped_study_sets(rows).len() ==> data_folder_ids_distinct(
            #[trigger] grouped_study_sets(rows)[i].2,
        ),
        data_rows_sorted_by_set(rows) ==> data_set_ids_increasing(grouped_study_sets(rows)),
{
    lemma_data_fold_shape(rows);
    let state = data_fold(rows);
    if let Some(set) = state.1 {
        let all = state.0.push(set);
        assert forall|i: int| 0 <= i < all.len() implies data_folder_ids_distinct(#[trigger] all[i].2) by {
            if i < state.0.len() {
                assert(all[i] == state.0[i]);
            }
        }
        if data_rows_sorted_by_set(rows) {
            assert forall|i: int| 0 <= i < all.len() implies (#[trigger] all[i]).0 is Some by {
                if i < state.0.len() {
                    assert(all[i] == state.0[i]);
                }
            }
            assert forall|i: int, j: int| 0 <= i < j < all.len() implies all[i].0->0 < all[j].0->0 by {
                assert(all[i] == state.0[i]);
                if j < state.0.len() {
                    assert(all[j] == state.0[j]);
                }
            }
        }
    }
}

} // verus!

verus! {

/// The id of a grouped card (every such card has one).
pub open spec fn data_card_id(card: Flashcard) -> i32 {
    match card.id {
        Some(id) => id,
        None => 0,
    }
}

/// In every folder, the cards come in order of id.
pub open spec fn data_cards_in_id_order(folders: Seq<FolderModel>) -> bool {
    forall|f: int, a: int, b: int|
        #![trigger folders[f].3[a], folders[f].3[b]]
        0 <= f < folders.len() && 0 <= a < b < folders[f].3.len() ==> data_card_id(folders[f].3[a])
            <= data_card_id(folders[f].3[b])
}

/// The rows of one study set and folder come in order of card id, as the
/// query sorts them.
pub open spec fn data_rows_sorted_by_card(rows: Seq<StudySetDataRow>) -> bool {
    forall|i: int, j: int|
        0 <= i < j < rows.len() && rows[i].studyset_id == rows[j].studyset_id && rows[i].folder_id
            == rows[j].folder_id && rows[i].flashcard_id is Some && rows[j].flashcard_id is Some
            ==> rows[i].flashcard_id->0 <= rows[j].flashcard_id->0
}

/// The card comes from a row of the study set and folder.
pub open spec fn data_card_from_rows(card: Flashcard, set_id: Option<i32>, folder_id: Option<i32>, rows: Seq<StudySetDataRow>) -> bool {
    exists|i: int|
        0 <= i < rows.len() && Some(rows[i].studyset_id) == set_id && rows[i].folder_id == folder_id
            && rows[i].flashcard_id is Some && card.id == rows[i].flashcard_id
}

/// The cards of the set are in order of id, and each comes from a row of
/// the set and of its folder.
pub open spec fn data_set_traced(set: StudySetModel, rows: Seq<StudySetDataRow>) -> bool {
    &&& data_cards_in_id_order(set.2)
    &&& forall|f: int, a: int|
        0 <= f < set.2.len() && 0 <= a < set.2[f].3.len() ==> data_card_from_rows(
            #[trigger] set.2[f].3[a],
            set.0,
            set.2[f].0,
            rows,
        )
}

proof fn lemma_data_traced_more_rows(set: StudySetModel, rows: Seq<StudySetDataRow>)
    requires
        rows.len() > 0,
        data_set_traced(set, rows.drop_last()),
    ensures
        data_set_traced(set, rows),
{
    let init = rows.drop_last();
    assert forall|f: int, a: int| 0 <= f < set.2.len() && 0 <= a < set.2[f].3.len() implies data_card_from_rows(
        #[trigger] set.2[f].3[a],
        set.0,
        set.2[f].0,
        rows,
    ) by {
        let c = set.2[f].3[a];
        assert(data_card_from_rows(c, set.0, set.2[f].0, init));
        let i = choose|i: int|
            0 <= i < init.len() && Some(init[i].studyset_id) == set.0 && init[i].folder_id == set.2[f].0
                && init[i].flashcard_id is Some && c.id == init[i].flashcard_id;
        assert(init[i] == rows[i]);
    }
}

proof fn lemma_add_data_row_traced(set: StudySetModel, row: StudySetDataRow, rows: Seq<StudySetDataRow>)
    requires
        rows.len() > 0,
        rows.last() == row,
        data_rows_sorted_by_card(rows),
        set.0 == Some(row.studyset_id),
        data_set_traced(set, rows.drop_last()),
    ensures
        data_set_traced(add_data_row(set, row), rows),
{
    lemma_data_traced_more_rows(set, rows);
    let init = rows.drop_last();
    let n = rows.len() - 1;
    if let Some(folder_id) = row.folder_id {
        let pos = data_folder_position(set.2, folder_id);
        lemma_data_position(set.2, folder_id);
        let r = add_data_row(set, row).2;
        let card = data_row_card(row);
        if row.flashcard_id is Some {
            assert(data_card_from_rows(card, set.0, Some(folder_id), rows)) by {
                assert(rows[n] == row);
            }
        }
        let idx = if pos >= 0 {
            pos
        } else {
            set.2.len() as int
        };
        let old_cards: Seq<Flashcard> = if pos >= 0 {
            set.2[pos].3
        } else {
            Seq::empty()
        };
        assert(r[idx].0 == Some(folder_id));
        assert(r[idx].3 == old_cards + (if row.flashcard_id is Some {
            seq![card]
        } else {
            Seq::<Flashcard>::empty()
        }));
        assert forall|f: int, a: int| 0 <= f < r.len() && 0 <= a < r[f].3.len() implies data_card_from_rows(
            #[trigger] r[f].3[a],
            set.0,
            r[f].0,
            rows,
        ) by {
            if f == idx {
                if a < old_cards.len() {
                    assert(r[f].3[a] == set.2[f].3[a]);
                } else {
                    assert(r[f].3[a] == card);
                }
            } else {
                assert(r[f] == set.2[f]);
            }
        }
        assert forall|f: int, a: int, b: int|
            #![trigger r[f].3[a], r[f].3[b]]
            0 <= f < r.len() && 0 <= a < b < r[f].3.len() implies data_card_id(r[f].3[a]) <= data_card_id(
            r[f].3[b],
        ) by {
            if f == idx {
                if b < old_cards.len() {
                    assert(r[f].3[a] == set.2[f].3[a]);
                    assert(r[f].3[b] == set.2[f].3[b]);
                } else {
                    let c = set.2[f].3[a];
                    assert(r[f].3[a] == c);
                    assert(r[f].3[b] == card);
                    assert(data_card_from_rows(c, set.0, set.2[f].0, init));
                    let i = choose|i: int|
                        0 <= i < init.len() && Some(init[i].studyset_id) == set.0 && init[i].folder_id
                            == set.2[f].0 && init[i].flashcard_id is Some && c.id == init[i].flashcard_id;
                    assert(init[i] == rows[i]);
                    assert(rows[i].flashcard_id->0 <= rows[n].flashcard_id->0);
                }
            } else {
                assert(r[f] == set.2[f]);
            }
        }
    }
}

proof fn lemma_data_fold_order(rows: Seq<StudySetDataRow>)
    requires
        data_rows_sorted_by_card(rows),
    ensures
        forall|i: int| 0 <= i < data_fold(rows).0.len() ==> data_cards_in_id_order(
            #[trigger] data_fold(rows).0[i].2,
        ),
        data_fold(rows).1 matches Some(s) ==> data_set_traced(s, rows),
        rows.len() > 0 ==> (data_fold(rows).1 matches Some(s) && s.0 == Some(rows.last().studyset_id)),
    decreases rows.len(),
{
    if rows.len() > 0 {
        let init = rows.drop_last();
        let row = rows.last();
        assert(data_rows_sorted_by_card(init)) by {
            assert forall|i: int, j: int|
                0 <= i < j < init.len() && init[i].studyset_id == init[j].studyset_id
                    && init[i].folder_id == init[j].folder_id && init[i].flashcard_id is Some
                    && init[j].flashcard_id is Some implies init[i].flashcard_id->0
                <= init[j].flashcard_id->0 by {
                assert(init[i] == rows[i] && init[j] == rows[j]);
            }
        }
        lemma_data_fold_order(init);
        let prev = data_fold(init);
        let fresh: StudySetModel = (Some(row.studyset_id), row.studyset_name, Seq::empty());
        assert(data_set_traced(fresh, init));
        match prev.1 {
            Some(set) => {
                if set.0 == Some(row.studyset_id) {
                    lemma_add_data_row_traced(set, row, rows);
                } else {
                    lemma_add_data_row_traced(fresh, row, rows);
                    let done = prev.0.push(set);
                    assert forall|i: int| 0 <= i < done.len() implies data_cards_in_id_order(
                        #[trigger] done[i].2,
                    ) by {
                        if i < prev.0.len() {
                            assert(done[i] == prev.0[i]);
                        }
                    }
                }
            },
            None => {
                lemma_add_data_row_traced(fresh, row, rows);
            },
        }
    }
}

/// For rows that come in order of card id within each study set and
/// folder, as the query gives them, the cards of every grouped folder come
/// in order of id.
pub proof fn lemma_grouped_cards_in_order(rows: Seq<StudySetDataRow>)
    requires
        data_rows_sorted_by_card(rows),
    ensures
        forall|i: int| 0 <= i < grouped_study_sets(rows).len() ==> data_cards_in_id_order(
            #[trigger] grouped_study_sets(rows)[i].2,
        ),
{
    lemma_data_fold_order(rows);
    let state = data_fold(rows);
    if let Some(set) = state.1 {
        let all = state.0.push(set);
        assert forall|i: int| 0 <= i < all.len() implies data_cards_in_id_order(#[trigger] all[i].2) by {
            if i < state.0.len() {
                assert(all[i] == state.0[i]);
            }
        }
    }
}

} // verus!
