use vstd::prelude::*;

use crate::app::common::models::flashcard::Flashcard;
use crate::app::common::models::folder::{Folder, DEFAULT_DESIRED_RETENTION_BITS};
use crate::app::common::models::studyset::StudySet;

verus! {

/// One row of the backup query: a study set, left-joined with its folders
/// and their flashcards, in the order of study set, folder and card ids.
/// `flashcard` is the card read from the row's card columns, when there are
/// any; its own id is replaced by `flashcard_id`.
pub struct BackupRow {
    pub studyset_id: i32,
    pub studyset_name: String,
    pub folder_id: Option<i32>,
    pub folder_name: Option<String>,
    pub flashcard_id: Option<i32>,
    pub flashcard: Option<Flashcard>,
}

/// A folder in a backup, with its cards.
pub struct BackupFolder {
    pub folder: Folder,
    pub flashcards: Vec<Flashcard>,
}

/// A study set in a backup, with its folders.
pub struct BackupStudySet {
    pub study_set: StudySet,
    pub folders: Vec<BackupFolder>,
}

/// The whole application's data, as a backup holds it.
pub struct BackupData {
    pub study_sets: Vec<BackupStudySet>,
}

/// A folder of a backup as a value: the folder and its cards.
pub type FolderModel = (Folder, Seq<Flashcard>);

/// A study set of a backup as a value: the set and its folders.
pub type SetModel = (StudySet, Seq<FolderModel>);

impl View for BackupFolder {
    type V = FolderModel;

    open spec fn view(&self) -> FolderModel {
        (self.folder, self.flashcards@)
    }
}

pub open spec fn folders_view(folders: Seq<BackupFolder>) -> Seq<FolderModel> {
    folders.map_values(|f: BackupFolder| f@)
}

impl View for BackupStudySet {
    type V = SetModel;

    open spec fn view(&self) -> SetModel {
        (self.study_set, folders_view(self.folders@))
    }
}

pub open spec fn sets_view(sets: Seq<BackupStudySet>) -> Seq<SetModel> {
    sets.map_values(|s: BackupStudySet| s@)
}

impl View for BackupData {
    type V = Seq<SetModel>;

    open spec fn view(&self) -> Seq<SetModel> {
        sets_view(self.study_sets@)
    }
}

/// Whether some folder of `folders` has the id `id`.
pub open spec fn has_folder(folders: Seq<FolderModel>, id: i32) -> bool {
    exists|i: int| 0 <= i < folders.len() && folders[i].0.id == Some(id)
}

/// `i` is the first index of a folder with the id `id`.
pub open spec fn is_first_folder(folders: Seq<FolderModel>, id: i32, i: int) -> bool {
    &&& 0 <= i < folders.len()
    &&& folders[i].0.id == Some(id)
    &&& forall|j: int| 0 <= j < i ==> folders[j].0.id != Some(id)
}

/// The index of the first folder with the id `id`, or -1 if there is none.
pub open spec fn folder_position(folders: Seq<FolderModel>, id: i32) -> int {
    if has_folder(folders, id) {
        choose|i: int| is_first_folder(folders, id, i)
    } else {
        -1
    }
}

/// The card a row contributes: the row's card under the row's card id, for a
/// row whose card id is positive.
pub open spec fn row_card(row: BackupRow) -> Option<Flashcard> {
    match (row.flashcard_id, row.flashcard) {
        (Some(card_id), Some(card)) => if card_id > 0 {
            Some(Flashcard { id: Some(card_id), ..card })
        } else {
            None
        },
        _ => None,
    }
}

/// A new folder of a backup, as read from a row.
pub open spec fn new_folder(id: i32, name: String) -> FolderModel {
    (Folder { id: Some(id), name, desired_retention_bits: DEFAULT_DESIRED_RETENTION_BITS }, Seq::empty())
}

/// What a row adds to the study set it belongs to. A row without a folder, or
/// with the folder id 0 that the join gives for a missing folder, adds
/// nothing. Otherwise the row's folder is added if the set lacks it, and the
/// row's card, if any, is appended to that folder.
pub open spec fn add_row_to_set(set: SetModel, row: BackupRow) -> SetModel {
    match (row.folder_id, row.folder_name) {
        (Some(folder_id), Some(folder_name)) => if folder_id == 0 {
            set
        } else {
            let pos = folder_position(set.1, folder_id);
            let folders = if pos >= 0 {
                set.1
            } else {
                set.1.push(new_folder(folder_id, folder_name))
            };
            let idx = if pos >= 0 {
                pos
            } else {
                set.1.len() as int
            };
            match row_card(row) {
                Some(card) => (set.0, folders.update(idx, (folders[idx].0, folders[idx].1.push(card)))),
                None => (set.0, folders),
            }
        },
        _ => set,
    }
}

/// The empty study set that a row opens.
pub open spec fn new_set(row: BackupRow) -> SetModel {
    (StudySet { id: Some(row.studyset_id), name: row.studyset_name }, Seq::empty())
}

/// The state of the grouping: the finished study sets and the open one.
pub type GroupState = (Seq<SetModel>, Option<SetModel>);

/// One row's step: a row of another study set than the open one closes it
/// and opens its own; then the row is added to the open set.
pub open spec fn backup_step(state: GroupState, row: BackupRow) -> GroupState {
    let (done, open) = match state.1 {
        Some(set) => if set.0.id == Some(row.studyset_id) {
            (state.0, set)
        } else {
            (state.0.push(set), new_set(row))
        },
        None => (state.0, new_set(row)),
    };
    (done, Some(add_row_to_set(open, row)))
}

/// The grouping state after the given rows.
pub open spec fn backup_fold(rows: Seq<BackupRow>) -> GroupState
    decreases rows.len(),
{
    if rows.len() == 0 {
        (Seq::empty(), None)
    } else {
        backup_step(backup_fold(rows.drop_last()), rows.last())
    }
}

/// The study sets that the rows group into.
pub open spec fn backup_sets(rows: Seq<BackupRow>) -> Seq<SetModel> {
    let state = backup_fold(rows);
    match state.1 {
        Some(set) => state.0.push(set),
        None => state.0,
    }
}

/// The first index of a folder with the given id, if any.
fn find_folder(folders: &Vec<BackupFolder>, id: i32) -> (r: Option<usize>)
    ensures
        match r {
            Some(i) => i == folder_position(folders_view(folders@), id) && i < folders.len(),
            None => folder_position(folders_view(folders@), id) == -1,
        },
{
    let ghost model = folders_view(folders@);
    let mut i: usize = 0;
    while i < folders.len()
        invariant
            i <= folders.len(),
            model == folders_view(folders@),
            forall|j: int| 0 <= j < i ==> model[j].0.id != Some(id),
        decreases folders.len() - i,
    {
        let found = match folders[i].folder.id {
            Some(x) => x == id,
            None => false,
        };
        if found {
            proof {
                assert(is_first_folder(model, id, i as int));
                let k = choose|k: int| is_first_folder(model, id, k);
                assert(is_first_folder(model, id, k));
                if k < i {
                    assert(model[k].0.id != Some(id));
                }
                if i < k {
                    assert(model[i as int].0.id != Some(id));
                }
            }
            return Some(i);
        }
        i = i + 1;
    }
    proof {
        assert(!has_folder(model, id)) by {
            if has_folder(model, id) {
                let k = choose|k: int| 0 <= k < model.len() && model[k].0.id == Some(id);
                assert(model[k].0.id != Some(id));
            }
        }
    }
    None
}

/// Adds one row to the study set it belongs to.
fn add_row(set: BackupStudySet, row: &BackupRow) -> (r: BackupStudySet)
    ensures
        r@ == add_row_to_set(set@, *row),
{
    let folder_id = match row.folder_id {
        Some(id) => id,
        None => {
            return set;
        },
    };
    let folder_name = match &row.folder_name {
        Some(name) => name,
        None => {
            return set;
        },
    };
    if folder_id == 0 {
        return set;
    }
    let ghost before = set@;
    let mut set = set;
    let idx = match find_folder(&set.folders, folder_id) {
        Some(p) => p,
        None => {
            let folder = BackupFolder {
                folder: Folder {
                    id: Some(folder_id),
                    name: folder_name.clone(),
                    desired_retention_bits: DEFAULT_DESIRED_RETENTION_BITS,
                },
                flashcards: Vec::new(),
            };
            set.folders.push(folder);
            proof {
                assert(folders_view(set.folders@) =~= before.1.push(
                    new_folder(folder_id, *folder_name),
                ));
            }
            set.folders.len() - 1
        },
    };
    let ghost with_folder = folders_view(set.folders@);
    match (row.flashcard_id, &row.flashcard) {
        (Some(card_id), Some(card)) => {
            if card_id > 0 {
                let mut copy = card.duplicate();
                copy.id = Some(card_id);
                let mut folder = set.folders.remove(idx);
                folder.flashcards.push(copy);
                set.folders.insert(idx, folder);
                proof {
                    assert(folders_view(set.folders@) =~= with_folder.update(
                        idx as int,
                        (with_folder[idx as int].0, with_folder[idx as int].1.push(copy)),
                    ));
                }
            }
        },
        _ => {},
    }
    set
}

/// A study set opened by a row, with no folders yet.
fn open_set(row: &BackupRow) -> (r: BackupStudySet)
    ensures
        r@ == new_set(*row),
{
    let r = BackupStudySet {
        study_set: StudySet { id: Some(row.studyset_id), name: row.studyset_name.clone() },
        folders: Vec::new(),
    };
    proof {
        assert(folders_view(r.folders@) =~= Seq::<FolderModel>::empty());
    }
    r
}

/// Groups the rows of the backup query into study sets, folders and cards,
/// as a backup holds them: a study set for each run of rows with one study
/// set id, in each the folders of its rows in order of first appearance,
/// and in each folder the cards of its rows in order.
pub fn group_backup_rows(rows: &Vec<BackupRow>) -> (data: BackupData)
    ensures
        data@ == backup_sets(rows@),
{
    let mut study_sets: Vec<BackupStudySet> = Vec::new();
    let mut current: Option<BackupStudySet> = None;
    let mut i: usize = 0;
    while i < rows.len()
        invariant
            i <= rows.len(),
            sets_view(study_sets@) == backup_fold(rows@.take(i as int)).0,
            match current {
                Some(s) => backup_fold(rows@.take(i as int)).1 == Some(s@),
                None => backup_fold(rows@.take(i as int)).1 is None,
            },
        decreases rows.len() - i,
    {
        let row = &rows[i];
        let ghost sets_before = sets_view(study_sets@);
        let open = match current {
            Some(s) => {
                let same = match s.study_set.id {
                    Some(x) => x == row.studyset_id,
                    None => false,
                };
                if same {
                    s
                } else {
                    study_sets.push(s);
                    proof {
                        assert(sets_view(study_sets@) =~= sets_before.push(s@));
                    }
                    open_set(row)
                }
            },
            None => open_set(row),
        };
        let next = add_row(open, row);
        current = Some(next);
        proof {
            assert(rows@.take(i + 1).drop_last() =~= rows@.take(i as int));
            assert(rows@.take(i + 1).last() == rows@[i as int]);
        }
        i = i + 1;
    }
    proof {
        assert(rows@.take(rows.len() as int) =~= rows@);
    }
    let ghost sets_before = sets_view(study_sets@);
    match current {
        Some(s) => {
            study_sets.push(s);
            proof {
                assert(sets_view(study_sets@) =~= sets_before.push(s@));
            }
        },
        None => {},
    }
    BackupData { study_sets }
}

} // verus!

verus! {

/// The number of cards in the folders.
pub open spec fn folders_card_count(folders: Seq<FolderModel>) -> nat
    decreases folders.len(),
{
    if folders.len() == 0 {
        0
    } else {
        folders_card_count(folders.drop_last()) + folders.last().1.len()
    }
}

/// The number of cards in the study sets.
pub open spec fn sets_card_count(sets: Seq<SetModel>) -> nat
    decreases sets.len(),
{
    if sets.len() == 0 {
        0
    } else {
        sets_card_count(sets.drop_last()) + folders_card_count(sets.last().1)
    }
}

/// A row that carries a card into the backup: it has a real folder (a
/// name, and an id other than 0) and a card with a positive id.
pub open spec fn row_adds_card(row: BackupRow) -> bool {
    &&& row.folder_id matches Some(id) && id != 0
    &&& row.folder_name is Some
    &&& row_card(row) is Some
}

/// The number of rows that carry a card into the backup.
pub open spec fn card_row_count(rows: Seq<BackupRow>) -> nat
    decreases rows.len(),
{
    if rows.len() == 0 {
        0
    } else {
        card_row_count(rows.drop_last()) + if row_adds_card(rows.last()) {
            1nat
        } else {
            0nat
        }
    }
}

/// The cards of the open set of a grouping state.
pub open spec fn open_card_count(state: GroupState) -> nat {
    match state.1 {
        Some(set) => folders_card_count(set.1),
        None => 0,
    }
}

proof fn lemma_first_folder_exists(folders: Seq<FolderModel>, id: i32)
    requires
        has_folder(folders, id),
    ensures
        exists|i: int| is_first_folder(folders, id, i),
    decreases folders.len(),
{
    let init = folders.drop_last();
    if has_folder(init, id) {
        lemma_first_folder_exists(init, id);
        let i = choose|i: int| is_first_folder(init, id, i);
        assert(init[i] == folders[i]);
        assert forall|j: int| 0 <= j < i implies folders[j].0.id != Some(id) by {
            assert(init[j] == folders[j]);
        }
        assert(is_first_folder(folders, id, i));
    } else {
        let last = folders.len() - 1;
        let k = choose|k: int| 0 <= k < folders.len() && folders[k].0.id == Some(id);
        if k < last {
            assert(init[k].0.id == Some(id));
        }
        assert forall|j: int| 0 <= j < last implies folders[j].0.id != Some(id) by {
            if folders[j].0.id == Some(id) {
                assert(init[j].0.id == Some(id));
            }
        }
        assert(is_first_folder(folders, id, last));
    }
}

proof fn lemma_count_push_folder(folders: Seq<FolderModel>, f: FolderModel)
    ensures
        folders_card_count(folders.push(f)) == folders_card_count(folders) + f.1.len(),
{
    assert(folders.push(f).drop_last() =~= folders);
}

proof fn lemma_count_add_card(folders: Seq<FolderModel>, i: int, card: Flashcard)
    requires
        0 <= i < folders.len(),
    ensures
        folders_card_count(folders.update(i, (folders[i].0, folders[i].1.push(card))))
            == folders_card_count(folders) + 1,
    decreases folders.len(),
{
    let updated = folders.update(i, (folders[i].0, folders[i].1.push(card)));
    if i == folders.len() - 1 {
        assert(updated.drop_last() =~= folders.drop_last());
    } else {
        lemma_count_add_card(folders.drop_last(), i, card);
        assert(updated.drop_last() =~= folders.drop_last().update(
            i,
            (folders[i].0, folders[i].1.push(card)),
        ));
    }
}

proof fn lemma_add_row_count(set: SetModel, row: BackupRow)
    ensures
        folders_card_count(add_row_to_set(set, row).1) == folders_card_count(set.1) + if row_adds_card(
            row,
        ) {
            1nat
        } else {
            0nat
        },
{
    match (row.folder_id, row.folder_name) {
        (Some(folder_id), Some(folder_name)) => {
            if folder_id != 0 {
                let pos = folder_position(set.1, folder_id);
                if pos >= 0 {
                    lemma_first_folder_exists(set.1, folder_id);
                    assert(is_first_folder(set.1, folder_id, pos));
                    if let Some(card) = row_card(row) {
                        lemma_count_add_card(set.1, pos, card);
                    }
                } else {
                    let nf = new_folder(folder_id, folder_name);
                    let folders = set.1.push(nf);
                    lemma_count_push_folder(set.1, nf);
                    if let Some(card) = row_card(row) {
                        lemma_count_add_card(folders, set.1.len() as int, card);
                    }
                }
            }
        },
        _ => {},
    }
}

proof fn lemma_fold_count(rows: Seq<BackupRow>)
    ensures
        sets_card_count(backup_fold(rows).0) + open_card_count(backup_fold(rows)) == card_row_count(
            rows,
        ),
    decreases rows.len(),
{
    if rows.len() > 0 {
        let prev = backup_fold(rows.drop_last());
        let row = rows.last();
        lemma_fold_count(rows.drop_last());
        match prev.1 {
            Some(set) => {
                if set.0.id == Some(row.studyset_id) {
                    lemma_add_row_count(set, row);
                } else {
                    assert(prev.0.push(set).drop_last() =~= prev.0);
                    lemma_add_row_count(new_set(row), row);
                }
            },
            None => {
                lemma_add_row_count(new_set(row), row);
            },
        }
    }
}

/// A backup holds one card for each row that carries one: no card of the
/// rows is lost or counted twice.
pub proof fn lemma_backup_keeps_every_card(rows: Seq<BackupRow>)
    ensures
        sets_card_count(backup_sets(rows)) == card_row_count(rows),
{
    lemma_fold_count(rows);
    let state = backup_fold(rows);
    if let Some(set) = state.1 {
        assert(state.0.push(set).drop_last() =~= state.0);
    }
}

} // verus!

verus! {

/// No two folders have the same id.
pub open spec fn folder_ids_distinct(folders: Seq<FolderModel>) -> bool {
    forall|i: int, j: int| 0 <= i < j < folders.len() ==> folders[i].0.id != folders[j].0.id
}

/// The rows come in order of study set id, as the backup query sorts them.
pub open spec fn rows_sorted_by_set(rows: Seq<BackupRow>) -> bool {
    forall|i: int, j: int| 0 <= i < j < rows.len() ==> rows[i].studyset_id <= rows[j].studyset_id
}

/// Every study set has an id, and the ids strictly increase.
pub open spec fn set_ids_increasing(sets: Seq<SetModel>) -> bool {
    &&& forall|i: int| 0 <= i < sets.len() ==> (#[trigger] sets[i]).0.id is Some
    &&& forall|i: int, j: int| 0 <= i < j < sets.len() ==> sets[i].0.id->0 < sets[j].0.id->0
}

proof fn lemma_position_absent(folders: Seq<FolderModel>, id: i32)
    ensures
        folder_position(folders, id) < 0 ==> !has_folder(folders, id),
        folder_position(folders, id) >= 0 ==> is_first_folder(folders, id, folder_position(folders, id)),
{
    if has_folder(folders, id) {
        lemma_first_folder_exists(folders, id);
    }
}

proof fn lemma_add_row_distinct(set: SetModel, row: BackupRow)
    requires
        folder_ids_distinct(set.1),
    ensures
        folder_ids_distinct(add_row_to_set(set, row).1),
        add_row_to_set(set, row).0 == set.0,
{
    match (row.folder_id, row.folder_name) {
        (Some(folder_id), Some(folder_name)) => {
            if folder_id != 0 {
                let pos = folder_position(set.1, folder_id);
                lemma_position_absent(set.1, folder_id);
                let folders = if pos >= 0 {
                    set.1
                } else {
                    set.1.push(new_folder(folder_id, folder_name))
                };
                if pos < 0 {
                    assert forall|i: int, j: int| 0 <= i < j < folders.len() implies folders[i].0.id
                        != folders[j].0.id by {
                        if j == set.1.len() {
                            assert(folders[i] == set.1[i]);
                        } else {
                            assert(folders[i] == set.1[i] && folders[j] == set.1[j]);
                        }
                    }
                }
                let idx = if pos >= 0 {
                    pos
                } else {
                    set.1.len() as int
                };
                if let Some(card) = row_card(row) {
                    let updated = folders.update(idx, (folders[idx].0, folders[idx].1.push(card)));
                    assert forall|i: int, j: int| 0 <= i < j < updated.len() implies updated[i].0.id
                        != updated[j].0.id by {
                        assert(updated[i].0 == folders[i].0);
                        assert(updated[j].0 == folders[j].0);
                    }
                }
            }
        },
        _ => {},
    }
}

proof fn lemma_fold_shape(rows: Seq<BackupRow>)
    ensures
        forall|i: int| 0 <= i < backup_fold(rows).0.len() ==> folder_ids_distinct(
            #[trigger] backup_fold(rows).0[i].1,
        ),
        backup_fold(rows).1 matches Some(s) ==> folder_ids_distinct(s.1),
        rows.len() > 0 ==> (backup_fold(rows).1 matches Some(s) && s.0.id == Some(
            rows.last().studyset_id,
        )),
        rows.len() == 0 ==> backup_fold(rows).1 is None && backup_fold(rows).0.len() == 0,
        rows_sorted_by_set(rows) ==> {
            &&& set_ids_increasing(backup_fold(rows).0)
            &&& forall|i: int| 0 <= i < backup_fold(rows).0.len() ==> (#[trigger] backup_fold(
                rows,
            ).0[i]).0.id->0 < rows.last().studyset_id
        },
    decreases rows.len(),
{
    if rows.len() > 0 {
        let init = rows.drop_last();
        let row = rows.last();
        lemma_fold_shape(init);
        let prev = backup_fold(init);
        assert(rows_sorted_by_set(rows) ==> rows_sorted_by_set(init)) by {
            if rows_sorted_by_set(rows) {
                assert forall|i: int, j: int| 0 <= i < j < init.len() implies init[i].studyset_id
                    <= init[j].studyset_id by {
                    assert(init[i] == rows[i] && init[j] == rows[j]);
                }
            }
        }
        assert(folder_ids_distinct(new_set(row).1));
        match prev.1 {
            Some(set) => {
                if set.0.id == Some(row.studyset_id) {
                    lemma_add_row_distinct(set, row);
                } else {
                    lemma_add_row_distinct(new_set(row), row);
                    let done = prev.0.push(set);
                    assert forall|i: int| 0 <= i < done.len() implies folder_ids_distinct(
                        #[trigger] done[i].1,
                    ) by {
                        if i < prev.0.len() {
                            assert(done[i] == prev.0[i]);
                        }
                    }
                    if rows_sorted_by_set(rows) {
                        assert(init.last() == rows[rows.len() - 2]);
                        assert(rows[rows.len() - 2].studyset_id <= row.studyset_id);
                        assert forall|i: int| 0 <= i < done.len() implies (#[trigger] done[i]).0.id
                            is Some by {
                            if i < prev.0.len() {
                                assert(done[i] == prev.0[i]);
                            }
                        }
                        assert forall|i: int, j: int| 0 <= i < j < done.len() implies done[i].0.id->0
                            < done[j].0.id->0 by {
                            assert(done[i] == prev.0[i]);
                            if j < prev.0.len() {
                                assert(done[j] == prev.0[j]);
                            }
                        }
                        assert forall|i: int| 0 <= i < done.len() implies (#[trigger] done[i]).0.id->0
                            < row.studyset_id by {
                            if i < prev.0.len() {
                                assert(done[i] == prev.0[i]);
                            }
                        }
                    }
                }
            },
            None => {
                lemma_add_row_distinct(new_set(row), row);
            },
        }
    }
}

/// The shape of a backup: no folder appears twice in a study set, and for
/// rows in order of study set id, as the backup query gives them, there is
/// one study set per id, in increasing order of id.
pub proof fn lemma_backup_shape(rows: Seq<BackupRow>)
    ensures
        forall|i: int| 0 <= i < backup_sets(rows).len() ==> folder_ids_distinct(
            #[trigger] backup_sets(rows)[i].1,
        ),
        rows_sorted_by_set(rows) ==> set_ids_increasing(backup_sets(rows)),
{
    lemma_fold_shape(rows);
    let state = backup_fold(rows);
    if let Some(set) = state.1 {
        let all = state.0.push(set);
        assert forall|i: int| 0 <= i < all.len() implies folder_ids_distinct(#[trigger] all[i].1) by {
            if i < state.0.len() {
                assert(all[i] == state.0[i]);
            }
        }
        if rows_sorted_by_set(rows) {
            assert forall|i: int| 0 <= i < all.len() implies (#[trigger] all[i]).0.id is Some by {
                if i < state.0.len() {
                    assert(all[i] == state.0[i]);
                }
            }
            assert forall|i: int, j: int| 0 <= i < j < all.len() implies all[i].0.id->0 < all[j].0.id->0 by {
                assert(all[i] == state.0[i]);
                if j < state.0.len() {
                    assert(all[j] == state.0[j]);
                }
            }
        }
    }
}

} // verus!

verus! {

/// The id of a card of a backup (every such card has one).
pub open spec fn card_id(card: Flashcard) -> i32 {
    match card.id {
        Some(id) => id,
        None => 0,
    }
}

/// In every folder, the cards come in order of id.
pub open spec fn cards_in_id_order(folders: Seq<FolderModel>) -> bool {
    forall|f: int, a: int, b: int|
        #![trigger folders[f].1[a], folders[f].1[b]]
        0 <= f < folders.len() && 0 <= a < b < folders[f].1.len() ==> card_id(folders[f].1[a])
            <= card_id(folders[f].1[b])
}

/// The rows of one study set and folder come in order of card id, as the
/// backup query sorts them.
pub open spec fn rows_sorted_by_card(rows: Seq<BackupRow>) -> bool {
    forall|i: int, j: int|
        0 <= i < j < rows.len() && rows[i].studyset_id == rows[j].studyset_id && rows[i].folder_id
            == rows[j].folder_id && rows[i].flashcard_id is Some && rows[j].flashcard_id is Some
            ==> rows[i].flashcard_id->0 <= rows[j].flashcard_id->0
}

/// The card comes from a row of the study set and folder.
pub open spec fn card_from_rows(card: Flashcard, set_id: Option<i32>, folder_id: Option<i32>, rows: Seq<BackupRow>) -> bool {
    exists|i: int|
        0 <= i < rows.len() && Some(rows[i].studyset_id) == set_id && rows[i].folder_id == folder_id
            && rows[i].flashcard_id is Some && card.id == rows[i].flashcard_id
}

/// The cards of the set are in order of id, and each comes from a row of
/// the set and of its folder.
pub open spec fn set_cards_traced(set: SetModel, rows: Seq<BackupRow>) -> bool {
    &&& cards_in_id_order(set.1)
    &&& forall|f: int, a: int|
        0 <= f < set.1.len() && 0 <= a < set.1[f].1.len() ==> card_from_rows(
            #[trigger] set.1[f].1[a],
            set.0.id,
            set.1[f].0.id,
            rows,
        )
}

proof fn lemma_traced_more_rows(set: SetModel, rows: Seq<BackupRow>)
    requires
        rows.len() > 0,
        set_cards_traced(set, rows.drop_last()),
    ensures
        set_cards_traced(set, rows),
{
    let init = rows.drop_last();
    assert forall|f: int, a: int| 0 <= f < set.1.len() && 0 <= a < set.1[f].1.len() implies card_from_rows(
        #[trigger] set.1[f].1[a],
        set.0.id,
        set.1[f].0.id,
        rows,
    ) by {
        let c = set.1[f].1[a];
        assert(card_from_rows(c, set.0.id, set.1[f].0.id, init));
        let i = choose|i: int|
            0 <= i < init.len() && Some(init[i].studyset_id) == set.0.id && init[i].folder_id
                == set.1[f].0.id && init[i].flashcard_id is Some && c.id == init[i].flashcard_id;
        assert(init[i] == rows[i]);
    }
}

proof fn lemma_add_card_traced(folders: Seq<FolderModel>, set0: StudySet, idx: int, row: BackupRow, card: Flashcard, rows: Seq<BackupRow>)
    requires
        rows.len() > 0,
        rows.last() == row,
        rows_sorted_by_card(rows),
        set0.id == Some(row.studyset_id),
        0 <= idx < folders.len(),
        folders[idx].0.id == row.folder_id,
        row_card(row) == Some(card),
        set_cards_traced((set0, folders), rows.drop_last()),
    ensures
        set_cards_traced((set0, folders.update(idx, (folders[idx].0, folders[idx].1.push(card)))), rows),
{
    let init = rows.drop_last();
    let n = rows.len() - 1;
    let updated = folders.update(idx, (folders[idx].0, folders[idx].1.push(card)));
    lemma_traced_more_rows((set0, folders), rows);
    assert(row.flashcard_id is Some);
    assert(card.id == row.flashcard_id);
    assert(card_from_rows(card, set0.id, folders[idx].0.id, rows)) by {
        assert(rows[n] == row);
    }
    assert forall|f: int, a: int| 0 <= f < updated.len() && 0 <= a < updated[f].1.len() implies card_from_rows(
        #[trigger] updated[f].1[a],
        set0.id,
        updated[f].0.id,
        rows,
    ) by {
        if f == idx && a == folders[idx].1.len() {
            assert(updated[f].1[a] == card);
        } else {
            assert(updated[f].1[a] == folders[f].1[a]);
        }
    }
    assert forall|f: int, a: int, b: int|
        #![trigger updated[f].1[a], updated[f].1[b]]
        0 <= f < updated.len() && 0 <= a < b < updated[f].1.len() implies card_id(updated[f].1[a])
            <= card_id(updated[f].1[b]) by {
        if f == idx && b == folders[idx].1.len() {
            let c = folders[idx].1[a];
            assert(updated[f].1[a] == c);
            assert(updated[f].1[b] == card);
            assert(card_from_rows(c, set0.id, folders[idx].0.id, init));
            let i = choose|i: int|
                0 <= i < init.len() && Some(init[i].studyset_id) == set0.id && init[i].folder_id
                    == folders[idx].0.id && init[i].flashcard_id is Some && c.id == init[i].flashcard_id;
            assert(init[i] == rows[i]);
            assert(rows[i].flashcard_id->0 <= rows[n].flashcard_id->0);
        } else {
            assert(updated[f].1[a] == folders[f].1[a]);
            assert(updated[f].1[b] == folders[f].1[b]);
        }
    }
}

proof fn lemma_add_row_traced(set: SetModel, row: BackupRow, rows: Seq<BackupRow>)
    requires
        rows.len() > 0,
        rows.last() == row,
        rows_sorted_by_card(rows),
        set.0.id == Some(row.studyset_id),
        set_cards_traced(set, rows.drop_last()),
    ensures
        set_cards_traced(add_row_to_set(set, row), rows),
{
    lemma_traced_more_rows(set, rows);
    match (row.folder_id, row.folder_name) {
        (Some(folder_id), Some(folder_name)) => {
            if folder_id != 0 {
                let pos = folder_position(set.1, folder_id);
                lemma_position_absent(set.1, folder_id);
                if pos >= 0 {
                    if let Some(card) = row_card(row) {
                        lemma_add_card_traced(set.1, set.0, pos, row, card, rows);
                    }
                } else {
                    let folders = set.1.push(new_folder(folder_id, folder_name));
                    assert(set_cards_traced((set.0, folders), rows.drop_last())) by {
                        assert forall|f: int, a: int|
                            0 <= f < folders.len() && 0 <= a < folders[f].1.len() implies card_from_rows(
                            #[trigger] folders[f].1[a],
                            set.0.id,
                            folders[f].0.id,
                            rows.drop_last(),
                        ) by {
                            assert(folders[f] == set.1[f]);
                        }
                        assert forall|f: int, a: int, b: int|
                            #![trigger folders[f].1[a], folders[f].1[b]]
                            0 <= f < folders.len() && 0 <= a < b < folders[f].1.len() implies card_id(
                            folders[f].1[a],
                        ) <= card_id(folders[f].1[b]) by {
                            assert(folders[f] == set.1[f]);
                        }
                    }
                    if let Some(card) = row_card(row) {
                        lemma_add_card_traced(folders, set.0, set.1.len() as int, row, card, rows);
                    } else {
                        lemma_traced_more_rows((set.0, folders), rows);
                    }
                }
            }
        },
        _ => {},
    }
}

proof fn lemma_fold_order(rows: Seq<BackupRow>)
    requires
        rows_sorted_by_card(rows),
    ensures
        forall|i: int| 0 <= i < backup_fold(rows).0.len() ==> cards_in_id_order(
            #[trigger] backup_fold(rows).0[i].1,
        ),
        backup_fold(rows).1 matches Some(s) ==> set_cards_traced(s, rows),
        rows.len() > 0 ==> (backup_fold(rows).1 matches Some(s) && s.0.id == Some(
            rows.last().studyset_id,
        )),
    decreases rows.len(),
{
    if rows.len() > 0 {
        let init = rows.drop_last();
        let row = rows.last();
        assert(rows_sorted_by_card(init)) by {
            assert forall|i: int, j: int|
                0 <= i < j < init.len() && init[i].studyset_id == init[j].studyset_id
                    && init[i].folder_id == init[j].folder_id && init[i].flashcard_id is Some
                    && init[j].flashcard_id is Some implies init[i].flashcard_id->0
                <= init[j].flashcard_id->0 by {
                assert(init[i] == rows[i] && init[j] == rows[j]);
            }
        }
        lemma_fold_order(init);
        let prev = backup_fold(init);
        let fresh = new_set(row);
        assert(set_cards_traced(fresh, init));
        match prev.1 {
            Some(set) => {
                if set.0.id == Some(row.studyset_id) {
                    lemma_add_row_traced(set, row, rows);
                } else {
                    lemma_add_row_traced(fresh, row, rows);
                    let done = prev.0.push(set);
                    assert forall|i: int| 0 <= i < done.len() implies cards_in_id_order(
                        #[trigger] done[i].1,
                    ) by {
                        if i < prev.0.len() {
                            assert(done[i] == prev.0[i]);
                        }
                    }
                }
            },
            None => {
                lemma_add_row_traced(fresh, row, rows);
            },
        }
    }
}

/// In a backup of rows that come in order of card id within each study set
/// and folder, as the backup query gives them, the cards of every folder
/// come in order of id.
pub proof fn lemma_backup_cards_in_order(rows: Seq<BackupRow>)
    requires
        rows_sorted_by_card(rows),
    ensures
        forall|i: int| 0 <= i < backup_sets(rows).len() ==> cards_in_id_order(
            #[trigger] backup_sets(rows)[i].1,
        ),
{
    lemma_fold_order(rows);
    let state = backup_fold(rows);
    if let Some(set) = state.1 {
        let all = state.0.push(set);
        assert forall|i: int| 0 <= i < all.len() implies cards_in_id_order(#[trigger] all[i].1) by {
            if i < state.0.len() {
                assert(all[i] == state.0[i]);
            }
        }
    }
}

} // verus!

verus! {

/// The card is the card of one of the rows with only its id replaced by the
/// row's card id: its sides, status and review data are the row's card's.
pub open spec fn card_of_some_row(card: Flashcard, rows: Seq<BackupRow>) -> bool {
    exists|i: int|
        #![trigger rows[i]]
        0 <= i < rows.len() && rows[i].flashcard is Some && rows[i].flashcard_id is Some && card.id
            == rows[i].flashcard_id && card.front == rows[i].flashcard->0.front && card.back
            == rows[i].flashcard->0.back && card.status == rows[i].flashcard->0.status
            && card.fsrs_state == rows[i].flashcard->0.fsrs_state && card.due_date
            == rows[i].flashcard->0.due_date && card.last_reviewed == rows[i].flashcard->0.last_reviewed
}

/// Every card of the folders is a card of one of the rows.
pub open spec fn folders_cards_of_rows(folders: Seq<FolderModel>, rows: Seq<BackupRow>) -> bool {
    forall|f: int, a: int|
        0 <= f < folders.len() && 0 <= a < folders[f].1.len() ==> card_of_some_row(
            #[trigger] folders[f].1[a],
            rows,
        )
}

proof fn lemma_cards_of_more_rows(folders: Seq<FolderModel>, rows: Seq<BackupRow>)
    requires
        rows.len() > 0,
        folders_cards_of_rows(folders, rows.drop_last()),
    ensures
        folders_cards_of_rows(folders, rows),
{
    let init = rows.drop_last();
    assert forall|f: int, a: int| 0 <= f < folders.len() && 0 <= a < folders[f].1.len() implies card_of_some_row(
        #[trigger] folders[f].1[a],
        rows,
    ) by {
        let c = folders[f].1[a];
        assert(card_of_some_row(c, init));
        let i = choose|i: int|
            #![trigger init[i]]
            0 <= i < init.len() && init[i].flashcard is Some && init[i].flashcard_id is Some && c.id
                == init[i].flashcard_id && c.front == init[i].flashcard->0.front && c.back
                == init[i].flashcard->0.back && c.status == init[i].flashcard->0.status
                && c.fsrs_state == init[i].flashcard->0.fsrs_state && c.due_date
                == init[i].flashcard->0.due_date && c.last_reviewed
                == init[i].flashcard->0.last_reviewed;
        assert(init[i] == rows[i]);
    }
}

proof fn lemma_add_row_cards_of_rows(set: SetModel, row: BackupRow, rows: Seq<BackupRow>)
    requires
        rows.len() > 0,
        rows.last() == row,
        folders_cards_of_rows(set.1, rows.drop_last()),
    ensures
        folders_cards_of_rows(add_row_to_set(set, row).1, rows),
{
    lemma_cards_of_more_rows(set.1, rows);
    let n = rows.len() - 1;
    match (row.folder_id, row.folder_name) {
        (Some(folder_id), Some(folder_name)) => {
            if folder_id != 0 {
                let pos = folder_position(set.1, folder_id);
                lemma_position_absent(set.1, folder_id);
                let folders = if pos >= 0 {
                    set.1
                } else {
                    set.1.push(new_folder(folder_id, folder_name))
                };
                assert(folders_cards_of_rows(folders, rows)) by {
                    assert forall|f: int, a: int|
                        0 <= f < folders.len() && 0 <= a < folders[f].1.len() implies card_of_some_row(
                        #[trigger] folders[f].1[a],
                        rows,
                    ) by {
                        assert(folders[f] == set.1[f]);
                    }
                }
                let idx = if pos >= 0 {
                    pos
                } else {
                    set.1.len() as int
                };
                if let Some(card) = row_card(row) {
                    assert(card_of_some_row(card, rows)) by {
                        assert(rows[n] == row);
                    }
                    let updated = folders.update(idx, (folders[idx].0, folders[idx].1.push(card)));
                    if 0 <= idx < folders.len() {
                        assert forall|f: int, a: int|
                            0 <= f < updated.len() && 0 <= a < updated[f].1.len() implies card_of_some_row(
                            #[trigger] updated[f].1[a],
                            rows,
                        ) by {
                            if f == idx && a == folders[idx].1.len() {
                                assert(updated[f].1[a] == card);
                            } else {
                                assert(updated[f].1[a] == folders[f].1[a]);
                            }
                        }
                    }
                }
            }
        },
        _ => {},
    }
}

proof fn lemma_fold_cards_of_rows(rows: Seq<BackupRow>)
    ensures
        forall|i: int| 0 <= i < backup_fold(rows).0.len() ==> folders_cards_of_rows(
            #[trigger] backup_fold(rows).0[i].1,
            rows,
        ),
        backup_fold(rows).1 matches Some(s) ==> folders_cards_of_rows(s.1, rows),
    decreases rows.len(),
{
    if rows.len() > 0 {
        let init = rows.drop_last();
        let row = rows.last();
        lemma_fold_cards_of_rows(init);
        let prev = backup_fold(init);
        assert forall|i: int| 0 <= i < prev.0.len() implies folders_cards_of_rows(
            #[trigger] prev.0[i].1,
            rows,
        ) by {
            lemma_cards_of_more_rows(prev.0[i].1, rows);
        }
        let fresh = new_set(row);
        assert(folders_cards_of_rows(fresh.1, init));
        match prev.1 {
            Some(set) => {
                if set.0.id == Some(row.studyset_id) {
                    lemma_add_row_cards_of_rows(set, row, rows);
                } else {
                    lemma_add_row_cards_of_rows(fresh, row, rows);
                    lemma_cards_of_more_rows(set.1, rows);
                    let done = prev.0.push(set);
                    assert forall|i: int| 0 <= i < done.len() implies folders_cards_of_rows(
                        #[trigger] done[i].1,
                        rows,
                    ) by {
                        if i < prev.0.len() {
                            assert(done[i] == prev.0[i]);
                        }
                    }
                }
            },
            None => {
                lemma_add_row_cards_of_rows(fresh, row, rows);
            },
        }
    }
}

/// A backup keeps each card as its row read it: every card of the backup is
/// the card of one of the rows, with only its id replaced by the row's card
/// id, so its sides, its status and its review data (memory state, due date,
/// last review) are those of the row's card.
pub proof fn lemma_backup_cards_are_row_cards(rows: Seq<BackupRow>)
    ensures
        forall|s: int| 0 <= s < backup_sets(rows).len() ==> folders_cards_of_rows(
            #[trigger] backup_sets(rows)[s].1,
            rows,
        ),
{
    lemma_fold_cards_of_rows(rows);
    let state = backup_fold(rows);
    if let Some(set) = state.1 {
        let all = state.0.push(set);
        assert forall|i: int| 0 <= i < all.len() implies folders_cards_of_rows(#[trigger] all[i].1, rows) by {
            if i < state.0.len() {
                assert(all[i] == state.0[i]);
            }
        }
    }
}

} // verus!
