use oboete::app::common::database::{database_dir, database_file, old_database_file};
use oboete::app::common::models::flashcard::Flashcard;
use oboete::app::common::utils::archive_manager::{group_backup_rows, BackupRow};
use oboete::app::common::utils::images::{check_path_in, images_dir, join_path, new_image_file_name};
use oboete::oboete::models::studyset::{StudySet, StudySetDataRow};

fn row(
    set: i32,
    set_name: &str,
    folder: Option<(i32, &str)>,
    card: Option<(i32, &str)>,
) -> BackupRow {
    BackupRow {
        studyset_id: set,
        studyset_name: set_name.to_string(),
        folder_id: folder.map(|f| f.0),
        folder_name: folder.map(|f| f.1.to_string()),
        flashcard_id: card.map(|c| c.0),
        flashcard: card.map(|c| Flashcard::from_texts(c.1.to_string(), String::from("back"))),
    }
}

#[test]
fn backup_rows_group_into_sets_folders_and_cards() {
    let rows = vec![
        row(1, "German", Some((10, "Verbs")), Some((100, "gehen"))),
        row(1, "German", Some((10, "Verbs")), Some((101, "sehen"))),
        row(1, "German", Some((11, "Nouns")), None),
        row(2, "Latin", None, None),
        row(3, "Greek", Some((0, "")), Some((5, "ghost"))),
        row(3, "Greek", Some((30, "Words")), Some((0, "not a card"))),
    ];
    let data = group_backup_rows(&rows);
    let sets = &data.study_sets;
    assert_eq!(sets.len(), 3);
    assert_eq!(sets[0].study_set.id, Some(1));
    assert_eq!(sets[0].study_set.name, "German");
    assert_eq!(sets[0].folders.len(), 2);
    assert_eq!(sets[0].folders[0].folder.id, Some(10));
    assert_eq!(sets[0].folders[0].folder.name, "Verbs");
    let cards = &sets[0].folders[0].flashcards;
    assert_eq!(cards.len(), 2);
    assert_eq!(cards[0].id, Some(100));
    assert_eq!(cards[1].front.text(), "sehen");
    assert!(sets[0].folders[1].flashcards.is_empty());
    assert_eq!(sets[1].study_set.name, "Latin");
    assert!(sets[1].folders.is_empty());
    assert_eq!(sets[2].folders.len(), 1);
    assert_eq!(sets[2].folders[0].folder.id, Some(30));
    assert!(sets[2].folders[0].flashcards.is_empty());
    // Two rows carry a card; the backup holds exactly those two.
    let total: usize = sets.iter().flat_map(|s| s.folders.iter()).map(|f| f.flashcards.len()).sum();
    assert_eq!(total, 2);
}

#[test]
fn no_rows_no_backup() {
    assert!(group_backup_rows(&Vec::new()).study_sets.is_empty());
}

fn data_row(set: i32, folder: Option<(i32, &str)>, card: Option<i32>) -> StudySetDataRow {
    StudySetDataRow {
        studyset_id: set,
        studyset_name: format!("set {set}"),
        folder_id: folder.map(|f| f.0),
        folder_name: folder.map(|f| f.1.to_string()),
        flashcard_id: card,
        front: card.map(|c| format!("front {c}")),
        back: card.map(|c| format!("back {c}")),
        status: card.map(|_| 0),
    }
}

#[test]
fn all_data_rows_group_by_set_and_folder() {
    let rows = vec![
        data_row(1, Some((3, "A")), Some(7)),
        data_row(1, Some((3, "A")), Some(8)),
        data_row(1, Some((4, "B")), None),
        data_row(2, None, None),
    ];
    let sets = StudySet::group_data_rows(&rows);
    assert_eq!(sets.len(), 2);
    assert_eq!(sets[0].name, "set 1");
    assert_eq!(sets[0].folders.len(), 2);
    assert_eq!(sets[0].folders[0].flashcards.len(), 2);
    assert_eq!(sets[0].folders[0].flashcards[1].front, "front 8");
    assert!(!sets[0].folders[0].rtl_fix);
    assert!(sets[0].folders[1].flashcards.is_empty());
    assert_eq!(sets[1].id, Some(2));
    assert!(sets[1].folders.is_empty());
}

#[test]
fn joined_paths() {
    assert_eq!(join_path("/home/u/.local/share", "x"), "/home/u/.local/share/x");
    assert_eq!(join_path("/data/", "x"), "/data/x");
    assert_eq!(join_path("", "x"), "x");
    assert_eq!(images_dir("/data"), "/data/dev.mariinkys.Oboete/images");
    assert_eq!(database_dir("/data"), "/data/dev.mariinkys.Oboete/database");
    assert_eq!(database_file("/data"), "/data/dev.mariinkys.Oboete/database/oboete_v2.db");
    assert_eq!(old_database_file("/data"), "/data/dev.mariinkys.Oboete/database/oboete.db");
}

#[test]
fn saved_image_paths() {
    let dir = Some(String::from("/data"));
    assert!(check_path_in(&String::from("/data/dev.mariinkys.Oboete/images/a.png"), &dir));
    assert!(!check_path_in(&String::from("/data/dev.mariinkys.Oboete/imagesx/a.png"), &dir));
    assert!(!check_path_in(&String::from("/home/u/a.png"), &dir));
    assert!(!check_path_in(&String::from("/data/dev.mariinkys.Oboete/images/a.png"), &None));
}

#[test]
fn new_image_names_keep_the_extension() {
    let name = new_image_file_name("/home/u/cat.jpeg").unwrap();
    assert_eq!(name.len(), 36 + ".jpeg".len());
    assert!(name.ends_with(".jpeg"));
    let other = new_image_file_name("/home/u/cat.jpeg").unwrap();
    assert_ne!(name, other);
    assert!(new_image_file_name("/home/u/noext").is_none());
}
