use oboete::models::Flashcard;
use oboete::oboete::utils as v2;
use oboete::utils::{
    export_flashcards_anki_text, export_flashcards_text, parse_anki_content, parse_import_content,
    select_random_flashcard, weighted_indices, OboeteError,
};

fn card(id: i32, front: &str, status: i32) -> Flashcard {
    Flashcard { id: Some(id), front: front.to_string(), back: format!("{front}!"), status }
}

#[test]
fn weights_by_status() {
    assert_eq!(weighted_indices(&vec![1, 2, 3, 0]), vec![0, 0, 0, 0, 1, 1, 1, 2, 3, 3]);
    assert!(weighted_indices(&Vec::new()).is_empty());
}

#[test]
fn random_card_comes_from_the_list() {
    let cards = vec![card(1, "a", 1), card(2, "b", 3)];
    for _ in 0..20 {
        let c = select_random_flashcard(&cards).unwrap();
        assert!(c.id == Some(1) || c.id == Some(2));
        let d = v2::select_random_flashcard(&cards).unwrap();
        assert!(d.id == Some(1) || d.id == Some(2));
    }
    assert!(select_random_flashcard(&Vec::new()).is_none());
}

#[test]
fn error_card() {
    let e = Flashcard::new_error_variant();
    assert_eq!(e.front, "Error");
    assert_eq!(e.back, "Error");
    assert_eq!(e.status, 0);
    assert_eq!(OboeteError::new(String::from("boom")).message, "boom");
}

#[test]
fn plain_import_and_export() {
    let cards = parse_import_content(&String::from("\n"), &String::from(":"), &String::from("a:b\nc:d"));
    assert_eq!(cards.len(), 2);
    assert_eq!(cards[1].front, "c");
    assert_eq!(cards[1].status, 0);
    assert_eq!(export_flashcards_text(&cards), "a\\#*#\\b\n/#\nc\\#*#\\d\n/#\n");
    let again = v2::parse_import_content(&String::from("\n"), &String::from(":"), "a:b");
    assert_eq!(again[0].back, "b");
}

#[test]
fn plain_anki_export_has_no_empty_line() {
    let cards = vec![card(1, "x", 0)];
    assert_eq!(export_flashcards_anki_text(&cards), "#separator:tab\n#html:false\nx\tx!\n");
    assert_eq!(v2::export_flashcards_anki_text(&cards), "#separator:tab\n#html:false\n\nx\tx!\n");
    assert_eq!(v2::export_flashcards_text(&cards), "x\\#*#\\x!\n/#\n");
}

#[test]
fn plain_anki_import_skips_three_lines() {
    let cards = parse_anki_content("#separator:tab\n#html:false\n\nuno\tone\n");
    assert_eq!(cards.len(), 1);
    assert_eq!(cards[0].front, "uno");
    assert_eq!(cards[0].back, "one");
}

#[test]
fn tickets_stand_for_their_cards() {
    let cards = vec![card(1, "a", 1), card(2, "b", 3)];
    assert_eq!(oboete::utils::card_of_ticket(&cards, 1).unwrap().id, Some(2));
    assert_eq!(oboete::utils::card_of_ticket(&cards, 0).unwrap().front, "a");
    assert!(oboete::utils::card_of_ticket(&cards, 2).is_none());
}

#[test]
fn folder_page_add_edit_buttons() {
    use_add_edit_buttons();
}

fn use_add_edit_buttons() {
    let mut page = oboete::oboete::pages::folder_content::FolderContent::init();
    let (label, msg) = page.add_edit_submit();
    assert_eq!(label, oboete::oboete::pages::folder_content::CardSubmitLabel::Create);
    assert!(msg.is_none());
    assert!(page.reset_status_message().is_none());
    page.add_edit_flashcard.front = String::from("q");
    page.add_edit_flashcard.back = String::from("a");
    assert!(matches!(page.add_edit_submit().1, Some(oboete::oboete::pages::folder_content::Message::AddFlashcard)));
    page.add_edit_flashcard.id = Some(4);
    assert_eq!(page.add_edit_submit().0, oboete::oboete::pages::folder_content::CardSubmitLabel::Edit);
    assert!(matches!(page.add_edit_submit().1, Some(oboete::oboete::pages::folder_content::Message::EditFlashcard)));
    assert!(matches!(
        page.reset_status_message(),
        Some(oboete::oboete::pages::folder_content::Message::RestartSingleFlashcardStatus(4))
    ));
    // Adding a card keeps the form as it is.
    let tasks = page.update(oboete::oboete::pages::folder_content::Message::AddedNewFlashcard);
    assert_eq!(page.add_edit_flashcard.id, Some(4));
    assert_eq!(page.add_edit_flashcard.front, "q");
    assert_eq!(tasks.len(), 1);
}
