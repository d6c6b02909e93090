use oboete::app::common::models::flashcard::{Flashcard, FlashcardField, FlashcardStatus};
use oboete::app::common::models::folder::{Folder, DEFAULT_DESIRED_RETENTION_BITS};
use oboete::app::common::models::studyset::StudySet;
use oboete::app::common::utils::toast::OboeteToast;
use oboete::config::{AppTheme, OboeteConfig};

#[test]
fn status_ids_round_trip() {
    let all = [
        FlashcardStatus::Unrated,
        FlashcardStatus::Bad,
        FlashcardStatus::Okay,
        FlashcardStatus::Great,
        FlashcardStatus::Easy,
    ];
    for (i, status) in all.iter().enumerate() {
        let id = status.to_id();
        assert_eq!(id, i as i32 + 1);
        assert_eq!(FlashcardStatus::from_id(id), Some(*status));
    }
}

#[test]
fn unknown_status_ids() {
    assert_eq!(FlashcardStatus::from_id(0), None);
    assert_eq!(FlashcardStatus::from_id(6), None);
    assert_eq!(FlashcardStatus::from_id(-1), None);
    assert_eq!(FlashcardStatus::from_id_or_default(42), FlashcardStatus::Unrated);
    assert_eq!(FlashcardStatus::from_id_or_default(4), FlashcardStatus::Great);
}

#[test]
fn status_label_keys() {
    assert_eq!(FlashcardStatus::Unrated.label_key(), "none-status");
    assert_eq!(FlashcardStatus::Bad.label_key(), "bad-status");
    assert_eq!(FlashcardStatus::Okay.label_key(), "ok-status");
    assert_eq!(FlashcardStatus::Great.label_key(), "good-status");
    assert_eq!(FlashcardStatus::Easy.label_key(), "easy-status");
}

#[test]
fn field_validity() {
    assert!(!FlashcardField::empty_text().is_valid());
    assert!(FlashcardField::Text(String::from("hola")).is_valid());
    assert!(!FlashcardField::empty_image().is_valid());
    let image = FlashcardField::Image { path: String::from("/tmp/a.png"), alt_text: String::from("a") };
    assert!(image.is_valid());
    let no_alt = FlashcardField::Image { path: String::from("/tmp/a.png"), alt_text: String::new() };
    assert!(!no_alt.is_valid());
    let no_path = FlashcardField::Image { path: String::new(), alt_text: String::from("alt") };
    assert!(!no_path.is_valid());
}

#[test]
fn field_text_and_kind() {
    let text = FlashcardField::Text(String::from("front"));
    assert_eq!(text.text(), "front");
    assert_eq!(text.kind_label(), "Text");
    let image = FlashcardField::Image { path: String::from("p.png"), alt_text: String::from("a cat") };
    assert_eq!(image.text(), "a cat");
    assert_eq!(image.kind_label(), "Image");
}

#[test]
fn default_flashcard_is_blank() {
    let card = Flashcard::default();
    assert_eq!(card.id, None);
    assert_eq!(card.status, FlashcardStatus::Unrated);
    assert!(!card.is_valid());
    assert!(card.fsrs_state.is_none());
    assert!(card.due_date.is_none());
    assert!(card.last_reviewed.is_none());
}

#[test]
fn card_from_texts_is_valid() {
    let card = Flashcard::from_texts(String::from("uno"), String::from("one"));
    assert!(card.is_valid());
    assert_eq!(card.front.text(), "uno");
    assert_eq!(card.back.text(), "one");
    let half = Flashcard::from_texts(String::from("uno"), String::new());
    assert!(!half.is_valid());
}

#[test]
fn due_on_a_day() {
    let mut card = Flashcard::from_texts(String::from("a"), String::from("b"));
    // Never reviewed, never scheduled: due.
    assert!(card.is_due_on(100));
    card.due_date = Some(105);
    assert!(!card.is_due_on(104));
    assert!(card.is_due_on(105));
    assert!(card.is_due_on(200));
    // Reviewed once but without a due date: not due.
    card.due_date = None;
    card.fsrs_state = Some(oboete::app::common::models::flashcard::SerializableMemoryState {
        stability_bits: 0,
        difficulty_bits: 0,
    });
    assert!(!card.is_due_on(100));
}

#[test]
fn same_card_by_id() {
    let mut a = Flashcard::from_texts(String::from("a"), String::from("b"));
    let mut b = Flashcard::from_texts(String::from("c"), String::from("d"));
    assert!(a.same_card(&b));
    a.id = Some(3);
    assert!(!a.same_card(&b));
    b.id = Some(3);
    assert!(a.same_card(&b));
    let copy = a.duplicate();
    assert_eq!(copy.id, Some(3));
    assert_eq!(copy.front.text(), "a");
}

#[test]
fn folder_and_studyset_defaults() {
    let folder = Folder::default();
    assert_eq!(folder.id, None);
    assert!(folder.name.is_empty());
    assert_eq!(folder.desired_retention_bits, DEFAULT_DESIRED_RETENTION_BITS);
    assert_eq!(f32::from_bits(DEFAULT_DESIRED_RETENTION_BITS), 0.9f32);
    let set = StudySet::default();
    assert_eq!(set.id, None);
    assert!(set.name.is_empty());
}

#[test]
fn config_defaults_to_system_theme() {
    assert_eq!(AppTheme::default(), AppTheme::System);
    assert_eq!(OboeteConfig::default().app_theme, AppTheme::System);
}

#[test]
fn toast_keeps_its_message() {
    let t = OboeteToast::new(String::from("saved"));
    assert_eq!(t.message, "saved");
}
