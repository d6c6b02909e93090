use oboete::app::common::models::flashcard::{Flashcard, FlashcardField, FlashcardStatus};
use oboete::app::common::utils::flashcards::{
    anki_export_path, decode_selected_path, export_flashcards_anki_text, export_flashcards_text,
    parse_anki_content, parse_import_content,
};

fn texts(cards: &[Flashcard]) -> Vec<(String, String)> {
    cards.iter().map(|c| (c.front.text().clone(), c.back.text().clone())).collect()
}

fn pair(a: &str, b: &str) -> (String, String) {
    (a.to_string(), b.to_string())
}

#[test]
fn custom_import_reads_each_line() {
    let cards = parse_import_content(&String::from("\n"), &String::from("|"), "uno|one\ndos|two");
    assert_eq!(texts(&cards), vec![pair("uno", "one"), pair("dos", "two")]);
    for c in &cards {
        assert_eq!(c.status, FlashcardStatus::Unrated);
        assert_eq!(c.id, None);
        assert!(c.fsrs_state.is_none());
    }
}

#[test]
fn custom_import_skips_lines_without_two_terms() {
    let cards = parse_import_content(&String::from(";"), &String::from("-"), "a-b;lonely;c-d-e;");
    assert_eq!(texts(&cards), vec![pair("a", "b"), pair("c", "d")]);
}

#[test]
fn custom_import_keeps_empty_terms() {
    let cards = parse_import_content(&String::from("\n"), &String::from(","), ",\nx,");
    assert_eq!(texts(&cards), vec![pair("", ""), pair("x", "")]);
}

#[test]
fn custom_import_with_empty_line_delimiter_splits_every_character() {
    // "a|b".split("") gives "", "a", "|", "b", "": only "|" has two terms.
    let cards = parse_import_content(&String::new(), &String::from("|"), "a|b");
    assert_eq!(texts(&cards), vec![pair("", "")]);
}

#[test]
fn custom_import_of_nothing() {
    let cards = parse_import_content(&String::from("\n"), &String::from("|"), "");
    assert!(cards.is_empty());
}

#[test]
fn anki_import_skips_the_header() {
    let content = "#separator:tab\n#html:false\n\nhola\thello\nsolo\nadios\tbye\r\nx\ty\tz\n";
    let cards = parse_anki_content(content);
    assert_eq!(texts(&cards), vec![pair("hola", "hello"), pair("adios", "bye")]);
}

#[test]
fn anki_import_of_a_short_file() {
    assert!(parse_anki_content("a\tb\nc\td\n").is_empty());
    assert!(parse_anki_content("").is_empty());
}

#[test]
fn export_text_format() {
    let cards = vec![
        Flashcard::from_texts(String::from("uno"), String::from("one")),
        Flashcard::from_texts(String::from("dos"), String::from("two")),
    ];
    assert_eq!(export_flashcards_text(&cards), "uno\\#*#\\one\n/#\ndos\\#*#\\two\n/#\n");
    assert_eq!(export_flashcards_text(&[]), "");
}

#[test]
fn export_uses_alt_text_of_images() {
    let mut card = Flashcard::from_texts(String::from("q"), String::from("a"));
    card.back = FlashcardField::Image { path: String::from("/x.png"), alt_text: String::from("picture") };
    assert_eq!(export_flashcards_text(&[card.duplicate()]), "q\\#*#\\picture\n/#\n");
    assert_eq!(export_flashcards_anki_text(&[card]), "#separator:tab\n#html:false\n\nq\tpicture\n");
}

#[test]
fn anki_export_format() {
    let cards = vec![Flashcard::from_texts(String::from("gato"), String::from("cat"))];
    assert_eq!(export_flashcards_anki_text(&cards), "#separator:tab\n#html:false\n\ngato\tcat\n");
    assert_eq!(export_flashcards_anki_text(&[]), "#separator:tab\n#html:false\n\n");
    assert_eq!(anki_export_path("/home/me/deck"), "/home/me/deck.txt");
}

#[test]
fn anki_export_then_import_gives_the_cards_back() {
    let cards = vec![
        Flashcard::from_texts(String::from("gato"), String::from("cat")),
        Flashcard::from_texts(String::from("perro"), String::from("dog")),
        Flashcard::from_texts(String::new(), String::from("empty front")),
    ];
    let text = export_flashcards_anki_text(&cards);
    let back = parse_anki_content(&text);
    assert_eq!(texts(&back), texts(&cards));
}

#[test]
fn selected_paths_are_percent_decoded() {
    assert_eq!(decode_selected_path("/tmp/my%20deck.txt"), "/tmp/my deck.txt");
    assert_eq!(decode_selected_path("/tmp/plain.txt"), "/tmp/plain.txt");
    assert_eq!(decode_selected_path("%E6%97%A5"), "日");
}

#[test]
fn export_then_custom_import_with_the_export_separators() {
    let cards = vec![
        Flashcard::from_texts(String::from("uno"), String::from("one")),
        Flashcard::from_texts(String::from("a / # b"), String::new()),
    ];
    let text = export_flashcards_text(&cards);
    let back = parse_import_content(&String::from("\n/#\n"), &String::from("\\#*#\\"), &text);
    assert_eq!(texts(&back), texts(&cards));
}
