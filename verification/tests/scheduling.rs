use oboete::app::common::models::flashcard::{Flashcard, FlashcardStatus, SerializableMemoryState};
use oboete::app::common::utils::flashcards::{day_from_secs, days_elapsed, update_fsrs_data, NewMemory};
use oboete::app::common::utils::fsrs_scheduler::{
    rating_for_status, NextStates, Rating, ScheduledState,
};
use oboete::app::screen::study::{order_due_cards, sort_by_due, PracticeMode};

fn memory(n: u32) -> SerializableMemoryState {
    SerializableMemoryState { stability_bits: n, difficulty_bits: n + 100 }
}

fn states() -> NextStates {
    NextStates {
        again: ScheduledState { memory: memory(1), interval_days: 0 },
        hard: ScheduledState { memory: memory(2), interval_days: 2 },
        good: ScheduledState { memory: memory(3), interval_days: 5 },
        easy: ScheduledState { memory: memory(4), interval_days: 14 },
    }
}

fn card(name: &str, due: Option<i32>, reviewed: bool) -> Flashcard {
    let mut c = Flashcard::from_texts(name.to_string(), String::from("back"));
    c.due_date = due;
    if reviewed {
        c.fsrs_state = Some(memory(0));
    }
    c
}

fn names(cards: &[Flashcard]) -> Vec<String> {
    cards.iter().map(|c| c.front.text().clone()).collect()
}

#[test]
fn days_from_seconds() {
    assert_eq!(day_from_secs(0), 0);
    assert_eq!(day_from_secs(86399), 0);
    assert_eq!(day_from_secs(86400), 1);
    assert_eq!(day_from_secs(1_700_000_000), 19675);
}

#[test]
fn elapsed_days_since_review() {
    assert_eq!(days_elapsed(100, Some(90)), 10);
    assert_eq!(days_elapsed(100, None), 0);
    assert_eq!(days_elapsed(100, Some(100)), 0);
}

#[test]
fn ratings_of_statuses() {
    assert_eq!(rating_for_status(FlashcardStatus::Bad), Some(Rating::Again));
    assert_eq!(rating_for_status(FlashcardStatus::Okay), Some(Rating::Hard));
    assert_eq!(rating_for_status(FlashcardStatus::Great), Some(Rating::Good));
    assert_eq!(rating_for_status(FlashcardStatus::Easy), Some(Rating::Easy));
    assert_eq!(rating_for_status(FlashcardStatus::Unrated), None);
    assert_eq!(states().state(Rating::Good), states().good);
}

#[test]
fn scheduled_update_uses_the_rated_state() {
    let r = update_fsrs_data(&FlashcardStatus::Great, 1000, Some(states()));
    assert_eq!(r, Some((NewMemory::Scheduled(memory(3)), 1005)));
    let r = update_fsrs_data(&FlashcardStatus::Easy, 1000, Some(states()));
    assert_eq!(r, Some((NewMemory::Scheduled(memory(4)), 1014)));
}

#[test]
fn scheduled_interval_is_at_least_a_day() {
    let r = update_fsrs_data(&FlashcardStatus::Bad, 1000, Some(states()));
    assert_eq!(r, Some((NewMemory::Scheduled(memory(1)), 1001)));
}

#[test]
fn unrated_gets_no_scheduled_update() {
    assert_eq!(update_fsrs_data(&FlashcardStatus::Unrated, 1000, Some(states())), None);
}

#[test]
fn fallback_intervals_when_the_scheduler_fails() {
    let cases = [
        (FlashcardStatus::Bad, 1),
        (FlashcardStatus::Okay, 3),
        (FlashcardStatus::Great, 7),
        (FlashcardStatus::Easy, 12),
        (FlashcardStatus::Unrated, 1),
    ];
    for (status, interval) in cases {
        let r = update_fsrs_data(&status, 50, None);
        assert_eq!(r, Some((NewMemory::Fallback { interval_days: interval }, 50 + interval)));
    }
}

#[test]
fn sorting_by_due_date_is_stable() {
    let cards = vec![
        card("late", Some(30), true),
        card("new1", None, false),
        card("early", Some(10), true),
        card("new2", None, false),
        card("mid", Some(20), true),
    ];
    // Cards without a due date count as due today (25).
    let sorted = sort_by_due(&cards, 25);
    assert_eq!(names(&sorted), vec!["early", "mid", "new1", "new2", "late"]);
}

#[test]
fn session_studies_due_cards_first() {
    let cards = vec![
        card("future", Some(200), true),
        card("overdue", Some(90), true),
        card("today", Some(100), true),
        card("new", None, false),
    ];
    let (order, mode) = order_due_cards(&cards, 100).unwrap();
    assert_eq!(mode, PracticeMode::Fsrs);
    assert_eq!(names(&order), vec!["overdue", "today", "new"]);
}

#[test]
fn session_without_due_cards_studies_everything() {
    let cards = vec![card("b", Some(300), true), card("a", Some(200), true)];
    let (order, mode) = order_due_cards(&cards, 100).unwrap();
    assert_eq!(mode, PracticeMode::Study);
    assert_eq!(names(&order), vec!["a", "b"]);
}

#[test]
fn session_without_cards() {
    assert!(order_due_cards(&Vec::new(), 100).is_none());
}

#[test]
fn the_clock_gives_a_day() {
    let day = oboete::app::common::utils::flashcards::current_day().unwrap();
    assert!(day > 19000);
    let card = Flashcard::from_texts(String::from("a"), String::from("b"));
    assert_eq!(card.is_due(), Some(true));
}

#[test]
fn due_dates_that_fit() {
    assert!(oboete::app::common::utils::flashcards::review_dates_fit(FlashcardStatus::Great, 100, &Some(states())));
    assert!(oboete::app::common::utils::flashcards::review_dates_fit(FlashcardStatus::Easy, i32::MAX - 12, &None));
    assert!(!oboete::app::common::utils::flashcards::review_dates_fit(FlashcardStatus::Easy, i32::MAX - 11, &None));
    // Only the rated state's interval counts: easy is 14 days, good 5.
    assert!(oboete::app::common::utils::flashcards::review_dates_fit(FlashcardStatus::Great, i32::MAX - 5, &Some(states())));
    assert!(!oboete::app::common::utils::flashcards::review_dates_fit(FlashcardStatus::Easy, i32::MAX - 5, &Some(states())));
    assert!(oboete::app::common::utils::flashcards::review_dates_fit(FlashcardStatus::Unrated, i32::MAX, &Some(states())));
}
