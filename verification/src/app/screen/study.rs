//! The study screen: the order the due cards are studied in, and the study
//! session's state machine.

use vstd::prelude::*;

use crate::app::common::models::flashcard::{
    card_is_due_on, Flashcard, FlashcardStatus, SerializableMemoryState,
};
use crate::app::common::utils::flashcards::{due_dates_fit, fsrs_update, update_fsrs_data, NewMemory};
use crate::app::common::utils::fsrs_scheduler::NextStates;
use crate::app::common::utils::toast::OboeteToast;

verus! {

/// The day a card is ordered by: its due date, or `today` when it has none.
pub open spec fn due_key(card: Flashcard, today: i32) -> i32 {
    match card.due_date {
        Some(d) => d,
        None => today,
    }
}

/// Whether a card's order key is `k`.
pub open spec fn key_is(today: i32, k: i32) -> spec_fn(Flashcard) -> bool {
    |c: Flashcard| due_key(c, today) == k
}

/// Whether a card is due on `today`.
pub open spec fn due_on(today: i32) -> spec_fn(Flashcard) -> bool {
    |c: Flashcard| card_is_due_on(c, today)
}

/// Cards in order of their keys.
pub open spec fn sorted_by_due(s: Seq<Flashcard>, today: i32) -> bool {
    forall|i: int, j: int| 0 <= i < j < s.len() ==> due_key(s[i], today) <= due_key(s[j], today)
}

/// `output` is `input` sorted by key, stably: in key order, and the cards of
/// each key in the order they had.
pub open spec fn stable_sort_of(input: Seq<Flashcard>, output: Seq<Flashcard>, today: i32) -> bool {
    &&& output.len() == input.len()
    &&& sorted_by_due(output, today)
    &&& forall|k: i32| #[trigger] output.filter(key_is(today, k)) == input.filter(key_is(today, k))
}

proof fn lemma_filter_push<A>(s: Seq<A>, x: A, pred: spec_fn(A) -> bool)
    ensures
        s.push(x).filter(pred) == if pred(x) {
            s.filter(pred).push(x)
        } else {
            s.filter(pred)
        },
{
    reveal(Seq::filter);
    assert(s.push(x).drop_last() =~= s);
}

proof fn lemma_filter_none<A>(s: Seq<A>, pred: spec_fn(A) -> bool)
    requires
        forall|i: int| 0 <= i < s.len() ==> !pred(#[trigger] s[i]),
    ensures
        s.filter(pred) == Seq::<A>::empty(),
    decreases s.len(),
{
    reveal(Seq::filter);
    if s.len() > 0 {
        lemma_filter_none(s.drop_last(), pred);
        assert(!pred(s[s.len() - 1]));
    }
}

proof fn lemma_filter_insert<A>(s: Seq<A>, p: int, x: A, pred: spec_fn(A) -> bool)
    requires
        0 <= p <= s.len(),
    ensures
        s.insert(p, x).filter(pred) == s.take(p).filter(pred) + seq![x].filter(pred) + s.skip(
            p,
        ).filter(pred),
        s.filter(pred) == s.take(p).filter(pred) + s.skip(p).filter(pred),
{
    broadcast use Seq::filter_distributes_over_add;

    assert(s.insert(p, x) =~= s.take(p) + seq![x] + s.skip(p));
    assert(s =~= s.take(p) + s.skip(p));
}

proof fn lemma_filter_singleton<A>(x: A, pred: spec_fn(A) -> bool)
    ensures
        seq![x].filter(pred) == if pred(x) {
            seq![x]
        } else {
            Seq::<A>::empty()
        },
{
    lemma_filter_push(Seq::<A>::empty(), x, pred);
    reveal(Seq::filter);
    assert(Seq::<A>::empty().push(x) =~= seq![x]);
}

/// The order key of a card.
fn key_of(card: &Flashcard, today: i32) -> (k: i32)
    ensures
        k == due_key(*card, today),
{
    match card.due_date {
        Some(d) => d,
        None => today,
    }
}

/// The cards sorted by their keys, stably.
pub fn sort_by_due(cards: &Vec<Flashcard>, today: i32) -> (out: Vec<Flashcard>)
    ensures
        stable_sort_of(cards@, out@, today),
{
    let mut out: Vec<Flashcard> = Vec::new();
    let mut i: usize = 0;
    while i < cards.len()
        invariant
            i <= cards.len(),
            out.len() == i,
            sorted_by_due(out@, today),
            forall|k: i32| #[trigger]
                out@.filter(key_is(today, k)) == cards@.take(i as int).filter(key_is(today, k)),
        decreases cards.len() - i,
    {
        let x = cards[i].duplicate();
        let kx = key_of(&x, today);
        let mut p: usize = 0;
        while p < out.len() && key_of(&out[p], today) <= kx
            invariant
                p <= out.len(),
                forall|j: int| 0 <= j < p ==> due_key(#[trigger] out@[j], today) <= kx,
            decreases out.len() - p,
        {
            p = p + 1;
        }
        let ghost old_out = out@;
        proof {
            assert forall|j: int| p <= j < old_out.len() implies due_key(
                #[trigger] old_out[j],
                today,
            ) > kx by {
                assert(due_key(old_out[p as int], today) > kx);
                if j > p {
                    assert(due_key(old_out[p as int], today) <= due_key(old_out[j], today));
                }
            }
        }
        out.insert(p, x);
        proof {
            let new_out = out@;
            assert(new_out == old_out.insert(p as int, x));
            assert forall|a: int, b: int| 0 <= a < b < new_out.len() implies due_key(
                new_out[a],
                today,
            ) <= due_key(new_out[b], today) by {
                if b < p {
                } else if b == p {
                } else if a < p {
                    assert(new_out[b] == old_out[b - 1]);
                } else if a == p {
                    assert(new_out[b] == old_out[b - 1]);
                } else {
                    assert(new_out[a] == old_out[a - 1]);
                    assert(new_out[b] == old_out[b - 1]);
                }
            }
            assert(cards@.take(i + 1) =~= cards@.take(i as int).push(x));
            assert forall|k: i32| #[trigger]
                new_out.filter(key_is(today, k)) == cards@.take(i + 1).filter(
                    key_is(today, k),
                ) by {
                let pred = key_is(today, k);
                lemma_filter_insert(old_out, p as int, x, pred);
                lemma_filter_singleton(x, pred);
                lemma_filter_push(cards@.take(i as int), x, pred);
                if k == kx {
                    assert forall|j: int| 0 <= j < old_out.skip(p as int).len() implies !pred(
                        #[trigger] old_out.skip(p as int)[j],
                    ) by {
                        assert(old_out.skip(p as int)[j] == old_out[p + j]);
                    }
                    lemma_filter_none(old_out.skip(p as int), pred);
                    assert(new_out.filter(pred) =~= old_out.take(p as int).filter(pred).push(x));
                    assert(old_out.filter(pred) =~= old_out.take(p as int).filter(pred));
                } else {
                    assert(new_out.filter(pred) =~= old_out.filter(pred));
                }
            }
        }
        i = i + 1;
    }
    proof {
        assert(cards@.take(cards.len() as int) =~= cards@);
    }
    out
}

/// The cards due on `today`, in order.
pub fn due_cards(cards: &Vec<Flashcard>, today: i32) -> (due: Vec<Flashcard>)
    ensures
        due@ == cards@.filter(due_on(today)),
{
    let mut due: Vec<Flashcard> = Vec::new();
    let mut i: usize = 0;
    while i < cards.len()
        invariant
            i <= cards.len(),
            due@ == cards@.take(i as int).filter(due_on(today)),
        decreases cards.len() - i,
    {
        proof {
            assert(cards@.take(i + 1) =~= cards@.take(i as int).push(cards@[i as int]));
            lemma_filter_push(cards@.take(i as int), cards@[i as int], due_on(today));
        }
        if cards[i].is_due_on(today) {
            due.push(cards[i].duplicate());
        }
        i = i + 1;
    }
    proof {
        assert(cards@.take(cards.len() as int) =~= cards@);
    }
    due
}

/// How the session studies: the due cards, or, with none due, every card.
#[derive(Debug, Clone, Copy, PartialEq, Eq, Structural)]
pub enum PracticeMode {
    Fsrs,
    Study,
}

/// The cards a session studies and its mode: the due cards by due date
/// (overdue first) when some are due; else every card by due date; nothing
/// for no cards.
pub open spec fn session_order(
    cards: Seq<Flashcard>,
    today: i32,
    r: Option<(Seq<Flashcard>, PracticeMode)>,
) -> bool {
    let due = cards.filter(due_on(today));
    if due.len() > 0 {
        r matches Some((v, m)) && m == PracticeMode::Fsrs && stable_sort_of(due, v, today)
    } else if cards.len() > 0 {
        r matches Some((v, m)) && m == PracticeMode::Study && stable_sort_of(cards, v, today)
    } else {
        r is None
    }
}

/// Orders the cards to follow the FSRS schedule when some are due; else
/// offers every card sorted by due date; also determines the practice mode.
pub fn order_due_cards(flashcards: &Vec<Flashcard>, today: i32) -> (r: Option<(Vec<Flashcard>, PracticeMode)>)
    ensures
        session_order(
            flashcards@,
            today,
            match r {
                Some((v, m)) => Some((v@, m)),
                None => None,
            },
        ),
{
    let due = due_cards(flashcards, today);
    let sorted_due = sort_by_due(&due, today);
    if sorted_due.len() == 0 && flashcards.len() > 0 {
        let all_cards = sort_by_due(flashcards, today);
        return Some((all_cards, PracticeMode::Study));
    }
    if sorted_due.len() == 0 {
        None
    } else {
        Some((sorted_due, PracticeMode::Fsrs))
    }
}

} // verus!

verus! {

/// Which side of the card is shown.
#[derive(Debug, Clone, Copy, PartialEq, Eq, Structural)]
pub enum FlashcardSide {
    Front,
    Back,
}

/// The card being studied and the side shown.
#[derive(Debug)]
pub struct StudyingFlashcard {
    pub flashcard: Flashcard,
    pub flashcard_side: FlashcardSide,
}

/// The state of the study screen. The desired retention of the folder, an
/// `f32` the scheduler is built from, is held as its bit pattern.
#[derive(Debug)]
pub enum State {
    Loading,
    Ready {
        desired_retention_bits: u32,
        current_folder_id: Option<i32>,
        flashcards: Vec<Flashcard>,
        studying_flashcard: StudyingFlashcard,
        current_index: usize,
        current_mode: PracticeMode,
    },
}

/// A consistent session: it studies a card of its list, shown from the
/// position `current_index`.
pub open spec fn study_wf(s: State) -> bool {
    match s {
        State::Loading => true,
        State::Ready { flashcards, studying_flashcard, current_index, .. } => {
            &&& 0 < flashcards.len()
            &&& current_index < flashcards.len()
            &&& studying_flashcard.flashcard == flashcards@[current_index as int]
        },
    }
}

/// Work the screen asks the interface to carry out.
#[derive(Debug)]
pub enum Job {
    /// Load the cards of the folder with the folder's desired retention:
    /// `FlashcardsLoaded` with the current day, then `UpdateCurrentFolderId`.
    LoadFlashcards(i32),
    /// Ask the scheduler for the next states of the card (built from the
    /// desired retention, with the days since the card's last review on the
    /// current day), then `ReviewScheduled` with the result (`None` when the
    /// scheduler fails).
    ScheduleReview {
        flashcard_id: i32,
        status: FlashcardStatus,
        flashcard: Flashcard,
        desired_retention_bits: u32,
    },
    /// Store the review (status, memory state, due date, reviewed today),
    /// then `FlashcardStatusUpdated`, or a toast with the error.
    SaveReview { flashcard_id: i32, status: FlashcardStatus, memory: NewMemory, due_date: i32 },
    /// Send `LoadFlashcards`.
    Reload,
}

/// What the screen asks of the application.
#[derive(Debug)]
pub enum Action {
    Nothing,
    /// Go back to the flashcards screen of the folder.
    Back(i32),
    Run(Job),
    AddToast(OboeteToast),
}

/// The messages of the screen.
#[derive(Debug)]
pub enum Message {
    Back,
    AddToast(OboeteToast),
    UpdateCurrentFolderId(i32),
    LoadFlashcards,
    /// The cards of the folder and the bit pattern of its desired retention,
    /// loaded on the given day.
    FlashcardsLoaded(Result<(Vec<Flashcard>, u32), String>, i32),
    SwapFlashcardSide,
    UpdateFlashcardStatus(i32, FlashcardStatus),
    /// The scheduler's proposal for a rated card, on day `current`.
    ReviewScheduled {
        flashcard_id: i32,
        status: FlashcardStatus,
        current: i32,
        next_states: Option<NextStates>,
    },
    FlashcardStatusUpdated,
}

/// The study screen.
#[derive(Debug)]
pub struct StudyScreen {
    pub state: State,
}

/// What going back asks for: the flashcards screen of the folder, when the
/// session knows it.
pub open spec fn back_action(s: State, action: Action) -> bool {
    match s {
        State::Ready { current_folder_id: Some(id), .. } => action == Action::Back(id),
        _ => action is Nothing,
    }
}

/// The state after a message, and what the message asks for.
pub open spec fn study_step(old: State, msg: Message, new: State, action: Action) -> bool {
    match msg {
        Message::Back => new == old && back_action(old, action),
        Message::AddToast(t) => new == old && action == Action::AddToast(t),
        Message::UpdateCurrentFolderId(id) => action is Nothing && match old {
            State::Ready {
                desired_retention_bits,
                flashcards,
                studying_flashcard,
                current_index,
                current_mode,
                ..
            } => new == State::Ready {
                desired_retention_bits,
                current_folder_id: Some(id),
                flashcards,
                studying_flashcard,
                current_index,
                current_mode,
            },
            State::Loading => new == old,
        },
        Message::LoadFlashcards => new == old && match old {
            State::Ready { current_folder_id: Some(id), .. } => action == Action::Run(
                Job::LoadFlashcards(id),
            ),
            _ => action is Nothing,
        },
        Message::FlashcardsLoaded(Ok((cards, bits)), today) => if cards.len() > 0 {
            &&& action is Nothing
            &&& new matches State::Ready {
                desired_retention_bits,
                current_folder_id,
                flashcards,
                studying_flashcard,
                current_index,
                current_mode,
            }
            &&& new->desired_retention_bits == bits
            &&& new->current_folder_id is None
            &&& new->current_index == 0
            &&& new->studying_flashcard.flashcard_side == FlashcardSide::Front
            &&& new->studying_flashcard.flashcard == new->flashcards@[0]
            &&& session_order(cards@, today, Some((new->flashcards@, new->current_mode)))
        } else {
            new == old && back_action(old, action)
        },
        Message::FlashcardsLoaded(Err(e), _) => {
            &&& new == old
            &&& action matches Action::AddToast(t) && t.message@ == e@
        },
        Message::SwapFlashcardSide => action is Nothing && match old {
            State::Ready {
                desired_retention_bits,
                current_folder_id,
                flashcards,
                studying_flashcard,
                current_index,
                current_mode,
            } => new == State::Ready {
                desired_retention_bits,
                current_folder_id,
                flashcards,
                studying_flashcard: StudyingFlashcard {
                    flashcard: studying_flashcard.flashcard,
                    flashcard_side: match studying_flashcard.flashcard_side {
                        FlashcardSide::Front => FlashcardSide::Back,
                        FlashcardSide::Back => FlashcardSide::Front,
                    },
                },
                current_index,
                current_mode,
            },
            State::Loading => new == old,
        },
        Message::UpdateFlashcardStatus(id, status) => new == old && match old {
            State::Ready { desired_retention_bits, studying_flashcard, .. } => action == Action::Run(
                Job::ScheduleReview {
                    flashcard_id: id,
                    status,
                    flashcard: studying_flashcard.flashcard,
                    desired_retention_bits,
                },
            ),
            State::Loading => action is Nothing,
        },
        Message::ReviewScheduled { flashcard_id, status, current, next_states } => new == old
            && match fsrs_update(status, current, next_states) {
            Some((memory, due_date)) => action == Action::Run(
                Job::SaveReview { flashcard_id, status, memory, due_date },
            ),
            None => action == Action::Run(Job::Reload),
        },
        Message::FlashcardStatusUpdated => match old {
            State::Ready {
                desired_retention_bits,
                current_folder_id,
                flashcards,
                current_index,
                current_mode,
                ..
            } => if current_index + 1 < flashcards.len() {
                &&& action is Nothing
                &&& new == State::Ready {
                    desired_retention_bits,
                    current_folder_id,
                    flashcards,
                    studying_flashcard: StudyingFlashcard {
                        flashcard: flashcards@[current_index + 1],
                        flashcard_side: FlashcardSide::Front,
                    },
                    current_index: (current_index + 1) as usize,
                    current_mode,
                }
            } else {
                new == old && back_action(old, action)
            },
            State::Loading => new == old && action is Nothing,
        },
    }
}

impl StudyScreen {
    /// A loading screen for the folder, and the job that loads its cards.
    pub fn new(folder_id: i32) -> (r: (Self, Job))
        ensures
            r.0.state is Loading,
            r.1 == Job::LoadFlashcards(folder_id),
    {
        (StudyScreen { state: State::Loading }, Job::LoadFlashcards(folder_id))
    }

    /// What going back asks for.
    fn back(&self) -> (action: Action)
        ensures
            back_action(self.state, action),
    {
        match &self.state {
            State::Ready { current_folder_id: Some(folder_id), .. } => Action::Back(*folder_id),
            _ => Action::Nothing,
        }
    }

    /// Handles a message of the screen. Every message keeps the session
    /// consistent.
    pub fn update(&mut self, message: Message) -> (action: Action)
        requires
            message matches Message::ReviewScheduled { status, current, next_states, .. } ==> due_dates_fit(
                status,
                current,
                next_states,
            ),
        ensures
            study_step(old(self).state, message, final(self).state, action),
            study_wf(old(self).state) ==> study_wf(final(self).state),
    {
        match message {
            Message::Back => self.back(),
            Message::AddToast(toast) => Action::AddToast(toast),
            Message::UpdateCurrentFolderId(folder_id) => {
                let mut st = State::Loading;
                std::mem::swap(&mut st, &mut self.state);
                match st {
                    State::Ready {
                        desired_retention_bits,
                        flashcards,
                        studying_flashcard,
                        current_index,
                        current_mode,
                        ..
                    } => {
                        self.state = State::Ready {
                            desired_retention_bits,
                            current_folder_id: Some(folder_id),
                            flashcards,
                            studying_flashcard,
                            current_index,
                            current_mode,
                        };
                    },
                    State::Loading => {},
                }
                Action::Nothing
            },
            Message::LoadFlashcards => match &self.state {
                State::Ready { current_folder_id: Some(folder_id), .. } => Action::Run(
                    Job::LoadFlashcards(*folder_id),
                ),
                _ => Action::Nothing,
            },
            Message::FlashcardsLoaded(res, today) => match res {
                Ok((flashcards, retention_bits)) => {
                    if flashcards.len() > 0 {
                        match order_due_cards(&flashcards, today) {
                            Some((due, mode)) => {
                                let flashcard = due[0].duplicate();
                                self.state = State::Ready {
                                    desired_retention_bits: retention_bits,
                                    current_folder_id: None,
                                    flashcards: due,
                                    studying_flashcard: StudyingFlashcard {
                                        flashcard,
                                        flashcard_side: FlashcardSide::Front,
                                    },
                                    current_index: 0,
                                    current_mode: mode,
                                };
                                Action::Nothing
                            },
                            None => self.back(),
                        }
                    } else {
                        self.back()
                    }
                },
                Err(e) => Action::AddToast(OboeteToast::new(e)),
            },
            Message::SwapFlashcardSide => {
                let mut st = State::Loading;
                std::mem::swap(&mut st, &mut self.state);
                match st {
                    State::Ready {
                        desired_retention_bits,
                        current_folder_id,
                        flashcards,
                        studying_flashcard,
                        current_index,
                        current_mode,
                    } => {
                        let side = match studying_flashcard.flashcard_side {
                            FlashcardSide::Front => FlashcardSide::Back,
                            FlashcardSide::Back => FlashcardSide::Front,
                        };
                        self.state = State::Ready {
                            desired_retention_bits,
                            current_folder_id,
                            flashcards,
                            studying_flashcard: StudyingFlashcard {
                                flashcard: studying_flashcard.flashcard,
                                flashcard_side: side,
                            },
                            current_index,
                            current_mode,
                        };
                    },
                    State::Loading => {},
                }
                Action::Nothing
            },
            Message::UpdateFlashcardStatus(flashcard_id, status) => match &self.state {
                State::Ready { desired_retention_bits, studying_flashcard, .. } => Action::Run(
                    Job::ScheduleReview {
                        flashcard_id,
                        status,
                        flashcard: studying_flashcard.flashcard.duplicate(),
                        desired_retention_bits: *desired_retention_bits,
                    },
                ),
                State::Loading => Action::Nothing,
            },
            Message::ReviewScheduled { flashcard_id, status, current, next_states } => {
                match update_fsrs_data(&status, current, next_states) {
                    Some((memory, due_date)) => Action::Run(
                        Job::SaveReview { flashcard_id, status, memory, due_date },
                    ),
                    None => Action::Run(Job::Reload),
                }
            },
            Message::FlashcardStatusUpdated => {
                let advance = match &self.state {
                    State::Ready { flashcards, current_index, .. } => *current_index
                        < flashcards.len() && *current_index + 1 < flashcards.len(),
                    State::Loading => false,
                };
                if !advance {
                    return match &self.state {
                        State::Ready { .. } => self.back(),
                        State::Loading => Action::Nothing,
                    };
                }
                let mut st = State::Loading;
                std::mem::swap(&mut st, &mut self.state);
                match st {
                    State::Ready {
                        desired_retention_bits,
                        current_folder_id,
                        flashcards,
                        current_index,
                        current_mode,
                        ..
                    } => {
                        let next_index = current_index + 1;
                        let next_flashcard = flashcards[next_index].duplicate();
                        self.state = State::Ready {
                            desired_retention_bits,
                            current_folder_id,
                            flashcards,
                            studying_flashcard: StudyingFlashcard {
                                flashcard: next_flashcard,
                                flashcard_side: FlashcardSide::Front,
                            },
                            current_index: next_index,
                            current_mode,
                        };
                    },
                    State::Loading => {},
                }
                Action::Nothing
            },
        }
    }
}

} // verus!

verus! {

/// Flipping the card shown in a session always shows its other side, and
/// flipping it twice shows the side it started on: the session comes back
/// exactly as it was, with the same card, and neither flip asks for work.
pub proof fn lemma_swap_side_twice(s0: State, s1: State, s2: State, a1: Action, a2: Action)
    requires
        s0 is Ready,
        study_step(s0, Message::SwapFlashcardSide, s1, a1),
        study_step(s1, Message::SwapFlashcardSide, s2, a2),
    ensures
        s1 is Ready,
        s1->studying_flashcard.flashcard_side != s0->studying_flashcard.flashcard_side,
        s1->studying_flashcard.flashcard == s0->studying_flashcard.flashcard,
        s0->studying_flashcard.flashcard_side == FlashcardSide::Front ==> s1->studying_flashcard.flashcard_side
            == FlashcardSide::Back,
        s0->studying_flashcard.flashcard_side == FlashcardSide::Back ==> s1->studying_flashcard.flashcard_side
            == FlashcardSide::Front,
        s2 == s0,
        a1 is Nothing,
        a2 is Nothing,
{
}

} // verus!
