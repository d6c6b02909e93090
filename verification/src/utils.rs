//! Study helpers for plain text cards: weighted random choice of the next
//! card, text import and export.

use rand::seq::IndexedRandom;
use vstd::prelude::*;

use crate::app::common::utils::flashcards::{
    anki_pairs, export_text, import_pairs, pair_views, parse_anki_pairs, parse_import_pairs,
};
use crate::app::common::utils::flashcards::append_str;
use crate::models::Flashcard;
use crate::text::string_from_chars;

verus! {

broadcast use vstd::string::group_string_axioms;

/// An error with a message.
#[derive(Debug, Clone)]
pub struct OboeteError {
    pub message: String,
}

impl OboeteError {
    /// An error with this message.
    pub fn new(message: String) -> (e: Self)
        ensures
            e.message == message,
    {
        OboeteError { message }
    }
}

/// How many tickets a card gets in the draw, by its status: 4 for bad (1),
/// 3 for ok (2), 1 for good (3), 2 for any other status.
pub open spec fn status_weight(status: i32) -> nat {
    if status == 1 {
        4
    } else if status == 2 {
        3
    } else if status == 3 {
        1
    } else {
        2
    }
}

/// The tickets of the draw: the index of each card, repeated by its weight,
/// in order.
pub open spec fn weighted_seq(statuses: Seq<i32>) -> Seq<usize>
    decreases statuses.len(),
{
    if statuses.len() == 0 {
        Seq::empty()
    } else {
        weighted_seq(statuses.drop_last()) + Seq::new(
            status_weight(statuses.last()),
            |_j: int| (statuses.len() - 1) as usize,
        )
    }
}

/// Every ticket is the index of a card, and there are tickets when there are
/// cards.
pub proof fn lemma_weighted_seq_members(statuses: Seq<i32>)
    ensures
        forall|k: int|
            0 <= k < weighted_seq(statuses).len() ==> #[trigger] weighted_seq(statuses)[k]
                < statuses.len(),
        statuses.len() > 0 ==> weighted_seq(statuses).len() > 0,
    decreases statuses.len(),
{
    if statuses.len() > 0 {
        lemma_weighted_seq_members(statuses.drop_last());
        let prev = weighted_seq(statuses.drop_last());
        let w = weighted_seq(statuses);
        assert forall|k: int| 0 <= k < w.len() implies #[trigger] w[k] < statuses.len() by {
            if k < prev.len() {
                assert(w[k] == prev[k]);
            }
        }
    }
}

/// How many of the tickets are `i`.
pub open spec fn ticket_count(tickets: Seq<usize>, i: usize) -> nat
    decreases tickets.len(),
{
    if tickets.len() == 0 {
        0
    } else {
        ticket_count(tickets.drop_last(), i) + if tickets.last() == i {
            1nat
        } else {
            0nat
        }
    }
}

proof fn lemma_ticket_count_concat(a: Seq<usize>, b: Seq<usize>, i: usize)
    ensures
        ticket_count(a + b, i) == ticket_count(a, i) + ticket_count(b, i),
    decreases b.len(),
{
    if b.len() == 0 {
        assert(a + b =~= a);
    } else {
        lemma_ticket_count_concat(a, b.drop_last(), i);
        assert((a + b).drop_last() =~= a + b.drop_last());
    }
}

proof fn lemma_ticket_count_repeat(n: nat, t: usize, i: usize)
    ensures
        ticket_count(Seq::new(n, |_j: int| t), i) == if t == i {
            n
        } else {
            0
        },
    decreases n,
{
    if n > 0 {
        lemma_ticket_count_repeat((n - 1) as nat, t, i);
        assert(Seq::new(n, |_j: int| t).drop_last() =~= Seq::new((n - 1) as nat, |_j: int| t));
    }
}

/// Each card holds as many tickets of the draw as its status gives it (4 for
/// bad, 3 for ok, 1 for good, 2 otherwise), so every card can be drawn and a
/// card's chance follows its weight; no other index holds a ticket.
pub proof fn lemma_tickets_follow_weights(statuses: Seq<i32>, i: usize)
    requires
        statuses.len() <= usize::MAX,
    ensures
        ticket_count(weighted_seq(statuses), i) == if i < statuses.len() {
            status_weight(statuses[i as int])
        } else {
            0
        },
    decreases statuses.len(),
{
    if statuses.len() > 0 {
        let n = statuses.len() - 1;
        lemma_tickets_follow_weights(statuses.drop_last(), i);
        lemma_ticket_count_concat(
            weighted_seq(statuses.drop_last()),
            Seq::new(status_weight(statuses.last()), |_j: int| n as usize),
            i,
        );
        lemma_ticket_count_repeat(status_weight(statuses.last()), n as usize, i);
        if i < n {
            assert(statuses.drop_last()[i as int] == statuses[i as int]);
        }
    }
}

/// The tickets of the draw for cards with the given statuses.
pub fn weighted_indices(statuses: &Vec<i32>) -> (tickets: Vec<usize>)
    ensures
        tickets@ == weighted_seq(statuses@),
{
    let mut tickets: Vec<usize> = Vec::new();
    let mut i: usize = 0;
    while i < statuses.len()
        invariant
            i <= statuses.len(),
            tickets@ == weighted_seq(statuses@.take(i as int)),
        decreases statuses.len() - i,
    {
        let status = statuses[i];
        let weight: usize = if status == 1 {
            4
        } else if status == 2 {
            3
        } else if status == 3 {
            1
        } else {
            2
        };
        let ghost before = tickets@;
        let mut j: usize = 0;
        while j < weight
            invariant
                j <= weight,
                weight == status_weight(status),
                tickets@ == before + Seq::new(j as nat, |_k: int| i),
            decreases weight - j,
        {
            tickets.push(i);
            j = j + 1;
            proof {
                assert(tickets@ =~= before + Seq::new(j as nat, |_k: int| i));
            }
        }
        proof {
            let s = statuses@.take(i + 1);
            assert(s.drop_last() =~= statuses@.take(i as int));
            assert(s.last() == status);
            assert(Seq::new(weight as nat, |_k: int| i) =~= Seq::new(
                status_weight(s.last()),
                |_j: int| (s.len() - 1) as usize,
            ));
        }
        i = i + 1;
    }
    proof {
        assert(statuses@.take(statuses.len() as int) =~= statuses@);
    }
    tickets
}

/// A uniformly random element of the slice (`IndexedRandom::choose` of the
/// rand crate with the thread-local generator `rand::rng()`): `None` exactly
/// for an empty slice, else one of its elements; which one is left to
/// chance.
#[verifier::external_body]
pub(crate) fn choose_ticket(tickets: &Vec<usize>) -> (r: Option<usize>)
    ensures
        r is None <==> tickets@.len() == 0,
        r matches Some(t) ==> tickets@.contains(t),
{
    tickets.as_slice().choose(&mut rand::rng()).copied()
}

/// The statuses of the cards, in order.
pub open spec fn card_statuses(cards: Seq<Flashcard>) -> Seq<i32> {
    cards.map_values(|c: Flashcard| c.status)
}

/// A card that the weighted draw can give: the card of one of the tickets
/// of the draw over `cards`.
pub open spec fn drawn_by_ticket(card: Flashcard, cards: Seq<Flashcard>) -> bool {
    let tickets = weighted_seq(card_statuses(cards));
    exists|k: int| 0 <= k < tickets.len() && card == cards[tickets[k] as int]
}

/// The statuses of the cards, in order.
fn statuses_of(flashcards: &Vec<Flashcard>) -> (s: Vec<i32>)
    ensures
        s@ == card_statuses(flashcards@),
{
    let mut s: Vec<i32> = Vec::new();
    let mut i: usize = 0;
    while i < flashcards.len()
        invariant
            i <= flashcards.len(),
            s@.len() == i,
            forall|k: int| 0 <= k < i ==> s@[k] == #[trigger] flashcards@[k].status,
        decreases flashcards.len() - i,
    {
        s.push(flashcards[i].status);
        i = i + 1;
    }
    assert(s@ =~= card_statuses(flashcards@));
    s
}

/// The card that a drawn ticket stands for: the card at that index, if any.
pub fn card_of_ticket(flashcards: &Vec<Flashcard>, ticket: usize) -> (r: Option<Flashcard>)
    ensures
        r == (if ticket < flashcards@.len() {
            Some(flashcards@[ticket as int])
        } else {
            None
        }),
{
    if ticket < flashcards.len() {
        Some(flashcards[ticket].duplicate())
    } else {
        None
    }
}

/// Selects a random card, each card weighted by its status: bad cards come
/// up most, good cards least. The card is the card of a ticket drawn from
/// the tickets of the draw (`weighted_seq`), which hold each card as often
/// as its status weighs. `None` only for no cards.
pub fn select_random_flashcard(flashcards: &Vec<Flashcard>) -> (r: Option<Flashcard>)
    ensures
        r is None <==> flashcards@.len() == 0,
        r matches Some(c) ==> drawn_by_ticket(c, flashcards@),
{
    let statuses = statuses_of(flashcards);
    let tickets = weighted_indices(&statuses);
    proof {
        lemma_weighted_seq_members(statuses@);
    }
    match choose_ticket(&tickets) {
        Some(t) => {
            proof {
                let k = choose|k: int| 0 <= k < tickets@.len() && tickets@[k] == t;
                assert(weighted_seq(statuses@)[k] < statuses@.len());
            }
            let card = card_of_ticket(flashcards, t);
            proof {
                let k = choose|k: int| 0 <= k < tickets@.len() && tickets@[k] == t;
                assert(card == Some(flashcards@[weighted_seq(card_statuses(flashcards@))[k] as int]));
            }
            card
        },
        None => None,
    }
}

/// A new unrated plain card with these texts.
pub open spec fn is_plain_card(card: Flashcard, texts: (Seq<char>, Seq<char>)) -> bool {
    card.id is None && card.front@ == texts.0 && card.back@ == texts.1 && card.status == 0
}

/// New unrated cards with the given texts.
pub fn plain_cards(pairs: Vec<(String, String)>) -> (cards: Vec<Flashcard>)
    ensures
        cards.len() == pairs.len(),
        forall|i: int| 0 <= i < cards.len() ==> is_plain_card(#[trigger] cards@[i], pair_views(pairs@)[i]),
{
    let ghost ps = pair_views(pairs@);
    let n = pairs.len();
    let mut rest = pairs;
    let mut reversed: Vec<Flashcard> = Vec::new();
    while rest.len() > 0
        invariant
            rest.len() + reversed.len() == n,
            ps.len() == n,
            forall|k: int| 0 <= k < rest.len() ==> (#[trigger] rest@[k]).0@ == ps[k].0 && rest@[k].1@ == ps[k].1,
            forall|k: int| 0 <= k < reversed.len() ==> is_plain_card(#[trigger] reversed@[k], ps[n - 1 - k]),
        decreases rest.len(),
    {
        let (front, back) = rest.pop().unwrap();
        reversed.push(Flashcard { id: None, front, back, status: 0 });
    }
    let mut cards: Vec<Flashcard> = Vec::new();
    while reversed.len() > 0
        invariant
            reversed.len() + cards.len() == n,
            ps.len() == n,
            forall|k: int| 0 <= k < reversed.len() ==> is_plain_card(#[trigger] reversed@[k], ps[n - 1 - k]),
            forall|k: int| 0 <= k < cards.len() ==> is_plain_card(#[trigger] cards@[k], ps[k]),
        decreases reversed.len(),
    {
        let card = reversed.pop().unwrap();
        cards.push(card);
    }
    cards
}

/// Custom import: the cards that `content` holds, cards separated by
/// `line_delimiter`, front and back by `term_delimiter`.
pub fn parse_import_content(line_delimiter: &String, term_delimiter: &String, content: &String) -> (cards: Vec<Flashcard>)
    ensures
        cards.len() == import_pairs(line_delimiter@, term_delimiter@, content@).len(),
        forall|i: int|
            0 <= i < cards.len() ==> is_plain_card(
                #[trigger] cards@[i],
                import_pairs(line_delimiter@, term_delimiter@, content@)[i],
            ),
{
    let pairs = parse_import_pairs(line_delimiter.as_str(), term_delimiter.as_str(), content.as_str());
    plain_cards(pairs)
}

/// The cards of an Anki text export: its first three lines are metadata,
/// every later line with exactly one tab is a card.
pub fn parse_anki_content(content: &str) -> (cards: Vec<Flashcard>)
    ensures
        cards.len() == anki_pairs(content@).len(),
        forall|i: int| 0 <= i < cards.len() ==> is_plain_card(#[trigger] cards@[i], anki_pairs(content@)[i]),
{
    let pairs = parse_anki_pairs(content);
    plain_cards(pairs)
}

/// The texts of plain cards.
pub open spec fn plain_texts(cards: Seq<Flashcard>) -> Seq<(Seq<char>, Seq<char>)> {
    cards.map_values(|c: Flashcard| (c.front@, c.back@))
}

/// The text of the export of the cards: `front\#*#\back`, a newline, `/#`
/// and a newline for each card.
pub fn export_flashcards_text(flashcards: &Vec<Flashcard>) -> (s: String)
    ensures
        s@ == export_text(plain_texts(flashcards@)),
{
    let mut out: Vec<char> = Vec::new();
    let mut i: usize = 0;
    while i < flashcards.len()
        invariant
            i <= flashcards.len(),
            out@ == export_text(plain_texts(flashcards@.take(i as int))),
        decreases flashcards.len() - i,
    {
        let card = &flashcards[i];
        let ghost before = out@;
        append_str(&mut out, card.front.as_str());
        append_str(&mut out, "\\#*#\\");
        append_str(&mut out, card.back.as_str());
        append_str(&mut out, "\n/#\n");
        proof {
            reveal_strlit("\\#*#\\");
            reveal_strlit("\n/#\n");
            let xs = plain_texts(flashcards@.take(i as int));
            let e = (flashcards@[i as int].front@, flashcards@[i as int].back@);
            assert(plain_texts(flashcards@.take(i + 1)) =~= xs.push(e));
            assert(xs.push(e).drop_last() =~= xs);
        }
        i = i + 1;
    }
    proof {
        assert(flashcards@.take(flashcards@.len() as int) =~= flashcards@);
    }
    string_from_chars(out.as_slice())
}

/// The card lines of the plain Anki export, each front, tab, back and
/// newline.
pub open spec fn anki_lines_text(pairs: Seq<(Seq<char>, Seq<char>)>) -> Seq<char>
    decreases pairs.len(),
{
    if pairs.len() == 0 {
        Seq::empty()
    } else {
        anki_lines_text(pairs.drop_last()) + pairs.last().0 + seq!['\t'] + pairs.last().1 + seq!['\n']
    }
}

/// The text of the plain Anki export: the separator and HTML lines, then
/// one line per card (no empty line between them).
pub fn export_flashcards_anki_text(flashcards: &Vec<Flashcard>) -> (s: String)
    ensures
        s@ == "#separator:tab\n#html:false\n"@ + anki_lines_text(plain_texts(flashcards@)),
{
    let mut out: Vec<char> = Vec::new();
    append_str(&mut out, "#separator:tab\n#html:false\n");
    let mut i: usize = 0;
    while i < flashcards.len()
        invariant
            i <= flashcards.len(),
            out@ == "#separator:tab\n#html:false\n"@ + anki_lines_text(plain_texts(flashcards@.take(i as int))),
        decreases flashcards.len() - i,
    {
        let card = &flashcards[i];
        let ghost before = out@;
        append_str(&mut out, card.front.as_str());
        append_str(&mut out, "\t");
        append_str(&mut out, card.back.as_str());
        append_str(&mut out, "\n");
        proof {
            reveal_strlit("\t");
            reveal_strlit("\n");
            let xs = plain_texts(flashcards@.take(i as int));
            let e = (flashcards@[i as int].front@, flashcards@[i as int].back@);
            assert(plain_texts(flashcards@.take(i + 1)) =~= xs.push(e));
            assert(xs.push(e).drop_last() =~= xs);
            assert(out@ =~= before + e.0 + seq!['\t'] + e.1 + seq!['\n']);
        }
        i = i + 1;
    }
    proof {
        assert(flashcards@.take(flashcards@.len() as int) =~= flashcards@);
    }
    string_from_chars(out.as_slice())
}

} // verus!
