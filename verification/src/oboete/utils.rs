//! Study helpers of the `oboete` pages: weighted random choice, text import
//! and export.

use vstd::prelude::*;

use crate::app::common::utils::flashcards::{anki_export_text, append_str, export_text, import_pairs};
use crate::models::{is_error_card, Flashcard};
use crate::text::string_from_chars;
use crate::utils::{drawn_by_ticket, is_plain_card, plain_texts};

verus! {

broadcast use vstd::string::group_string_axioms;

/// Selects a random card, each card weighted by its status: bad cards come
/// up most, good cards least. The card is the card of a ticket drawn from
/// the tickets of the draw (`weighted_seq`). `None` only for no cards.
pub fn select_random_flashcard(flashcards: &Vec<Flashcard>) -> (r: Option<Flashcard>)
    ensures
        r is None <==> flashcards@.len() == 0,
        r matches Some(c) ==> drawn_by_ticket(c, flashcards@),
{
    crate::utils::select_random_flashcard(flashcards)
}

/// Custom import: the cards that `content` holds, cards separated by
/// `line_delimiter`, front and back by `term_delimiter`.
pub fn parse_import_content(line_delimiter: &String, term_delimiter: &String, content: &str) -> (cards: Vec<Flashcard>)
    ensures
        cards.len() == import_pairs(line_delimiter@, term_delimiter@, content@).len(),
        forall|i: int|
            0 <= i < cards.len() ==> is_plain_card(
                #[trigger] cards@[i],
                import_pairs(line_delimiter@, term_delimiter@, content@)[i],
            ),
{
    let pairs = crate::app::common::utils::flashcards::parse_import_pairs(
        line_delimiter.as_str(),
        term_delimiter.as_str(),
        content,
    );
    crate::utils::plain_cards(pairs)
}

/// The text of the export of the cards.
pub fn export_flashcards_text(flashcards: &Vec<Flashcard>) -> (s: String)
    ensures
        s@ == export_text(plain_texts(flashcards@)),
{
    crate::utils::export_flashcards_text(flashcards)
}

/// The text of the Anki export of the cards: the separator and HTML lines,
/// an empty line, then one line per card.
pub fn export_flashcards_anki_text(flashcards: &Vec<Flashcard>) -> (s: String)
    ensures
        s@ == anki_export_text(plain_texts(flashcards@)),
{
    let mut out: Vec<char> = Vec::new();
    append_str(&mut out, "#separator:tab\n#html:false\n\n");
    let mut i: usize = 0;
    while i < flashcards.len()
        invariant
            i <= flashcards.len(),
            out@ == anki_export_text(plain_texts(flashcards@.take(i as int))),
        decreases flashcards.len() - i,
    {
        let card = &flashcards[i];
        let ghost before = out@;
        append_str(&mut out, card.front.as_str());
        append_str(&mut out, "\t");
        append_str(&mut out, card.back.as_str());
        append_str(&mut out, "\n");
        proof {
            reveal_strlit("\t");
            reveal_strlit("\n");
            let xs = plain_texts(flashcards@.take(i as int));
            let e = (flashcards@[i as int].front@, flashcards@[i as int].back@);
            assert(plain_texts(flashcards@.take(i + 1)) =~= xs.push(e));
            assert(xs.push(e).drop_last() =~= xs);
            assert(out@ =~= before + e.0 + seq!['\t'] + e.1 + seq!['\n']);
        }
        i = i + 1;
    }
    proof {
        assert(flashcards@.take(flashcards@.len() as int) =~= flashcards@);
    }
    string_from_chars(out.as_slice())
}

} // verus!
