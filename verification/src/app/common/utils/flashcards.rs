use vstd::prelude::*;

use crate::app::common::models::flashcard::{
    field_text, Flashcard, FlashcardField, FlashcardStatus, SerializableMemoryState,
};
use crate::app::common::utils::fsrs_scheduler::{
    rating_for_status, rating_of, state_for, NextStates,
};
use crate::text::{
    chars_of, join_ended, join_terminated, lemma_split_ended, lemma_split_terminated, lines_exec,
    lines_of, split_exec, split_seq, string_from_chars, strip_cr, views,
};

verus! {

broadcast use vstd::string::group_string_axioms;

/// The day since the epoch that a time in seconds since the epoch falls on,
/// as an `i32` (the `as` cast wraps on overflow).
pub open spec fn day_of_secs(secs: u64) -> i32 {
    (secs / 86400) as i32
}

/// Seconds since the Unix epoch, from the system clock
/// (`SystemTime::now().duration_since(UNIX_EPOCH)` of std); `None` when the
/// clock reads earlier than the epoch. Nothing is claimed of the value,
/// which depends on the clock.
#[verifier::external_body]
fn now_secs() -> (secs: Option<u64>) {
    std::time::SystemTime::now().duration_since(std::time::UNIX_EPOCH).ok().map(|d| d.as_secs())
}

/// The day since the epoch that a time in seconds since the epoch falls on.
pub fn day_from_secs(secs: u64) -> (day: i32)
    ensures
        day == day_of_secs(secs),
{
    (secs / 86400) as i32
}

/// The current day since the epoch, by the system clock (`day_from_secs`
/// of the clock's reading); `None` when the clock reads earlier than the
/// epoch. Nothing is claimed of the reading.
pub fn current_day() -> (day: Option<i32>) {
    match now_secs() {
        Some(secs) => Some(day_from_secs(secs)),
        None => None,
    }
}

/// A pair of texts, by their views.
pub open spec fn pair_view(p: (String, String)) -> (Seq<char>, Seq<char>) {
    (p.0@, p.1@)
}

/// Pairs of texts, by their views.
pub open spec fn pair_views(ps: Seq<(String, String)>) -> Seq<(Seq<char>, Seq<char>)> {
    ps.map_values(|p: (String, String)| pair_view(p))
}

/// The front and back texts of a card as lists and exports show them.
pub open spec fn card_texts(card: Flashcard) -> (Seq<char>, Seq<char>) {
    (field_text(card.front), field_text(card.back))
}

/// The front and back texts of each card.
pub open spec fn cards_texts(cards: Seq<Flashcard>) -> Seq<(Seq<char>, Seq<char>)> {
    cards.map_values(|c: Flashcard| card_texts(c))
}

/// A card read from an import: a new, unrated, unscheduled card whose sides
/// are the given texts.
pub open spec fn is_imported_card(card: Flashcard, texts: (Seq<char>, Seq<char>)) -> bool {
    &&& card.id is None
    &&& card.front matches FlashcardField::Text(f) && f@ == texts.0
    &&& card.back matches FlashcardField::Text(b) && b@ == texts.1
    &&& card.status == FlashcardStatus::Unrated
    &&& card.fsrs_state is None
    &&& card.due_date is None
    &&& card.last_reviewed is None
}

/// The first two of the pieces of a line: a line yields a card only when it
/// holds the separator between terms.
pub open spec fn first_two(parts: Seq<Seq<char>>) -> Option<(Seq<char>, Seq<char>)> {
    if parts.len() >= 2 {
        Some((parts[0], parts[1]))
    } else {
        None
    }
}

/// The (front, back) texts that the custom import reads from `content`: the
/// content is split by the separator between cards, each piece by the
/// separator between terms, and each piece with at least two terms gives its
/// first two.
pub open spec fn import_pairs(line_delimiter: Seq<char>, term_delimiter: Seq<char>, content: Seq<
    char,
>) -> Seq<(Seq<char>, Seq<char>)> {
    split_seq(content, line_delimiter).filter_map(line_terms(term_delimiter))
}

/// The map from a line of the custom import to its first two terms.
pub open spec fn line_terms(term_delimiter: Seq<char>) -> spec_fn(Seq<char>) -> Option<
    (Seq<char>, Seq<char>),
> {
    |line: Seq<char>| first_two(split_seq(line, term_delimiter))
}

/// The front and back of the line of an Anki text export, when the line has
/// exactly one tab.
pub open spec fn tab_pair(line: Seq<char>) -> Option<(Seq<char>, Seq<char>)> {
    let parts = split_seq(line, seq!['\t']);
    if parts.len() == 2 {
        Some((parts[0], parts[1]))
    } else {
        None
    }
}

/// The (front, back) texts of an Anki text export: its first three lines
/// are metadata; every later line with exactly one tab is a card.
pub open spec fn anki_pairs(text: Seq<char>) -> Seq<(Seq<char>, Seq<char>)> {
    let lines = lines_of(text);
    if lines.len() <= 3 {
        Seq::empty()
    } else {
        lines.skip(3).filter_map(|line: Seq<char>| tab_pair(line))
    }
}

/// The separator that the export writes between the front and the back of a card.
pub open spec fn export_term_separator() -> Seq<char> {
    seq!['\\', '#', '*', '#', '\\']
}

/// One card of the export: `front\#*#\back`, a newline, `/#` and a newline.
pub open spec fn export_entry(p: (Seq<char>, Seq<char>)) -> Seq<char> {
    p.0 + export_term_separator() + p.1 + seq!['\n', '/', '#', '\n']
}

/// The text of the export of the given cards.
pub open spec fn export_text(pairs: Seq<(Seq<char>, Seq<char>)>) -> Seq<char>
    decreases pairs.len(),
{
    if pairs.len() == 0 {
        Seq::empty()
    } else {
        export_text(pairs.drop_last()) + export_entry(pairs.last())
    }
}

/// One card of the Anki export: front, a tab, back and a newline.
pub open spec fn anki_entry(p: (Seq<char>, Seq<char>)) -> Seq<char> {
    p.0 + seq!['\t'] + p.1 + seq!['\n']
}

/// The cards of the Anki export, one line each.
pub open spec fn anki_body(pairs: Seq<(Seq<char>, Seq<char>)>) -> Seq<char>
    decreases pairs.len(),
{
    if pairs.len() == 0 {
        Seq::empty()
    } else {
        anki_body(pairs.drop_last()) + anki_entry(pairs.last())
    }
}

/// The metadata lines that start the Anki export: the tab separator, no HTML,
/// and an empty line.
pub open spec fn anki_header() -> Seq<char> {
    "#separator:tab\n#html:false\n\n"@
}

/// The text of the Anki export of the given cards.
pub open spec fn anki_export_text(pairs: Seq<(Seq<char>, Seq<char>)>) -> Seq<char> {
    anki_header() + anki_body(pairs)
}

/// Appends the characters of `s`.
pub fn append_str(out: &mut Vec<char>, s: &str)
    ensures
        final(out)@ == old(out)@ + s@,
{
    let mut c = chars_of(s);
    out.append(&mut c);
}

/// The (front, back) texts that the custom import reads from `content`.
pub fn parse_import_pairs(line_delimiter: &str, term_delimiter: &str, content: &str) -> (pairs: Vec<
    (String, String),
>)
    ensures
        pair_views(pairs@) == import_pairs(line_delimiter@, term_delimiter@, content@),
{
    let ld = chars_of(line_delimiter);
    let td = chars_of(term_delimiter);
    let text = chars_of(content);
    let lines = split_exec(&text, &ld);
    let ghost ls = views(lines@);
    let ghost f = line_terms(term_delimiter@);
    let mut pairs: Vec<(String, String)> = Vec::new();
    let mut i: usize = 0;
    while i < lines.len()
        invariant
            i <= lines.len(),
            ls == views(lines@),
            ls == split_seq(content@, line_delimiter@),
            f == line_terms(term_delimiter@),
            td@ == term_delimiter@,
            pair_views(pairs@) == ls.take(i as int).filter_map(f),
        decreases lines.len() - i,
    {
        let parts = split_exec(&lines[i], &td);
        let ghost before = pair_views(pairs@);
        let ghost pv = views(parts@);
        proof {
            assert(ls.take(i + 1).drop_last() =~= ls.take(i as int));
            assert(ls.take(i + 1).last() == lines@[i as int]@);
            assert(ls[i as int] == lines@[i as int]@);
            assert(f(ls[i as int]) == first_two(pv));
            if pv.len() >= 2 {
                assert(pv[0] == parts@[0]@);
                assert(pv[1] == parts@[1]@);
            }
        }
        if parts.len() >= 2 {
            let front = string_from_chars(parts[0].as_slice());
            let back = string_from_chars(parts[1].as_slice());
            pairs.push((front, back));
            proof {
                assert(pair_views(pairs@) =~= before + seq![(parts@[0]@, parts@[1]@)]);
            }
        } else {
            proof {
                assert(pair_views(pairs@) =~= before);
            }
        }
        i = i + 1;
    }
    proof {
        assert(ls.take(lines.len() as int) =~= ls);
    }
    pairs
}

/// Custom import into Oboete flashcards: the cards that `content` holds,
/// cards separated by `line_delimiter`, front and back by `term_delimiter`.
pub fn parse_import_content(line_delimiter: &String, term_delimiter: &String, content: &str) -> (cards: Vec<
    Flashcard,
>)
    ensures
        cards.len() == import_pairs(line_delimiter@, term_delimiter@, content@).len(),
        forall|i: int|
            0 <= i < cards.len() ==> is_imported_card(
                #[trigger] cards@[i],
                import_pairs(line_delimiter@, term_delimiter@, content@)[i],
            ),
{
    let pairs = parse_import_pairs(line_delimiter.as_str(), term_delimiter.as_str(), content);
    cards_from_pairs(pairs)
}

/// New unrated cards with the given texts, in order.
pub fn cards_from_pairs(pairs: Vec<(String, String)>) -> (cards: Vec<Flashcard>)
    ensures
        cards.len() == pairs.len(),
        forall|i: int|
            0 <= i < cards.len() ==> is_imported_card(
                #[trigger] cards@[i],
                pair_views(pairs@)[i],
            ),
{
    let ghost ps = pair_views(pairs@);
    let n = pairs.len();
    let mut cards: Vec<Flashcard> = Vec::new();
    let mut rest = pairs;
    // Walk the pairs from the back, then put the cards in order.
    let mut reversed: Vec<Flashcard> = Vec::new();
    while rest.len() > 0
        invariant
            rest.len() + reversed.len() == n,
            ps.len() == n,
            forall|k: int| 0 <= k < rest.len() ==> pair_view(#[trigger] rest@[k]) == ps[k],
            forall|k: int|
                0 <= k < reversed.len() ==> is_imported_card(
                    #[trigger] reversed@[k],
                    ps[n - 1 - k],
                ),
        decreases rest.len(),
    {
        let (front, back) = rest.pop().unwrap();
        reversed.push(Flashcard::from_texts(front, back));
    }
    while reversed.len() > 0
        invariant
            reversed.len() + cards.len() == n,
            ps.len() == n,
            forall|k: int|
                0 <= k < reversed.len() ==> is_imported_card(
                    #[trigger] reversed@[k],
                    ps[n - 1 - k],
                ),
            forall|k: int| 0 <= k < cards.len() ==> is_imported_card(#[trigger] cards@[k], ps[k]),
        decreases reversed.len(),
    {
        let card = reversed.pop().unwrap();
        cards.push(card);
    }
    cards
}

} // verus!

verus! {

/// What `percent_decode_str(s).decode_utf8_lossy()` of the percent-encoding
/// crate gives for `s`.
pub uninterp spec fn percent_decoded(s: Seq<char>) -> Seq<char>;

/// `percent_encoding::percent_decode_str(s).decode_utf8_lossy()`: decodes each
/// `%` followed by two hexadecimal digits into its byte, then reads the bytes
/// as UTF-8, replacing invalid sequences. The result is named, and a text
/// without `%` is claimed to come back unchanged (every byte passes through
/// and the bytes of a `&str` are valid UTF-8).
#[verifier::external_body]
fn percent_decode_lossy(s: &str) -> (r: String)
    ensures
        r@ == percent_decoded(s@),
        !s@.contains('%') ==> r@ == s@,
{
    percent_encoding::percent_decode_str(s).decode_utf8_lossy().to_string()
}

/// The file path that a file chooser reported, percent-decoded.
pub fn decode_selected_path(path: &str) -> (r: String)
    ensures
        r@ == percent_decoded(path@),
        !path@.contains('%') ==> r@ == path@,
{
    percent_decode_lossy(path)
}

/// The map from a line of an Anki export to the card it holds.
pub open spec fn tab_pair_fn() -> spec_fn(Seq<char>) -> Option<(Seq<char>, Seq<char>)> {
    |line: Seq<char>| tab_pair(line)
}

/// The (front, back) texts of an Anki text export.
pub fn parse_anki_pairs(content: &str) -> (pairs: Vec<(String, String)>)
    ensures
        pair_views(pairs@) == anki_pairs(content@),
{
    let text = chars_of(content);
    let lines = lines_exec(&text);
    let ghost ls = views(lines@);
    let mut pairs: Vec<(String, String)> = Vec::new();
    if lines.len() <= 3 {
        proof {
            assert(pair_views(pairs@) =~= Seq::<(Seq<char>, Seq<char>)>::empty());
        }
        return pairs;
    }
    let mut tab: Vec<char> = Vec::new();
    tab.push('\t');
    proof {
        assert(tab@ =~= seq!['\t']);
    }
    let ghost body = ls.skip(3);
    let mut i: usize = 3;
    while i < lines.len()
        invariant
            3 <= i <= lines.len(),
            ls == views(lines@),
            ls == lines_of(content@),
            body == ls.skip(3),
            tab@ == seq!['\t'],
            pair_views(pairs@) == body.take(i - 3).filter_map(tab_pair_fn()),
        decreases lines.len() - i,
    {
        let parts = split_exec(&lines[i], &tab);
        let ghost before = pair_views(pairs@);
        let ghost pv = views(parts@);
        proof {
            assert(body.take(i - 2).drop_last() =~= body.take(i - 3));
            assert(body.take(i - 2).last() == lines@[i as int]@);
            assert(tab_pair_fn()(lines@[i as int]@) == tab_pair(lines@[i as int]@));
            if pv.len() == 2 {
                assert(pv[0] == parts@[0]@);
                assert(pv[1] == parts@[1]@);
            }
        }
        if parts.len() == 2 {
            let front = string_from_chars(parts[0].as_slice());
            let back = string_from_chars(parts[1].as_slice());
            pairs.push((front, back));
            proof {
                assert(pair_views(pairs@) =~= before + seq![(parts@[0]@, parts@[1]@)]);
            }
        } else {
            proof {
                assert(pair_views(pairs@) =~= before);
            }
        }
        i = i + 1;
    }
    proof {
        assert(body.take(lines.len() - 3) =~= body);
    }
    pairs
}

/// The cards of an Anki text export: the first three lines are metadata,
/// every later line with exactly one tab is a new card.
pub fn parse_anki_content(content: &str) -> (cards: Vec<Flashcard>)
    ensures
        cards.len() == anki_pairs(content@).len(),
        forall|i: int|
            0 <= i < cards.len() ==> is_imported_card(#[trigger] cards@[i], anki_pairs(content@)[i]),
{
    let pairs = parse_anki_pairs(content);
    cards_from_pairs(pairs)
}

/// The path of the Anki export file: the chosen path with `.txt` added.
pub fn anki_export_path(file_path: &str) -> (p: String)
    ensures
        p@ == file_path@ + ".txt"@,
{
    let mut out = chars_of(file_path);
    append_str(&mut out, ".txt");
    string_from_chars(out.as_slice())
}

/// The text of the export of the given cards.
pub fn export_flashcards_text(flashcards: &[Flashcard]) -> (s: String)
    ensures
        s@ == export_text(cards_texts(flashcards@)),
{
    let mut out: Vec<char> = Vec::new();
    let mut i: usize = 0;
    while i < flashcards.len()
        invariant
            i <= flashcards.len(),
            out@ == export_text(cards_texts(flashcards@.take(i as int))),
        decreases flashcards.len() - i,
    {
        let card = &flashcards[i];
        let ghost before = out@;
        append_str(&mut out, card.front.text().as_str());
        append_str(&mut out, "\\#*#\\");
        append_str(&mut out, card.back.text().as_str());
        append_str(&mut out, "\n/#\n");
        proof {
            reveal_strlit("\\#*#\\");
            reveal_strlit("\n/#\n");
            assert(cards_texts(flashcards@.take(i + 1)) =~= cards_texts(
                flashcards@.take(i as int),
            ).push(card_texts(flashcards@[i as int])));
            assert(out@ =~= before + export_entry(card_texts(flashcards@[i as int])));
            let ghost xs = cards_texts(flashcards@.take(i as int));
            assert(xs.push(card_texts(flashcards@[i as int])).drop_last() =~= xs);
            assert(export_text(xs.push(card_texts(flashcards@[i as int]))) == export_text(xs) + export_entry(
                card_texts(flashcards@[i as int]),
            ));
        }
        i = i + 1;
    }
    proof {
        assert(flashcards@.take(flashcards@.len() as int) =~= flashcards@);
    }
    string_from_chars(out.as_slice())
}

/// The text of the Anki export of the given cards.
pub fn export_flashcards_anki_text(flashcards: &[Flashcard]) -> (s: String)
    ensures
        s@ == anki_export_text(cards_texts(flashcards@)),
{
    let mut out: Vec<char> = Vec::new();
    append_str(&mut out, "#separator:tab\n#html:false\n\n");
    let mut i: usize = 0;
    while i < flashcards.len()
        invariant
            i <= flashcards.len(),
            out@ == anki_header() + anki_body(cards_texts(flashcards@.take(i as int))),
        decreases flashcards.len() - i,
    {
        let card = &flashcards[i];
        let ghost before = out@;
        append_str(&mut out, card.front.text().as_str());
        append_str(&mut out, "\t");
        append_str(&mut out, card.back.text().as_str());
        append_str(&mut out, "\n");
        proof {
            reveal_strlit("\t");
            reveal_strlit("\n");
            assert(cards_texts(flashcards@.take(i + 1)) =~= cards_texts(
                flashcards@.take(i as int),
            ).push(card_texts(flashcards@[i as int])));
            assert(out@ =~= before + anki_entry(card_texts(flashcards@[i as int])));
            let ghost xs = cards_texts(flashcards@.take(i as int));
            assert(xs.push(card_texts(flashcards@[i as int])).drop_last() =~= xs);
            assert(anki_body(xs.push(card_texts(flashcards@[i as int]))) == anki_body(xs) + anki_entry(
                card_texts(flashcards@[i as int]),
            ));
        }
        i = i + 1;
    }
    proof {
        assert(flashcards@.take(flashcards@.len() as int) =~= flashcards@);
    }
    string_from_chars(out.as_slice())
}

} // verus!

verus! {

/// A front text that an Anki export line carries unchanged: no tab, no newline.
pub open spec fn anki_safe_front(t: Seq<char>) -> bool {
    !t.contains('\t') && !t.contains('\n')
}

/// A back text that an Anki export line carries unchanged: no tab, no
/// newline, and no carriage return at its end (the reader drops one before a
/// newline).
pub open spec fn anki_safe_back(t: Seq<char>) -> bool {
    !t.contains('\t') && !t.contains('\n') && !(t.len() > 0 && t.last() == '\r')
}

/// The lines of the Anki export that carry the cards.
pub open spec fn anki_lines(pairs: Seq<(Seq<char>, Seq<char>)>) -> Seq<Seq<char>> {
    pairs.map_values(|p: (Seq<char>, Seq<char>)| p.0 + seq!['\t'] + p.1)
}

proof fn lemma_anki_body_lines(pairs: Seq<(Seq<char>, Seq<char>)>)
    ensures
        anki_body(pairs) == join_terminated(anki_lines(pairs), '\n'),
    decreases pairs.len(),
{
    if pairs.len() > 0 {
        lemma_anki_body_lines(pairs.drop_last());
        assert(anki_lines(pairs).drop_last() =~= anki_lines(pairs.drop_last()));
        assert(anki_body(pairs) =~= join_terminated(anki_lines(pairs), '\n'));
    }
}

proof fn lemma_join_terminated_concat(a: Seq<Seq<char>>, b: Seq<Seq<char>>, c: char)
    ensures
        join_terminated(a + b, c) == join_terminated(a, c) + join_terminated(b, c),
    decreases b.len(),
{
    if b.len() == 0 {
        assert(a + b =~= a);
        assert(join_terminated(b, c) == Seq::<char>::empty());
        assert(join_terminated(a, c) + join_terminated(b, c) =~= join_terminated(a, c));
    } else {
        lemma_join_terminated_concat(a, b.drop_last(), c);
        assert((a + b).drop_last() =~= a + b.drop_last());
        assert((a + b).last() == b.last());
        assert(join_terminated(a + b, c) =~= join_terminated(a, c) + join_terminated(b, c));
    }
}

proof fn lemma_filter_map_all_some<A, B>(xs: Seq<A>, ys: Seq<B>, f: spec_fn(A) -> Option<B>)
    requires
        xs.len() == ys.len(),
        forall|i: int| 0 <= i < xs.len() ==> f(#[trigger] xs[i]) == Some(ys[i]),
    ensures
        xs.filter_map(f) == ys,
    decreases xs.len(),
{
    if xs.len() > 0 {
        lemma_filter_map_all_some(xs.drop_last(), ys.drop_last(), f);
        assert(f(xs[xs.len() - 1]) == Some(ys[ys.len() - 1]));
        assert(xs.filter_map(f) =~= ys.drop_last() + seq![ys.last()]);
        assert(ys.drop_last() + seq![ys.last()] =~= ys);
    }
}

proof fn lemma_tab_pair_of_line(front: Seq<char>, back: Seq<char>)
    requires
        !front.contains('\t'),
        !back.contains('\t'),
    ensures
        tab_pair(front + seq!['\t'] + back) == Some((front, back)),
{
    let ls = seq![front];
    assert(ls.drop_last() =~= Seq::<Seq<char>>::empty());
    assert(join_terminated(ls.drop_last(), '\t') == Seq::<char>::empty());
    assert(join_terminated(ls, '\t') =~= front + seq!['\t']);
    assert forall|i: int| 0 <= i < ls.len() implies !(#[trigger] ls[i]).contains('\t') by {
        assert(ls[i] == front);
    }
    lemma_split_terminated(ls, back, '\t');
    assert(ls.push(back) =~= seq![front, back]);
}

/// The separator that the export writes after each card.
pub open spec fn export_line_separator() -> Seq<char> {
    seq!['\n', '/', '#', '\n']
}

/// A text that the export carries unchanged through the custom import with
/// the export's separators: no newline and no backslash.
pub open spec fn export_safe(t: Seq<char>) -> bool {
    !t.contains('\n') && !t.contains('\\')
}

/// The cards of the export without their ending separators.
pub open spec fn export_lines(pairs: Seq<(Seq<char>, Seq<char>)>) -> Seq<Seq<char>> {
    pairs.map_values(|p: (Seq<char>, Seq<char>)| p.0 + export_term_separator() + p.1)
}

proof fn lemma_export_text_ended(pairs: Seq<(Seq<char>, Seq<char>)>)
    ensures
        export_text(pairs) == join_ended(export_lines(pairs), export_line_separator()),
    decreases pairs.len(),
{
    if pairs.len() > 0 {
        lemma_export_text_ended(pairs.drop_last());
        assert(export_lines(pairs).drop_last() =~= export_lines(pairs.drop_last()));
        assert(export_text(pairs) =~= join_ended(export_lines(pairs), export_line_separator()));
    }
}

proof fn lemma_no_char_in_concat(a: Seq<char>, b: Seq<char>, c: char)
    requires
        !a.contains(c),
        !b.contains(c),
    ensures
        !(a + b).contains(c),
{
    if (a + b).contains(c) {
        let k = choose|k: int| 0 <= k < (a + b).len() && (a + b)[k] == c;
        if k < a.len() {
            assert(a[k] == c);
        } else {
            assert(b[k - a.len()] == c);
        }
    }
}

proof fn lemma_terms_of_export_line(front: Seq<char>, back: Seq<char>)
    requires
        !front.contains('\\'),
        !back.contains('\\'),
    ensures
        line_terms(export_term_separator())(front + export_term_separator() + back) == Some(
            (front, back),
        ),
{
    let sep = export_term_separator();
    let ls = seq![front];
    assert(ls.drop_last() =~= Seq::<Seq<char>>::empty());
    assert(join_ended(ls.drop_last(), sep) == Seq::<char>::empty());
    assert(join_ended(ls, sep) =~= front + sep);
    assert(sep[0] == '\\');
    assert forall|i: int| 0 <= i < ls.len() implies !(#[trigger] ls[i]).contains(sep[0]) by {
        assert(ls[i] == front);
    }
    lemma_split_ended(ls, back, sep);
    assert(ls.push(back) =~= seq![front, back]);
}

/// Importing the export of cards with the custom import, with the export's
/// separators (a newline, `/#` and a newline between cards, `\#*#\`
/// between terms), gives back their texts, in order, when no text holds a
/// newline or a backslash.
pub proof fn lemma_export_import_roundtrip(pairs: Seq<(Seq<char>, Seq<char>)>)
    requires
        forall|i: int| 0 <= i < pairs.len() ==> export_safe(#[trigger] pairs[i].0) && export_safe(pairs[i].1),
    ensures
        import_pairs(export_line_separator(), export_term_separator(), export_text(pairs)) == pairs,
{
    let sep = export_term_separator();
    let line_sep = export_line_separator();
    let es = export_lines(pairs);
    lemma_export_text_ended(pairs);
    assert(line_sep[0] == '\n');
    assert forall|i: int| 0 <= i < es.len() implies !(#[trigger] es[i]).contains(line_sep[0]) by {
        let p = pairs[i];
        assert(es[i] == p.0 + sep + p.1);
        assert(!sep.contains('\n')) by {
            if sep.contains('\n') {
                let k = choose|k: int| 0 <= k < sep.len() && sep[k] == '\n';
                assert(sep[k] != '\n');
            }
        }
        lemma_no_char_in_concat(p.0, sep, '\n');
        lemma_no_char_in_concat(p.0 + sep, p.1, '\n');
    }
    let empty = Seq::<char>::empty();
    assert(export_text(pairs) + empty =~= export_text(pairs));
    lemma_split_ended(es, empty, line_sep);
    let pieces = split_seq(export_text(pairs), line_sep);
    assert(pieces == es.push(empty));
    let f = line_terms(sep);
    assert(f(empty) is None) by {
        let none = Seq::<Seq<char>>::empty();
        assert(join_ended(none, sep) + empty =~= empty);
        assert(sep[0] == '\\');
        lemma_split_ended(none, empty, sep);
        assert(split_seq(empty, sep) =~= seq![empty]);
    }
    assert(pieces.drop_last() =~= es);
    assert(pieces.filter_map(f) == es.filter_map(f));
    assert forall|i: int| 0 <= i < es.len() implies f(#[trigger] es[i]) == Some(pairs[i]) by {
        lemma_terms_of_export_line(pairs[i].0, pairs[i].1);
    }
    lemma_filter_map_all_some(es, pairs, f);
}

/// Importing the Anki export of cards gives back their texts, in order, when
/// no text holds a tab or a newline and no back text ends with a carriage
/// return.
#[verifier::spinoff_prover]
#[verifier::rlimit(40)]
pub proof fn lemma_anki_roundtrip(pairs: Seq<(Seq<char>, Seq<char>)>)
    requires
        forall|i: int|
            0 <= i < pairs.len() ==> anki_safe_front(#[trigger] pairs[i].0) && anki_safe_back(
                pairs[i].1,
            ),
    ensures
        anki_pairs(anki_export_text(pairs)) == pairs,
{
    reveal_strlit("#separator:tab\n#html:false\n\n");
    reveal_strlit("#separator:tab");
    reveal_strlit("#html:false");
    let h0 = "#separator:tab"@;
    let h1 = "#html:false"@;
    let hl = seq![h0, h1, Seq::<char>::empty()];
    assert(join_terminated(hl, '\n') =~= anki_header()) by {
        reveal_with_fuel(join_terminated, 4);
        assert(hl.drop_last().drop_last().drop_last() =~= Seq::<Seq<char>>::empty());
        assert(hl.drop_last().drop_last() =~= seq![h0]);
        assert(hl.drop_last() =~= seq![h0, h1]);
        assert(join_terminated(seq![h0], '\n') =~= h0 + seq!['\n']);
        assert(join_terminated(seq![h0, h1], '\n') =~= h0 + seq!['\n'] + h1 + seq!['\n']);
        assert(join_terminated(hl, '\n') =~= h0 + seq!['\n'] + h1 + seq!['\n'] + seq!['\n']);
        assert(h0.len() == 14);
        assert(h1.len() == 11);
    }
    let es = anki_lines(pairs);
    lemma_anki_body_lines(pairs);
    lemma_join_terminated_concat(hl, es, '\n');
    let all = hl + es;
    let text = anki_export_text(pairs);
    assert(text =~= join_terminated(all, '\n') + Seq::<char>::empty());
    assert forall|i: int| 0 <= i < all.len() implies !(#[trigger] all[i]).contains('\n') by {
        if i < 3 {
            if i == 0 {
                assert(all[i] == h0);
            } else if i == 1 {
                assert(all[i] == h1);
            } else {
                assert(all[i] == Seq::<char>::empty());
            }
        } else {
            let p = pairs[i - 3];
            assert(all[i] == p.0 + seq!['\t'] + p.1);
            if all[i].contains('\n') {
                let k = choose|k: int| 0 <= k < all[i].len() && all[i][k] == '\n';
                if k < p.0.len() {
                    assert(p.0[k] == '\n');
                    assert(p.0.contains('\n'));
                } else if k > p.0.len() {
                    assert(p.1[k - p.0.len() - 1] == '\n');
                    assert(p.1.contains('\n'));
                }
            }
        }
    }
    lemma_split_terminated(all, Seq::<char>::empty(), '\n');
    let pieces = split_seq(text, seq!['\n']);
    assert(pieces == all.push(Seq::<char>::empty()));
    assert(pieces.take(pieces.len() - 1) =~= all);
    assert(all.map_values(|l: Seq<char>| strip_cr(l)) =~= all) by {
        assert forall|i: int| 0 <= i < all.len() implies strip_cr(all[i]) == all[i] by {
            if i >= 3 {
                let p = pairs[i - 3];
                assert(all[i] == p.0 + seq!['\t'] + p.1);
                if p.1.len() > 0 {
                    assert(all[i].last() == p.1.last());
                } else {
                    assert(all[i].last() == '\t');
                }
            } else if i == 0 {
                assert(all[i] == h0);
            } else if i == 1 {
                assert(all[i] == h1);
            }
        }
    }
    let lines = lines_of(text);
    assert(lines == all);
    if pairs.len() == 0 {
        assert(lines.len() == 3);
        assert(anki_pairs(text) =~= pairs);
    } else {
        assert(lines.skip(3) =~= es);
        assert forall|i: int| 0 <= i < es.len() implies tab_pair_fn()(#[trigger] es[i]) == Some(
            pairs[i],
        ) by {
            lemma_tab_pair_of_line(pairs[i].0, pairs[i].1);
        }
        lemma_filter_map_all_some(es, pairs, tab_pair_fn());
    }
}

} // verus!

verus! {

/// The days since the last review, as the scheduler takes them: the
/// difference in days, cast to `u32` (a negative difference wraps); a card
/// never reviewed counts zero days.
pub open spec fn elapsed_days(current: i32, last_reviewed: Option<i32>) -> u32 {
    match last_reviewed {
        Some(last) => (current - last) as u32,
        None => 0,
    }
}

/// Days since the last review of a card, for the scheduler.
pub fn days_elapsed(current: i32, last_reviewed: Option<i32>) -> (days: u32)
    requires
        last_reviewed matches Some(last) ==> i32::MIN <= current - last <= i32::MAX,
    ensures
        days == elapsed_days(current, last_reviewed),
{
    match last_reviewed {
        Some(last) => (current - last) as u32,
        None => 0,
    }
}

/// The interval in days that a rating gets when the scheduler fails.
pub open spec fn fallback_interval(status: FlashcardStatus) -> i32 {
    match status {
        FlashcardStatus::Bad => 1,
        FlashcardStatus::Okay => 3,
        FlashcardStatus::Great => 7,
        FlashcardStatus::Easy => 12,
        FlashcardStatus::Unrated => 1,
    }
}

/// An interval of at least one day, so that a card is never due again on the
/// day it was studied.
pub open spec fn effective_interval(interval_days: i32) -> i32 {
    if interval_days < 1 {
        1
    } else {
        interval_days
    }
}

/// The memory state a card gets after a review: the scheduler's, or, when the
/// scheduler failed, a default one built from the fallback interval (stability
/// equal to the interval, difficulty 5), which the caller builds in `f32`.
#[derive(Debug, Clone, Copy, PartialEq, Eq, Structural)]
pub enum NewMemory {
    Scheduled(SerializableMemoryState),
    Fallback { interval_days: i32 },
}

/// The due date of an update of a card rated `status` on day `current`
/// fits in an `i32`: the day plus the interval of the rated state, or plus
/// the fallback interval when the scheduler failed.
pub open spec fn due_dates_fit(status: FlashcardStatus, current: i32, next_states: Option<NextStates>) -> bool {
    match next_states {
        Some(n) => match rating_of(status) {
            Some(r) => current + effective_interval(state_for(n, r).interval_days) <= i32::MAX,
            None => true,
        },
        None => current + fallback_interval(status) <= i32::MAX,
    }
}

/// Whether `current` plus the effective interval of `days` fits in an `i32`.
fn interval_fits(current: i32, days: i32) -> (b: bool)
    ensures
        b == (current + effective_interval(days) <= i32::MAX),
{
    let d: i64 = if days < 1 {
        1
    } else {
        days as i64
    };
    (current as i64) + d <= i32::MAX as i64
}

/// Whether the due date of an update of a card rated `status` on day
/// `current` fits in an `i32`.
pub fn review_dates_fit(status: FlashcardStatus, current: i32, next_states: &Option<NextStates>) -> (b: bool)
    ensures
        b == due_dates_fit(status, current, *next_states),
{
    match next_states {
        Some(n) => match rating_for_status(status) {
            Some(r) => interval_fits(current, n.state(r).interval_days),
            None => true,
        },
        None => {
            let interval: i32 = match status {
                FlashcardStatus::Bad => 1,
                FlashcardStatus::Okay => 3,
                FlashcardStatus::Great => 7,
                FlashcardStatus::Easy => 12,
                FlashcardStatus::Unrated => 1,
            };
            interval_fits(current, interval)
        },
    }
}

/// The new memory state and due date of a card rated `status` on day
/// `current`, given the scheduler's proposal (`None` when it failed).
pub open spec fn fsrs_update(
    status: FlashcardStatus,
    current: i32,
    next_states: Option<NextStates>,
) -> Option<(NewMemory, i32)> {
    match next_states {
        Some(n) => match rating_of(status) {
            None => None,
            Some(r) => Some(
                (
                    NewMemory::Scheduled(state_for(n, r).memory),
                    (current + effective_interval(state_for(n, r).interval_days)) as i32,
                ),
            ),
        },
        None => Some(
            (
                NewMemory::Fallback { interval_days: fallback_interval(status) },
                (current + fallback_interval(status)) as i32,
            ),
        ),
    }
}

/// Updated FSRS data for a card rated `selected_state` on day `current`:
/// the scheduler's state for the rating, or a fallback when the scheduler
/// failed, with a due date at least one day after `current`. An unrated
/// status gets no update when the scheduler succeeded.
pub fn update_fsrs_data(
    selected_state: &FlashcardStatus,
    current: i32,
    next_states: Option<NextStates>,
) -> (r: Option<(NewMemory, i32)>)
    requires
        due_dates_fit(*selected_state, current, next_states),
    ensures
        r == fsrs_update(*selected_state, current, next_states),
        r matches Some((_, due)) ==> due > current,
{
    match next_states {
        Some(n) => {
            let rating = match rating_for_status(*selected_state) {
                Some(rating) => rating,
                None => return None,
            };
            let state = n.state(rating);
            let interval = if state.interval_days < 1 {
                1
            } else {
                state.interval_days
            };
            Some((NewMemory::Scheduled(state.memory), current + interval))
        },
        None => {
            let interval: i32 = match selected_state {
                FlashcardStatus::Bad => 1,
                FlashcardStatus::Okay => 3,
                FlashcardStatus::Great => 7,
                FlashcardStatus::Easy => 12,
                FlashcardStatus::Unrated => 1,
            };
            Some((NewMemory::Fallback { interval_days: interval }, current + interval))
        },
    }
}

} // verus!

verus! {

/// The interval of the scheduler's state for each rated status: bad takes
/// the "again" state, ok the "hard" one, great the "good" one, easy the
/// "easy" one.
pub proof fn lemma_scheduled_review(status: FlashcardStatus, current: i32, n: NextStates)
    ensures
        status == FlashcardStatus::Unrated ==> fsrs_update(status, current, Some(n)) is None,
        status != FlashcardStatus::Unrated ==> ({
            let st = match status {
                FlashcardStatus::Bad => n.again,
                FlashcardStatus::Okay => n.hard,
                FlashcardStatus::Great => n.good,
                _ => n.easy,
            };
            let days: int = if st.interval_days < 1 {
                1
            } else {
                st.interval_days as int
            };
            current + days <= i32::MAX ==> fsrs_update(status, current, Some(n)) == Some(
                (NewMemory::Scheduled(st.memory), (current + days) as i32),
            )
        }),
{
}

/// When the scheduler succeeds, a rated card is due again after exactly the
/// scheduler's interval for its rating, or after one day when that interval
/// is under a day; the interval has no other bound.
pub proof fn lemma_scheduled_due_date(status: FlashcardStatus, current: i32, n: NextStates)
    requires
        status != FlashcardStatus::Unrated,
        ({
            let st = match status {
                FlashcardStatus::Bad => n.again,
                FlashcardStatus::Okay => n.hard,
                FlashcardStatus::Great => n.good,
                _ => n.easy,
            };
            current + (if st.interval_days < 1 { 1 } else { st.interval_days as int }) <= i32::MAX
        }),
    ensures
        fsrs_update(status, current, Some(n)) matches Some((_, due)) && ({
            let st = match status {
                FlashcardStatus::Bad => n.again,
                FlashcardStatus::Okay => n.hard,
                FlashcardStatus::Great => n.good,
                _ => n.easy,
            };
            &&& due >= current + st.interval_days
            &&& due >= current + 1
            &&& due <= current + st.interval_days || due == current + 1
        }),
{
    lemma_scheduled_review(status, current, n);
}

/// When the scheduler fails, a card is due again after the fallback interval
/// of its status: 1 day for bad and unrated, 3 for ok, 7 for great, 12 for
/// easy, with a memory state built from that interval.
pub proof fn lemma_fallback_review(status: FlashcardStatus, current: i32)
    requires
        current + 12 <= i32::MAX,
    ensures
        ({
            let days: i32 = match status {
                FlashcardStatus::Bad => 1,
                FlashcardStatus::Okay => 3,
                FlashcardStatus::Great => 7,
                FlashcardStatus::Easy => 12,
                FlashcardStatus::Unrated => 1,
            };
            fsrs_update(status, current, None) == Some(
                (NewMemory::Fallback { interval_days: days }, (current + days) as i32),
            )
        }),
{
}

} // verus!
