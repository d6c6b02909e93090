//! Character-level string helpers and the splitting rules that the import
//! formats are defined by.

use vstd::prelude::*;

verus! {

broadcast use vstd::string::group_string_axioms;

/// Appends one character to a string (`String::push` of std).
#[verifier::external_body]
fn push_char(s: &mut String, c: char)
    ensures
        final(s)@ == old(s)@.push(c),
{
    s.push(c);
}

/// The characters of a string, in order.
pub fn chars_of(s: &str) -> (v: Vec<char>)
    ensures
        v@ == s@,
{
    let mut v: Vec<char> = Vec::new();
    for c in it: s.chars()
        invariant
            v@ == it.seq().take(it.index() as int),
    {
        v.push(c);
    }
    v
}

/// A string made of the given characters.
pub fn string_from_chars(v: &[char]) -> (s: String)
    ensures
        s@ == v@,
{
    let mut s = String::new();
    let mut i: usize = 0;
    while i < v.len()
        invariant
            i <= v.len(),
            s@ == v@.take(i as int),
        decreases v.len() - i,
    {
        push_char(&mut s, v[i]);
        i = i + 1;
        proof {
            assert(v@.take(i as int) == v@.take((i - 1) as int).push(v@[i - 1]));
        }
    }
    proof {
        assert(v@.take(v@.len() as int) == v@);
    }
    s
}

} // verus!

verus! {

/// Views of a sequence of character vectors.
pub open spec fn views(vs: Seq<Vec<char>>) -> Seq<Seq<char>> {
    vs.map_values(|v: Vec<char>| v@)
}

/// Whether `p` occurs in `s` starting at index `i`.
pub open spec fn occurs_at(s: Seq<char>, p: Seq<char>, i: int) -> bool {
    0 <= i && i + p.len() <= s.len() && s.subrange(i, i + p.len()) == p
}

/// The first index at or after `from` where `p` occurs in `s`.
pub open spec fn find_from(s: Seq<char>, p: Seq<char>, from: int) -> Option<int>
    decreases s.len() - from,
{
    if from < 0 || from + p.len() > s.len() {
        None
    } else if occurs_at(s, p, from) {
        Some(from)
    } else {
        proof {
            if p.len() == 0 {
                assert(s.subrange(from, from) =~= p);
            }
        }
        find_from(s, p, from + 1)
    }
}

pub proof fn lemma_find_from_bounds(s: Seq<char>, p: Seq<char>, from: int)
    ensures
        find_from(s, p, from) matches Some(i) ==> from <= i && i + p.len() <= s.len()
            && occurs_at(s, p, i),
        find_from(s, p, from) matches Some(i) ==> forall|k: int|
            from <= k < i ==> !occurs_at(s, p, k),
        from >= 0 && find_from(s, p, from) is None ==> forall|k: int|
            from <= k ==> !occurs_at(s, p, k),
    decreases s.len() - from,
{
    if from < 0 || from + p.len() > s.len() {
    } else if occurs_at(s, p, from) {
    } else {
        if p.len() == 0 {
            assert(s.subrange(from, from) =~= p);
        }
        lemma_find_from_bounds(s, p, from + 1);
    }
}

/// The pieces of `s[start..]` between the non-overlapping occurrences of a
/// non-empty pattern `p`, found left to right.
pub open spec fn split_from(s: Seq<char>, p: Seq<char>, start: int) -> Seq<Seq<char>>
    decreases s.len() - start,
{
    if p.len() == 0 || start < 0 || start > s.len() {
        Seq::empty()
    } else {
        match find_from(s, p, start) {
            None => seq![s.subrange(start, s.len() as int)],
            Some(i) => {
                proof {
                    lemma_find_from_bounds(s, p, start);
                }
                seq![s.subrange(start, i)] + split_from(s, p, i + p.len())
            },
        }
    }
}

/// What `str::split` with the pattern string `p` yields on `s`: the pieces
/// between the occurrences of `p`; an empty pattern separates every
/// character, and the beginning and the end of the string.
pub open spec fn split_seq(s: Seq<char>, p: Seq<char>) -> Seq<Seq<char>> {
    if p.len() == 0 {
        seq![Seq::<char>::empty()] + s.map_values(|c: char| seq![c]) + seq![Seq::<char>::empty()]
    } else {
        split_from(s, p, 0)
    }
}

/// A copy of `s[a..b]`.
pub fn copy_range(s: &Vec<char>, a: usize, b: usize) -> (r: Vec<char>)
    requires
        a <= b <= s.len(),
    ensures
        r@ == s@.subrange(a as int, b as int),
{
    let mut r: Vec<char> = Vec::new();
    let mut i = a;
    while i < b
        invariant
            a <= i <= b <= s.len(),
            r@ == s@.subrange(a as int, i as int),
        decreases b - i,
    {
        r.push(s[i]);
        i = i + 1;
        proof {
            assert(r@ =~= s@.subrange(a as int, i as int));
        }
    }
    r
}

/// Whether `p` occurs in `s` at index `i`.
pub fn occurs_at_exec(s: &Vec<char>, p: &Vec<char>, i: usize) -> (b: bool)
    ensures
        b == occurs_at(s@, p@, i as int),
{
    if i > s.len() || p.len() > s.len() - i {
        return false;
    }
    let mut k: usize = 0;
    while k < p.len()
        invariant
            i + p.len() <= s.len(),
            k <= p.len(),
            forall|j: int| 0 <= j < k ==> s@[i + j] == p@[j],
        decreases p.len() - k,
    {
        if s[i + k] != p[k] {
            proof {
                assert(s@.subrange(i as int, i + p.len())[k as int] != p@[k as int]);
            }
            return false;
        }
        k = k + 1;
    }
    proof {
        assert(s@.subrange(i as int, i + p.len()) =~= p@);
    }
    true
}

/// The first occurrence of the non-empty pattern `p` in `s` at or after `from`.
pub fn find_from_exec(s: &Vec<char>, p: &Vec<char>, from: usize) -> (r: Option<usize>)
    requires
        p.len() > 0,
        from <= s.len(),
    ensures
        match r {
            None => find_from(s@, p@, from as int) is None,
            Some(i) => find_from(s@, p@, from as int) == Some(i as int),
        },
{
    let mut i = from;
    while i < s.len() && p.len() <= s.len() - i
        invariant
            p.len() > 0,
            from <= i <= s.len(),
            find_from(s@, p@, from as int) == find_from(s@, p@, i as int),
        decreases s.len() - i,
    {
        if occurs_at_exec(s, p, i) {
            return Some(i);
        }
        i = i + 1;
    }
    None
}

/// `str::split` of `s` by the pattern `p`, on characters.
pub fn split_exec(s: &Vec<char>, p: &Vec<char>) -> (pieces: Vec<Vec<char>>)
    ensures
        views(pieces@) == split_seq(s@, p@),
{
    let mut pieces: Vec<Vec<char>> = Vec::new();
    if p.len() == 0 {
        pieces.push(Vec::new());
        let mut i: usize = 0;
        while i < s.len()
            invariant
                i <= s.len(),
                views(pieces@) == seq![Seq::<char>::empty()] + s@.take(i as int).map_values(
                    |c: char| seq![c],
                ),
            decreases s.len() - i,
        {
            let mut one: Vec<char> = Vec::new();
            one.push(s[i]);
            let ghost before = views(pieces@);
            pieces.push(one);
            i = i + 1;
            proof {
                assert(one@ =~= seq![s@[i - 1]]);
                assert(views(pieces@) =~= before.push(seq![s@[i - 1]]));
                assert(s@.take(i as int).map_values(|c: char| seq![c]) =~= s@.take(
                    (i - 1) as int,
                ).map_values(|c: char| seq![c]).push(seq![s@[i - 1]]));
                assert(views(pieces@) =~= seq![Seq::<char>::empty()] + s@.take(
                    i as int,
                ).map_values(|c: char| seq![c]));
            }
        }
        pieces.push(Vec::new());
        proof {
            assert(s@.take(s@.len() as int) == s@);
            assert(views(pieces@) =~= split_seq(s@, p@));
        }
        return pieces;
    }
    let mut start: usize = 0;
    loop
        invariant
            p.len() > 0,
            start <= s.len(),
            views(pieces@) + split_from(s@, p@, start as int) == split_seq(s@, p@),
        decreases s.len() - start,
    {
        let found = find_from_exec(s, p, start);
        proof {
            lemma_find_from_bounds(s@, p@, start as int);
        }
        match found {
            None => {
                let piece = copy_range(s, start, s.len());
                let ghost before = views(pieces@);
                pieces.push(piece);
                proof {
                    assert(views(pieces@) =~= before.push(piece@));
                    assert(split_from(s@, p@, start as int) =~= seq![
                        s@.subrange(start as int, s@.len() as int),
                    ]);
                    assert(views(pieces@) =~= before + split_from(s@, p@, start as int));
                }
                return pieces;
            },
            Some(i) => {
                let piece = copy_range(s, start, i);
                let ghost before = views(pieces@);
                pieces.push(piece);
                proof {
                    assert(views(pieces@) =~= before.push(piece@));
                    assert(split_from(s@, p@, start as int) =~= seq![
                        s@.subrange(start as int, i as int),
                    ] + split_from(s@, p@, i + p@.len()));
                    assert(views(pieces@) + split_from(s@, p@, i + p@.len()) =~= before
                        + split_from(s@, p@, start as int));
                }
                start = i + p.len();
            },
        }
    }
}

} // verus!

verus! {

pub proof fn lemma_split_from_nonempty(s: Seq<char>, p: Seq<char>, start: int)
    requires
        p.len() > 0,
        0 <= start <= s.len(),
    ensures
        split_from(s, p, start).len() >= 1,
{
    lemma_find_from_bounds(s, p, start);
}

pub proof fn lemma_split_nonempty(s: Seq<char>, p: Seq<char>)
    ensures
        split_seq(s, p).len() >= 1,
{
    if p.len() > 0 {
        lemma_split_from_nonempty(s, p, 0);
    }
}

/// A line that the text continued after with a newline, as `BufRead::lines`
/// yields it: one carriage return before the newline is dropped.
pub open spec fn strip_cr(line: Seq<char>) -> Seq<char> {
    if line.len() > 0 && line.last() == '\r' {
        line.drop_last()
    } else {
        line
    }
}

/// The lines that `BufRead::lines` yields from `text`: the pieces between
/// newlines, each without a carriage return before its newline; the text after
/// the last newline is a line only when it is not empty.
pub open spec fn lines_of(text: Seq<char>) -> Seq<Seq<char>> {
    let pieces = split_seq(text, seq!['\n']);
    let ended = pieces.take(pieces.len() - 1).map_values(|l: Seq<char>| strip_cr(l));
    if pieces.last().len() == 0 {
        ended
    } else {
        ended.push(pieces.last())
    }
}

/// A copy of a line without the carriage return before its newline.
pub fn strip_cr_exec(line: &Vec<char>) -> (r: Vec<char>)
    ensures
        r@ == strip_cr(line@),
{
    if line.len() > 0 && line[line.len() - 1] == '\r' {
        copy_range(line, 0, line.len() - 1)
    } else {
        copy_range(line, 0, line.len())
    }
}

/// The lines of `text`, as `BufRead::lines` yields them.
pub fn lines_exec(text: &Vec<char>) -> (lines: Vec<Vec<char>>)
    ensures
        views(lines@) == lines_of(text@),
{
    let mut nl: Vec<char> = Vec::new();
    nl.push('\n');
    proof {
        assert(nl@ =~= seq!['\n']);
    }
    let pieces = split_exec(text, &nl);
    proof {
        lemma_split_nonempty(text@, nl@);
    }
    let n = pieces.len();
    let ghost ps = views(pieces@);
    let mut lines: Vec<Vec<char>> = Vec::new();
    let mut i: usize = 0;
    while i + 1 < n
        invariant
            n == pieces.len(),
            n >= 1,
            ps == views(pieces@),
            ps == split_seq(text@, seq!['\n']),
            i + 1 <= n,
            views(lines@) == ps.take(i as int).map_values(|l: Seq<char>| strip_cr(l)),
        decreases n - i,
    {
        let line = strip_cr_exec(&pieces[i]);
        let ghost before = views(lines@);
        lines.push(line);
        i = i + 1;
        proof {
            assert(ps[i - 1] == pieces@[i - 1]@);
            assert(views(lines@) =~= before.push(line@));
            assert(ps.take(i as int).map_values(|l: Seq<char>| strip_cr(l)) =~= ps.take(
                (i - 1) as int,
            ).map_values(|l: Seq<char>| strip_cr(l)).push(strip_cr(ps[i - 1])));
        }
    }
    let last = &pieces[n - 1];
    proof {
        assert(ps.last() == last@);
    }
    if last.len() > 0 {
        let copy = copy_range(last, 0, last.len());
        let ghost before = views(lines@);
        lines.push(copy);
        proof {
            assert(copy@ =~= last@);
            assert(views(lines@) =~= before.push(last@));
        }
    }
    lines
}

} // verus!

verus! {

/// The lines `ls`, each followed by the character `c`.
pub open spec fn join_terminated(ls: Seq<Seq<char>>, c: char) -> Seq<char>
    decreases ls.len(),
{
    if ls.len() == 0 {
        Seq::empty()
    } else {
        join_terminated(ls.drop_last(), c) + ls.last() + seq![c]
    }
}

/// The pieces `ls`, each followed by the separator `p`.
pub open spec fn join_ended(ls: Seq<Seq<char>>, p: Seq<char>) -> Seq<char>
    decreases ls.len(),
{
    if ls.len() == 0 {
        Seq::empty()
    } else {
        join_ended(ls.drop_last(), p) + ls.last() + p
    }
}

/// `join_ended`, built from the front.
pub open spec fn join_front(ls: Seq<Seq<char>>, p: Seq<char>) -> Seq<char>
    decreases ls.len(),
{
    if ls.len() == 0 {
        Seq::empty()
    } else {
        ls[0] + p + join_front(ls.drop_first(), p)
    }
}

proof fn lemma_join_front_push(ls: Seq<Seq<char>>, x: Seq<char>, p: Seq<char>)
    ensures
        join_front(ls.push(x), p) == join_front(ls, p) + x + p,
    decreases ls.len(),
{
    if ls.len() == 0 {
        assert(ls.push(x).drop_first() =~= Seq::<Seq<char>>::empty());
        assert(join_front(Seq::<Seq<char>>::empty(), p) == Seq::<char>::empty());
        assert(ls.push(x)[0] == x);
        assert(join_front(ls, p) == Seq::<char>::empty());
        assert(join_front(ls.push(x), p) =~= x + p);
    } else {
        assert(ls.push(x).drop_first() =~= ls.drop_first().push(x));
        lemma_join_front_push(ls.drop_first(), x, p);
        assert(join_front(ls.push(x), p) =~= join_front(ls, p) + x + p);
    }
}

proof fn lemma_join_ended_front(ls: Seq<Seq<char>>, p: Seq<char>)
    ensures
        join_ended(ls, p) == join_front(ls, p),
    decreases ls.len(),
{
    if ls.len() > 0 {
        lemma_join_ended_front(ls.drop_last(), p);
        lemma_join_front_push(ls.drop_last(), ls.last(), p);
        assert(ls.drop_last().push(ls.last()) =~= ls);
    }
}

proof fn lemma_join_terminated_ended(ls: Seq<Seq<char>>, c: char)
    ensures
        join_terminated(ls, c) == join_ended(ls, seq![c]),
    decreases ls.len(),
{
    if ls.len() > 0 {
        lemma_join_terminated_ended(ls.drop_last(), c);
    }
}

/// No occurrence of `p` starts where its first character is missing.
proof fn lemma_no_occurrence_without_first(s: Seq<char>, p: Seq<char>, k: int)
    requires
        p.len() > 0,
        0 <= k < s.len(),
        s[k] != p[0],
    ensures
        !occurs_at(s, p, k),
{
    if occurs_at(s, p, k) {
        assert(s.subrange(k, k + p.len())[0] == s[k]);
    }
}

proof fn lemma_find_first(s: Seq<char>, p: Seq<char>, start: int, n: int)
    requires
        p.len() > 0,
        0 <= start,
        0 <= n,
        forall|k: int| start <= k < start + n ==> s[k] != p[0],
        occurs_at(s, p, start + n),
    ensures
        find_from(s, p, start) == Some(start + n),
    decreases n,
{
    if n > 0 {
        lemma_no_occurrence_without_first(s, p, start);
        lemma_find_first(s, p, start + 1, n - 1);
    }
}

proof fn lemma_find_none(s: Seq<char>, p: Seq<char>, start: int)
    requires
        p.len() > 0,
        0 <= start <= s.len(),
        forall|k: int| start <= k < s.len() ==> s[k] != p[0],
    ensures
        find_from(s, p, start) is None,
    decreases s.len() - start,
{
    if start + p.len() <= s.len() {
        lemma_no_occurrence_without_first(s, p, start);
        lemma_find_none(s, p, start + 1);
    }
}

proof fn lemma_split_from_front(
    s: Seq<char>,
    p: Seq<char>,
    start: int,
    ls: Seq<Seq<char>>,
    last: Seq<char>,
)
    requires
        p.len() > 0,
        0 <= start <= s.len(),
        s.subrange(start, s.len() as int) == join_front(ls, p) + last,
        forall|i: int| 0 <= i < ls.len() ==> !(#[trigger] ls[i]).contains(p[0]),
        !last.contains(p[0]),
    ensures
        split_from(s, p, start) == ls.push(last),
    decreases ls.len(),
{
    let rest = s.subrange(start, s.len() as int);
    if ls.len() == 0 {
        assert forall|k: int| start <= k < s.len() implies s[k] != p[0] by {
            assert(rest[k - start] == s[k]);
            assert(last[k - start] == s[k]);
        }
        lemma_find_none(s, p, start);
        assert(split_from(s, p, start) =~= seq![last]);
        assert(ls.push(last) =~= seq![last]);
    } else {
        let a = ls[0];
        let n = a.len() as int;
        let m = p.len() as int;
        assert(rest =~= a + (p + (join_front(ls.drop_first(), p) + last)));
        assert forall|k: int| start <= k < start + n implies s[k] != p[0] by {
            assert(rest[k - start] == s[k]);
            assert(a[k - start] == s[k]);
            assert(a.contains(s[k]));
        }
        assert(s.subrange(start + n, start + n + m) =~= p) by {
            assert forall|j: int| 0 <= j < m implies s[start + n + j] == p[j] by {
                assert(rest[n + j] == s[start + n + j]);
            }
        }
        lemma_find_first(s, p, start, n);
        assert(s.subrange(start, start + n) =~= a);
        let s2 = s.subrange(start + n + m, s.len() as int);
        assert(s2 =~= join_front(ls.drop_first(), p) + last) by {
            assert forall|k: int| 0 <= k < s2.len() implies s2[k] == (join_front(
                ls.drop_first(),
                p,
            ) + last)[k] by {
                assert(rest[n + m + k] == s[start + n + m + k]);
            }
        }
        assert forall|i: int| 0 <= i < ls.drop_first().len() implies !(
        #[trigger] ls.drop_first()[i]).contains(p[0]) by {
            assert(ls.drop_first()[i] == ls[i + 1]);
        }
        lemma_split_from_front(s, p, start + n + m, ls.drop_first(), last);
        assert(split_from(s, p, start) == seq![a] + ls.drop_first().push(last));
        assert(seq![a] + ls.drop_first().push(last) =~= ls.push(last));
    }
}

/// Splitting pieces, each ended by the separator `p`, and a last piece by
/// `p` gives back the pieces and the last piece, when no piece holds the
/// first character of `p`.
pub proof fn lemma_split_ended(ls: Seq<Seq<char>>, last: Seq<char>, p: Seq<char>)
    requires
        p.len() > 0,
        forall|i: int| 0 <= i < ls.len() ==> !(#[trigger] ls[i]).contains(p[0]),
        !last.contains(p[0]),
    ensures
        split_seq(join_ended(ls, p) + last, p) == ls.push(last),
{
    let s = join_ended(ls, p) + last;
    lemma_join_ended_front(ls, p);
    assert(s.subrange(0, s.len() as int) =~= s);
    lemma_split_from_front(s, p, 0, ls, last);
}

/// Splitting lines, each ended by `c`, and a last piece, none of which holds
/// `c`, by `c` gives back the lines and the last piece.
pub proof fn lemma_split_terminated(ls: Seq<Seq<char>>, last: Seq<char>, c: char)
    requires
        forall|i: int| 0 <= i < ls.len() ==> !(#[trigger] ls[i]).contains(c),
        !last.contains(c),
    ensures
        split_seq(join_terminated(ls, c) + last, seq![c]) == ls.push(last),
{
    lemma_join_terminated_ended(ls, c);
    assert(seq![c][0] == c);
    lemma_split_ended(ls, last, seq![c]);
}

} // verus!
