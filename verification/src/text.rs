//! Sequences of characters: joining with spaces, splitting on spaces,
//! removing the fence character, and trimming white space.

use vstd::prelude::*;

verus! {

/// The character that stands between two arguments of an objective and
/// between two tokens of a command line.
pub const SEPARATOR: char = ' ';

/// The character with which the completion service may fence the command.
pub const FENCE: char = '`';

/// `String::push` of std: the character is appended to the end of the
/// string, and nothing else of it changes.
pub assume_specification[ String::push ](s: &mut String, c: char)
    ensures
        final(s)@ == old(s)@.push(c),
;

/// The texts of a list of strings.
pub open spec fn texts(parts: Seq<String>) -> Seq<Seq<char>> {
    parts.map_values(|p: String| p@)
}

/// The parts in their order, with one separator between each two.
pub open spec fn joined(parts: Seq<Seq<char>>) -> Seq<char>
    decreases parts.len(),
{
    if parts.len() == 0 {
        Seq::empty()
    } else if parts.len() == 1 {
        parts[0]
    } else {
        joined(parts.drop_last()) + seq![SEPARATOR] + parts.last()
    }
}

/// Joining a part in front of others puts it first, then a separator, then
/// the others joined.
pub proof fn lemma_joined_front(first: Seq<char>, rest: Seq<Seq<char>>)
    requires
        rest.len() > 0,
    ensures
        joined(seq![first] + rest) == first + seq![SEPARATOR] + joined(rest),
    decreases rest.len(),
{
    let whole = seq![first] + rest;
    if rest.len() == 1 {
        assert(whole.drop_last() =~= seq![first]);
        assert(joined(seq![first]) == first);
        assert(whole.last() == rest[0]);
    } else {
        lemma_joined_front(first, rest.drop_last());
        assert(whole.drop_last() =~= seq![first] + rest.drop_last());
        assert(whole.last() == rest.last());
        assert(joined(whole) =~= first + seq![SEPARATOR] + joined(rest));
    }
}

/// Joins the parts with single spaces.
pub fn join_with_spaces(parts: &Vec<String>) -> (line: String)
    ensures
        line@ == joined(texts(parts@)),
{
    let mut line = String::new();
    let mut i: usize = 0;
    while i < parts.len()
        invariant
            i <= parts.len(),
            line@ == joined(texts(parts@).take(i as int)),
        decreases parts.len() - i,
    {
        proof {
            let next = texts(parts@).take(i + 1);
            assert(next.drop_last() =~= texts(parts@).take(i as int));
            assert(next.last() == parts@[i as int]@);
        }
        if i > 0 {
            line.push(SEPARATOR);
        }
        line.append(parts[i].as_str());
        i += 1;
    }
    proof {
        assert(texts(parts@).take(parts.len() as int) =~= texts(parts@));
    }
    line
}

/// The place of the first separator in the text, or its length where it
/// holds none.
pub open spec fn first_separator(s: Seq<char>) -> int
    decreases s.len(),
{
    if s.len() == 0 || s[0] == SEPARATOR {
        0
    } else {
        1 + first_separator(s.drop_first())
    }
}

/// The pieces between the separators of the text, in their order: one more
/// than it holds separators, so the empty text has one empty piece, and two
/// separators in a row have an empty piece between them.
pub open spec fn pieces(s: Seq<char>) -> Seq<Seq<char>>
    decreases s.len(),
{
    let at = first_separator(s);
    if 0 <= at < s.len() {
        seq![s.take(at)] + pieces(s.skip(at + 1))
    } else {
        seq![s]
    }
}

/// `first_separator` is where it says: within the text, behind characters
/// that are no separators, and on a separator unless it is the end.
pub proof fn lemma_first_separator(s: Seq<char>)
    ensures
        0 <= first_separator(s) <= s.len(),
        forall|j: int| 0 <= j < first_separator(s) ==> s[j] != SEPARATOR,
        first_separator(s) < s.len() ==> s[first_separator(s)] == SEPARATOR,
    decreases s.len(),
{
    if s.len() == 0 || s[0] == SEPARATOR {
    } else {
        let rest = s.drop_first();
        lemma_first_separator(rest);
        assert forall|j: int| 0 <= j < first_separator(s) implies s[j] != SEPARATOR by {
            if j > 0 {
                assert(s[j] == rest[j - 1]);
            }
        }
        if first_separator(s) < s.len() {
            assert(s[first_separator(s)] == rest[first_separator(rest)]);
        }
    }
}

/// A text whose first separator stands at `at` splits there.
pub proof fn lemma_pieces_at_separator(s: Seq<char>, at: int)
    requires
        0 <= at < s.len(),
        s[at] == SEPARATOR,
        forall|j: int| 0 <= j < at ==> s[j] != SEPARATOR,
    ensures
        pieces(s) == seq![s.take(at)] + pieces(s.skip(at + 1)),
{
    lemma_first_separator(s);
}

/// A text without a separator is one piece.
pub proof fn lemma_pieces_without_separator(s: Seq<char>)
    requires
        forall|j: int| 0 <= j < s.len() ==> s[j] != SEPARATOR,
    ensures
        pieces(s) == seq![s],
{
    lemma_first_separator(s);
}

/// Splitting loses nothing: the pieces of a text, joined, are the text.
pub proof fn lemma_joined_pieces(s: Seq<char>)
    ensures
        pieces(s).len() >= 1,
        joined(pieces(s)) == s,
    decreases s.len(),
{
    lemma_first_separator(s);
    let at = first_separator(s);
    if at < s.len() {
        let rest = s.skip(at + 1);
        lemma_joined_pieces(rest);
        lemma_joined_front(s.take(at), pieces(rest));
        assert(s.take(at) + seq![SEPARATOR] + rest =~= s);
    }
}

/// No piece of a text holds a separator.
pub proof fn lemma_pieces_hold_no_separator(s: Seq<char>)
    ensures
        forall|i: int, j: int|
            0 <= i < pieces(s).len() && 0 <= j < pieces(s)[i].len() ==> pieces(s)[i][j]
                != SEPARATOR,
    decreases s.len(),
{
    lemma_first_separator(s);
    let at = first_separator(s);
    if at < s.len() {
        let rest = s.skip(at + 1);
        lemma_pieces_hold_no_separator(rest);
        assert forall|i: int, j: int|
            0 <= i < pieces(s).len() && 0 <= j < pieces(s)[i].len() implies pieces(s)[i][j]
            != SEPARATOR by {
            if i > 0 {
                assert(pieces(s)[i] == pieces(rest)[i - 1]);
            }
        }
    }
}

/// Joining loses nothing either: where there is at least one part and no
/// part holds a separator, the pieces of the joined text are the parts.
pub proof fn lemma_pieces_of_joined(parts: Seq<Seq<char>>)
    requires
        parts.len() >= 1,
        forall|i: int, j: int|
            0 <= i < parts.len() && 0 <= j < parts[i].len() ==> parts[i][j] != SEPARATOR,
    ensures
        pieces(joined(parts)) == parts,
    decreases parts.len(),
{
    let first = parts[0];
    if parts.len() == 1 {
        lemma_pieces_without_separator(first);
        assert(seq![first] =~= parts);
    } else {
        let rest = parts.drop_first();
        assert forall|i: int, j: int|
            0 <= i < rest.len() && 0 <= j < rest[i].len() implies rest[i][j] != SEPARATOR by {
            assert(rest[i] == parts[i + 1]);
        }
        lemma_pieces_of_joined(rest);
        assert(seq![first] + rest =~= parts);
        lemma_joined_front(first, rest);
        let line = joined(parts);
        let at = first.len() as int;
        assert(line == first + seq![SEPARATOR] + joined(rest));
        assert(line[at] == SEPARATOR);
        assert forall|j: int| 0 <= j < at implies line[j] != SEPARATOR by {
            assert(line[j] == parts[0][j]);
        }
        lemma_pieces_at_separator(line, at);
        assert(line.take(at) =~= first);
        assert(line.skip(at + 1) =~= joined(rest));
    }
}

/// Splits the text at every space.
pub fn split_on_spaces(s: &str) -> (parts: Vec<String>)
    ensures
        texts(parts@) == pieces(s@),
{
    let mut parts: Vec<String> = Vec::new();
    let mut current = String::new();
    let ghost mut start: int = 0;
    proof {
        assert(s@.skip(0) =~= s@);
        assert(texts(parts@) + pieces(s@) =~= pieces(s@));
    }
    for c in it: s.chars()
        invariant
            it.seq() == s@,
            0 <= start <= it.index() <= s@.len(),
            current@ == s@.subrange(start, it.index() as int),
            forall|j: int| start <= j < it.index() ==> s@[j] != SEPARATOR,
            pieces(s@) == texts(parts@) + pieces(s@.skip(start)),
    {
        let ghost i = it.index() as int;
        if c == SEPARATOR {
            proof {
                let rest = s@.skip(start);
                lemma_pieces_at_separator(rest, i - start);
                assert(rest.take(i - start) =~= current@);
                assert(rest.skip(i - start + 1) =~= s@.skip(i + 1));
                assert(texts(parts@.push(current)) =~= texts(parts@).push(current@));
            }
            parts.push(current);
            current = String::new();
            proof {
                start = i + 1;
                assert(s@.subrange(start, i + 1) =~= Seq::<char>::empty());
            }
        } else {
            current.push(c);
            proof {
                assert(s@.subrange(start, i + 1) =~= s@.subrange(start, i).push(c));
            }
        }
    }
    proof {
        let rest = s@.skip(start);
        lemma_pieces_without_separator(rest);
        assert(rest =~= current@);
        assert(texts(parts@.push(current)) =~= texts(parts@).push(current@));
    }
    parts.push(current);
    parts
}

/// The text without its fence characters.
pub open spec fn without_fence(s: Seq<char>) -> Seq<char> {
    s.filter(|c: char| c != FENCE)
}

/// Nothing is left without the fences exactly where the text holds nothing
/// but fences.
pub proof fn lemma_without_fence_empty(s: Seq<char>)
    ensures
        without_fence(s).len() == 0 <==> forall|j: int| 0 <= j < s.len() ==> s[j] == FENCE,
    decreases s.len(),
{
    reveal(Seq::filter);
    if s.len() > 0 {
        let front = s.drop_last();
        lemma_without_fence_empty(front);
        if without_fence(s).len() == 0 {
            assert forall|j: int| 0 <= j < s.len() implies s[j] == FENCE by {
                if j < s.len() - 1 {
                    assert(s[j] == front[j]);
                }
            }
        }
        if forall|j: int| 0 <= j < s.len() ==> s[j] == FENCE {
            assert forall|j: int| 0 <= j < front.len() implies front[j] == FENCE by {
                assert(front[j] == s[j]);
            }
            assert(s.last() == FENCE);
        }
    }
}

/// Removes every fence character.
pub fn strip_fence(s: &str) -> (cleaned: String)
    ensures
        cleaned@ == without_fence(s@),
{
    let mut cleaned = String::new();
    for c in it: s.chars()
        invariant
            it.seq() == s@,
            cleaned@ == without_fence(s@.take(it.index() as int)),
    {
        proof {
            let i = it.index() as int;
            assert(s@.take(i + 1).drop_last() =~= s@.take(i));
            reveal(Seq::filter);
        }
        if c != FENCE {
            cleaned.push(c);
        }
    }
    proof {
        assert(s@.take(s@.len() as int) =~= s@);
    }
    cleaned
}

/// Whether the character is white space: one of the code points that
/// Unicode gives the property `White_Space`.
pub open spec fn is_white_space(c: char) -> bool {
    ||| ('\u{9}' <= c && c <= '\u{d}')
    ||| c == ' '
    ||| c == '\u{85}'
    ||| c == '\u{a0}'
    ||| c == '\u{1680}'
    ||| ('\u{2000}' <= c && c <= '\u{200a}')
    ||| c == '\u{2028}'
    ||| c == '\u{2029}'
    ||| c == '\u{202f}'
    ||| c == '\u{205f}'
    ||| c == '\u{3000}'
}

/// Tells whether the character is white space.
pub fn is_white_space_char(c: char) -> (white: bool)
    ensures
        white == is_white_space(c),
{
    ('\u{9}' <= c && c <= '\u{d}') || c == ' ' || c == '\u{85}' || c == '\u{a0}' || c
        == '\u{1680}' || ('\u{2000}' <= c && c <= '\u{200a}') || c == '\u{2028}' || c
        == '\u{2029}' || c == '\u{202f}' || c == '\u{205f}' || c == '\u{3000}'
}

/// How many characters of white space the text begins with.
pub open spec fn leading_white_space(s: Seq<char>) -> int
    decreases s.len(),
{
    if s.len() > 0 && is_white_space(s[0]) {
        1 + leading_white_space(s.drop_first())
    } else {
        0
    }
}

/// How many characters of white space the text ends with.
pub open spec fn trailing_white_space(s: Seq<char>) -> int
    decreases s.len(),
{
    if s.len() > 0 && is_white_space(s.last()) {
        1 + trailing_white_space(s.drop_last())
    } else {
        0
    }
}

/// The text without the white space at its beginning and at its end. A text
/// of white space alone leaves nothing.
pub open spec fn trimmed(s: Seq<char>) -> Seq<char> {
    let from = leading_white_space(s);
    let to = s.len() - trailing_white_space(s);
    if from <= to {
        s.subrange(from, to)
    } else {
        Seq::empty()
    }
}

/// `leading_white_space` counts white space up to the first character that
/// is none.
pub proof fn lemma_leading_white_space(s: Seq<char>)
    ensures
        0 <= leading_white_space(s) <= s.len(),
        forall|j: int| 0 <= j < leading_white_space(s) ==> is_white_space(s[j]),
        leading_white_space(s) < s.len() ==> !is_white_space(s[leading_white_space(s)]),
    decreases s.len(),
{
    if s.len() > 0 && is_white_space(s[0]) {
        let rest = s.drop_first();
        lemma_leading_white_space(rest);
        assert forall|j: int| 0 <= j < leading_white_space(s) implies is_white_space(s[j]) by {
            if j > 0 {
                assert(s[j] == rest[j - 1]);
            }
        }
        if leading_white_space(s) < s.len() {
            assert(s[leading_white_space(s)] == rest[leading_white_space(rest)]);
        }
    }
}

/// `trailing_white_space` counts white space back to the last character that
/// is none.
pub proof fn lemma_trailing_white_space(s: Seq<char>)
    ensures
        0 <= trailing_white_space(s) <= s.len(),
        forall|j: int| s.len() - trailing_white_space(s) <= j < s.len() ==> is_white_space(s[j]),
        trailing_white_space(s) < s.len() ==> !is_white_space(
            s[s.len() - trailing_white_space(s) - 1],
        ),
    decreases s.len(),
{
    if s.len() > 0 && is_white_space(s.last()) {
        let rest = s.drop_last();
        lemma_trailing_white_space(rest);
        assert forall|j: int|
            s.len() - trailing_white_space(s) <= j < s.len() implies is_white_space(s[j]) by {
            if j < s.len() - 1 {
                assert(s[j] == rest[j]);
            }
        }
        if trailing_white_space(s) < s.len() {
            assert(s[s.len() - trailing_white_space(s) - 1] == rest[rest.len()
                - trailing_white_space(rest) - 1]);
        }
    }
}

/// Where all before `from` and all from `to` on is white space, and the
/// stretch between them neither begins nor ends with white space, that
/// stretch is the trimmed text.
pub proof fn lemma_trimmed_between(s: Seq<char>, from: int, to: int)
    requires
        0 <= from <= to <= s.len(),
        forall|j: int| 0 <= j < from ==> is_white_space(s[j]),
        forall|j: int| to <= j < s.len() ==> is_white_space(s[j]),
        from < to ==> !is_white_space(s[from]) && !is_white_space(s[to - 1]),
    ensures
        trimmed(s) == s.subrange(from, to),
{
    lemma_leading_white_space(s);
    lemma_trailing_white_space(s);
    let lead = leading_white_space(s);
    let trail = trailing_white_space(s);
    if from < to {
        if lead < from {
            assert(is_white_space(s[lead]));
        }
        if lead > from {
            assert(is_white_space(s[from]));
        }
        if s.len() - trail > to {
            assert(is_white_space(s[s.len() - trail - 1]));
        }
        if s.len() - trail < to {
            assert(is_white_space(s[to - 1]));
        }
    } else {
        if lead < s.len() {
            assert(is_white_space(s[lead]));
        }
        if trail < s.len() {
            assert(is_white_space(s[s.len() - trail - 1]));
        }
        assert(trimmed(s) =~= s.subrange(from, to));
    }
}

/// Removes the white space at the beginning and at the end of the text.
pub fn trim(s: &str) -> (kept: String)
    ensures
        kept@ == trimmed(s@),
{
    let mut kept = String::new();
    let mut pending = String::new();
    let mut started = false;
    let ghost mut from: int = 0;
    let ghost mut to: int = 0;
    for c in it: s.chars()
        invariant
            it.seq() == s@,
            0 <= from <= to <= it.index() <= s@.len(),
            kept@ == s@.subrange(from, to),
            pending@ == s@.subrange(to, it.index() as int),
            forall|j: int| 0 <= j < from ==> is_white_space(s@[j]),
            forall|j: int| to <= j < it.index() ==> is_white_space(s@[j]),
            from < to ==> !is_white_space(s@[from]) && !is_white_space(s@[to - 1]),
            from == to ==> from == it.index(),
            started <==> from < to,
    {
        let ghost i = it.index() as int;
        if !is_white_space_char(c) {
            kept.append(pending.as_str());
            kept.push(c);
            pending = String::new();
            started = true;
            proof {
                if from == to {
                    from = i;
                }
                to = i + 1;
                assert(kept@ =~= s@.subrange(from, to));
                assert(pending@ =~= s@.subrange(to, i + 1));
            }
        } else if started {
            pending.push(c);
            proof {
                assert(pending@ =~= s@.subrange(to, i + 1));
            }
        } else {
            proof {
                from = i + 1;
                to = i + 1;
                assert(kept@ =~= s@.subrange(from, to));
                assert(pending@ =~= s@.subrange(to, i + 1));
            }
        }
    }
    proof {
        lemma_trimmed_between(s@, from, to);
    }
    kept
}

} // verus!
