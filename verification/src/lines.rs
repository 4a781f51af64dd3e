//! Texts as lines.

use crate::snippets::is_one_line;
use crate::text::joined;
use vstd::prelude::*;

verus! {

/// The lines of a text: what stands between its line breaks.
pub open spec fn lines(text: Seq<char>) -> Seq<Seq<char>>
    decreases text.len(),
{
    if text.len() == 0 {
        seq![Seq::empty()]
    } else {
        let front = lines(text.drop_last());
        if text.last() == '\n' {
            front.push(Seq::empty())
        } else {
            front.drop_last().push(front.last().push(text.last()))
        }
    }
}

/// `part` stands at this place of the text, from the start of a line to the end of one.
pub open spec fn stands_alone_at(text: Seq<char>, part: Seq<char>, at: int) -> bool {
    let end = at + part.len();
    &&& 0 <= at && end <= text.len()
    &&& text.subrange(at, end) == part
    &&& at == 0 || text[at - 1] == '\n'
    &&& end == text.len() || text[end] == '\n'
}

/// `part` stands in the text, from the start of a line to the end of one.
pub open spec fn stands_alone(text: Seq<char>, part: Seq<char>) -> bool {
    exists|at: int| stands_alone_at(text, part, at)
}

/// The line stands at this place and at no other.
pub open spec fn is_only_place(lines: Seq<Seq<char>>, line: Seq<char>, at: int) -> bool {
    &&& 0 <= at < lines.len()
    &&& lines[at] == line
    &&& forall|i: int| 0 <= i < lines.len() && #[trigger] lines[i] == line ==> i == at
}

/// Each of the wanted lines is there once, and they follow one another in this order, other lines
/// between them aside.
pub open spec fn stand_in_turn(lines: Seq<Seq<char>>, wanted: Seq<Seq<char>>) -> bool {
    exists|places: Seq<int>|
        {
            &&& #[trigger] places.len() == wanted.len()
            &&& forall|k: int|
                0 <= k < wanted.len() ==> is_only_place(lines, wanted[k], #[trigger] places[k])
            &&& forall|j: int, k: int|
                0 <= j < k < wanted.len() ==> #[trigger] places[j] < #[trigger] places[k]
        }
}

/// The lines of two texts with a line break between them are the lines of the one and the other.
pub proof fn law_lines_of_two_texts(front: Seq<char>, back: Seq<char>)
    ensures
        lines(front + seq!['\n'] + back) == lines(front) + lines(back),
    decreases back.len(),
{
    let text = front + seq!['\n'] + back;
    law_a_text_has_a_line(back);
    if back.len() == 0 {
        assert(text.drop_last() =~= front);
        assert(lines(text) =~= lines(front) + lines(back));
    } else {
        let rest = back.drop_last();
        law_lines_of_two_texts(front, rest);
        law_a_text_has_a_line(rest);
        assert(text.drop_last() =~= front + seq!['\n'] + rest);
        assert(text.last() == back.last());
        let before = lines(front) + lines(rest);
        assert(before.last() == lines(rest).last());
        assert(before.drop_last() =~= lines(front) + lines(rest).drop_last());
        assert(lines(text) =~= lines(front) + lines(back));
    }
}

/// Every text has a line, be it an empty one.
pub proof fn law_a_text_has_a_line(text: Seq<char>)
    ensures
        lines(text).len() > 0,
    decreases text.len(),
{
    if text.len() > 0 {
        law_a_text_has_a_line(text.drop_last());
    }
}

/// A text without line breaks is one line.
pub proof fn law_one_line(text: Seq<char>)
    requires
        is_one_line(text),
    ensures
        lines(text) == seq![text],
    decreases text.len(),
{
    if text.len() == 0 {
        assert(text =~= Seq::empty());
    } else {
        law_one_line(text.drop_last());
        assert(lines(text) =~= seq![text.drop_last().push(text.last())]);
        assert(text.drop_last().push(text.last()) =~= text);
    }
}

/// Lines that are joined by line breaks are read as the same lines.
pub proof fn law_joined_lines_are_read_back(given: Seq<Seq<char>>)
    requires
        given.len() > 0,
        forall|i: int| 0 <= i < given.len() ==> is_one_line(#[trigger] given[i]),
    ensures
        lines(joined(given, "\n"@)) == given,
    decreases given.len(),
{
    reveal_strlit("\n");
    assert("\n"@ =~= seq!['\n']);
    assert(is_one_line(given[given.len() - 1]));
    law_one_line(given.last());
    if given.len() == 1 {
        assert(given =~= seq![given[0]]);
    } else {
        let rest = given.drop_last();
        law_joined_lines_are_read_back(rest);
        law_lines_of_two_texts(joined(rest, "\n"@), given.last());
        assert(rest + seq![given.last()] =~= given);
    }
}

/// Of texts that are joined by line breaks each stands there from the start of a line to the end of
/// one, whatever it holds.
pub proof fn law_joined_texts_stand_alone(given: Seq<Seq<char>>, i: int)
    requires
        0 <= i < given.len(),
    ensures
        stands_alone(joined(given, "\n"@), given[i]),
    decreases given.len(),
{
    reveal_strlit("\n");
    let text = joined(given, "\n"@);
    if given.len() == 1 {
        assert(text.subrange(0, text.len() as int) =~= text);
        assert(stands_alone_at(text, given[i], 0));
    } else {
        let rest = given.drop_last();
        let front = joined(rest, "\n"@);
        let last = given.last();
        if i == given.len() - 1 {
            let at = front.len() as int + 1;
            assert(text.subrange(at, text.len() as int) =~= last);
            assert(stands_alone_at(text, given[i], at));
        } else {
            law_joined_texts_stand_alone(rest, i);
            let at = choose|at: int| stands_alone_at(front, rest[i], at);
            let end = at + given[i].len();
            assert(text.subrange(at, end) =~= front.subrange(at, end));
            assert(stands_alone_at(text, given[i], at));
        }
    }
}

/// What stands alone in a text still does where whole lines are put before and behind it.
pub proof fn law_standing_alone_in_more(
    before: Seq<char>,
    text: Seq<char>,
    behind: Seq<char>,
    part: Seq<char>,
)
    requires
        stands_alone(text, part),
        before.len() == 0 || before.last() == '\n',
        behind.len() == 0 || behind.first() == '\n',
    ensures
        stands_alone(before + text + behind, part),
{
    let at = choose|at: int| stands_alone_at(text, part, at);
    let more = before + text + behind;
    let from = before.len() + at;
    assert(more.subrange(from, from + part.len()) =~= text.subrange(at, at + part.len()));
    assert(stands_alone_at(more, part, from));
}

} // verus!
