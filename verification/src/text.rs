//! Plain text: joining, trimming and decimal numbers.

use vstd::prelude::*;

verus! {

/// The lines put one behind the other, with `separator` between each two.
pub open spec fn joined(lines: Seq<Seq<char>>, separator: Seq<char>) -> Seq<char>
    decreases lines.len(),
{
    if lines.len() == 0 {
        Seq::empty()
    } else if lines.len() == 1 {
        lines[0]
    } else {
        joined(lines.drop_last(), separator) + separator + lines.last()
    }
}

/// Joins the lines, with `separator` between each two.
pub fn join(lines: &Vec<String>, separator: &str) -> (text: String)
    ensures
        text@ == joined(lines.deep_view(), separator@),
{
    let mut text: String = String::new();
    let ghost all = lines.deep_view();
    let mut i: usize = 0;
    while i < lines.len()
        invariant
            i <= lines.len(),
            all == lines.deep_view(),
            text@ == joined(all.take(i as int), separator@),
        decreases lines.len() - i,
    {
        if i > 0 {
            text.append(separator);
        }
        text.append(lines[i].as_str());
        proof {
            let more = all.take(i + 1);
            assert(more.drop_last() =~= all.take(i as int));
            assert(more.last() == lines@[i as int]@);
        }
        i = i + 1;
    }
    proof {
        assert(all.take(i as int) =~= all);
    }
    text
}

/// Joining adds a separator and the text for one text more, and nothing for the first.
pub proof fn law_joining_one_more(given: Seq<Seq<char>>, text: Seq<char>, separator: Seq<char>)
    ensures
        joined(Seq::<Seq<char>>::empty(), separator).len() == 0,
        joined(seq![text], separator) == text,
        given.len() > 0 ==> joined(given.push(text), separator) == joined(given, separator)
            + separator + text,
{
    assert(given.push(text).drop_last() =~= given);
}

/// `text` without the run of `c` at its front and the run of `c` at its end.
pub open spec fn trimmed(text: Seq<char>, c: char) -> Seq<char>
    decreases text.len(),
{
    if text.len() > 0 && text.first() == c {
        trimmed(text.drop_first(), c)
    } else if text.len() > 0 && text.last() == c {
        trimmed(text.drop_last(), c)
    } else {
        text
    }
}

/// A part of `text` that does not start or end with `c`, and outside of which there is nothing
/// but `c`, is the trimmed text.
proof fn lemma_trimmed_is(text: Seq<char>, c: char, from: int, to: int)
    requires
        0 <= from <= to <= text.len(),
        forall|k: int| 0 <= k < from ==> text[k] == c,
        forall|k: int| to <= k < text.len() ==> text[k] == c,
        from < to ==> text[from] != c && text[to - 1] != c,
    ensures
        trimmed(text, c) == text.subrange(from, to),
    decreases text.len(),
{
    if text.len() > 0 && text.first() == c {
        let rest = text.drop_first();
        if from > 0 {
            lemma_trimmed_is(rest, c, from - 1, to - 1);
            assert(rest.subrange(from - 1, to - 1) =~= text.subrange(from, to));
        } else {
            assert(to == 0);
            lemma_trimmed_is(rest, c, 0, 0);
            assert(rest.subrange(0, 0) =~= text.subrange(0, 0));
        }
    } else if text.len() > 0 && text.last() == c {
        let rest = text.drop_last();
        assert(from == 0);
        assert(to < text.len());
        lemma_trimmed_is(rest, c, from, to);
        assert(rest.subrange(from, to) =~= text.subrange(from, to));
    } else {
        if text.len() > 0 {
            assert(from == 0);
            assert(to == text.len());
        }
        assert(text.subrange(from, to) =~= text);
    }
}

/// Removes the slashes at the front and at the end of a text.
pub fn trim_slashes(text: &str) -> (rest: String)
    ensures
        rest@ == trimmed(text@, '/'),
{
    let chars = characters(text);
    let mut from: usize = 0;
    while from < chars.len() && chars[from] == '/'
        invariant
            from <= chars.len(),
            forall|k: int| 0 <= k < from ==> chars@[k] == '/',
        decreases chars.len() - from,
    {
        from = from + 1;
    }
    let mut to: usize = chars.len();
    while from < to && chars[to - 1] == '/'
        invariant
            from <= to <= chars.len(),
            from < chars.len() ==> chars@[from as int] != '/',
            forall|k: int| to <= k < chars.len() ==> chars@[k] == '/',
        decreases to,
    {
        to = to - 1;
    }
    proof {
        lemma_trimmed_is(text@, '/', from as int, to as int);
    }
    text.substring_char(from, to).to_string()
}

/// The characters of a text, one by one.
pub(crate) fn characters(text: &str) -> (chars: Vec<char>)
    ensures
        chars@ == text@,
{
    let mut chars: Vec<char> = Vec::new();
    for c in it: text.chars()
        invariant
            chars@ == it.seq().take(it.index() as int),
            it.seq() == text@,
    {
        chars.push(c);
    }
    proof {
        assert(chars@ =~= text@);
    }
    chars
}

/// The decimal digits of a number, without leading zeros.
pub open spec fn decimal(n: nat) -> Seq<char>
    decreases n,
{
    if n < 10 {
        seq!["0123456789"@[n as int]]
    } else {
        decimal(n / 10).push("0123456789"@[(n % 10) as int])
    }
}

/// Writes a number in decimal.
pub fn decimal_text(n: u64) -> (text: String)
    ensures
        text@ == decimal(n as nat),
    decreases n,
{
    proof {
        reveal_strlit("0123456789");
    }
    let mut text: String = if n < 10 {
        String::new()
    } else {
        decimal_text(n / 10)
    };
    let digit: usize = (n % 10) as usize;
    text.append("0123456789".substring_char(digit, digit + 1));
    proof {
        assert("0123456789"@.subrange(digit as int, digit + 1) =~= seq!["0123456789"@[digit as int]]);
        assert(text@ =~= decimal(n as nat));
    }
    text
}

/// A trimmed text neither starts nor ends with what was trimmed.
pub proof fn law_trimmed_edges(text: Seq<char>, c: char)
    ensures
        trimmed(text, c).len() > 0 ==> trimmed(text, c).first() != c && trimmed(text, c).last() != c,
    decreases text.len(),
{
    if text.len() > 0 && text.first() == c {
        law_trimmed_edges(text.drop_first(), c);
    } else if text.len() > 0 && text.last() == c {
        law_trimmed_edges(text.drop_last(), c);
    }
}

/// What is trimmed off is nothing but `c`: the rest is a part of the text, and before and behind it
/// stands no other character.
pub proof fn law_trimmed_is_a_part(text: Seq<char>, c: char)
    ensures
        exists|from: int, to: int|
            {
                &&& 0 <= from <= to <= text.len()
                &&& trimmed(text, c) == #[trigger] text.subrange(from, to)
                &&& forall|k: int| 0 <= k < from ==> text[k] == c
                &&& forall|k: int| to <= k < text.len() ==> text[k] == c
            },
{
    let (from, to) = lemma_trimmed_bounds(text, c);
    assert(trimmed(text, c) == text.subrange(from, to));
}

/// Where the rest starts and ends when a text is trimmed.
proof fn lemma_trimmed_bounds(text: Seq<char>, c: char) -> (bounds: (int, int))
    ensures
        0 <= bounds.0 <= bounds.1 <= text.len(),
        trimmed(text, c) == text.subrange(bounds.0, bounds.1),
        forall|k: int| 0 <= k < bounds.0 ==> text[k] == c,
        forall|k: int| bounds.1 <= k < text.len() ==> text[k] == c,
    decreases text.len(),
{
    if text.len() > 0 && text.first() == c {
        let rest = text.drop_first();
        let (from, to) = lemma_trimmed_bounds(rest, c);
        assert(rest.subrange(from, to) =~= text.subrange(from + 1, to + 1));
        assert forall|k: int| 0 <= k < text.len() && (k <= from || to < k) implies text[k] == c by {
            assert(k > 0 ==> text[k] == rest[k - 1]);
        }
        (from + 1, to + 1)
    } else if text.len() > 0 && text.last() == c {
        let rest = text.drop_last();
        let (from, to) = lemma_trimmed_bounds(rest, c);
        assert(rest.subrange(from, to) =~= text.subrange(from, to));
        assert forall|k: int| 0 <= k < text.len() && (k < from || to <= k) implies text[k] == c by {
            assert(k < rest.len() ==> text[k] == rest[k]);
        }
        (from, to)
    } else {
        assert(text.subrange(0, text.len() as int) =~= text);
        (0, text.len() as int)
    }
}

/// What is trimmed makes no difference where it is added at the front or at the end.
pub proof fn law_trimming_forgets_edges(text: Seq<char>, c: char)
    ensures
        trimmed(seq![c] + text, c) == trimmed(text, c),
        trimmed(text.push(c), c) == trimmed(text, c),
    decreases text.len(),
{
    assert((seq![c] + text).drop_first() =~= text);
    assert(text.push(c).drop_last() =~= text);
    if text.len() > 0 && text.first() == c {
        law_trimming_forgets_edges(text.drop_first(), c);
        assert(text.push(c).drop_first() =~= text.drop_first().push(c));
    } else if text.len() == 0 {
        assert(text.push(c).drop_first() =~= text);
    }
}

/// The number that a text of decimal digits stands for.
pub open spec fn decimal_value(digits: Seq<char>) -> nat
    decreases digits.len(),
{
    if digits.len() == 0 {
        0
    } else {
        10 * decimal_value(digits.drop_last()) + (digits.last() as int - '0' as int) as nat
    }
}

/// A number is written in digits, at least one, and does not start with a zero but for zero itself.
pub proof fn law_decimal_is_digits(n: nat)
    ensures
        decimal(n).len() > 0,
        forall|k: int| 0 <= k < decimal(n).len() ==> '0' <= #[trigger] decimal(n)[k] <= '9',
        n > 0 ==> decimal(n)[0] != '0',
        n == 0 ==> decimal(n).len() == 1,
    decreases n,
{
    reveal_strlit("0123456789");
    if n >= 10 {
        law_decimal_is_digits(n / 10);
        let front = decimal(n / 10);
        assert forall|k: int| 0 <= k < decimal(n).len() implies '0' <= #[trigger] decimal(n)[k]
            <= '9' by {
            assert(k < front.len() ==> decimal(n)[k] == front[k]);
        }
        assert(decimal(n)[0] == front[0]);
    }
}

/// A number that is written in decimal is read back as the same number.
pub proof fn law_decimal_reads_back(n: nat)
    ensures
        decimal_value(decimal(n)) == n,
    decreases n,
{
    reveal_strlit("0123456789");
    let digit = "0123456789"@[(n % 10) as int];
    assert(digit as int == '0' as int + n % 10);
    if n < 10 {
        assert(decimal(n).drop_last() =~= Seq::empty());
        assert(decimal_value(Seq::empty()) == 0);
    } else {
        law_decimal_reads_back(n / 10);
        assert(decimal(n).drop_last() =~= decimal(n / 10));
    }
}

} // verus!
