//! Building response text: decimal numerals and separated lists.

use vstd::prelude::*;

verus! {

/// The views of a list of strings, in order.
pub open spec fn texts(parts: Seq<String>) -> Seq<Seq<char>> {
    Seq::new(parts.len(), |i: int| parts[i]@)
}

/// The parts written one after another with `separator` between neighbours:
/// nothing before the first part and nothing after the last.
pub open spec fn joined(parts: Seq<Seq<char>>, separator: Seq<char>) -> Seq<char>
    decreases parts.len(),
{
    if parts.len() == 0 {
        Seq::empty()
    } else if parts.len() == 1 {
        parts[0]
    } else {
        joined(parts.drop_last(), separator) + separator + parts.last()
    }
}

/// The character that stands for a decimal digit.
pub open spec fn digit_char(digit: int) -> char {
    if digit == 0 {
        '0'
    } else if digit == 1 {
        '1'
    } else if digit == 2 {
        '2'
    } else if digit == 3 {
        '3'
    } else if digit == 4 {
        '4'
    } else if digit == 5 {
        '5'
    } else if digit == 6 {
        '6'
    } else if digit == 7 {
        '7'
    } else if digit == 8 {
        '8'
    } else {
        '9'
    }
}

/// The decimal numeral of a natural number: no sign, no leading zero.
pub open spec fn natural_text(value: nat) -> Seq<char>
    decreases value,
{
    if value < 10 {
        seq![digit_char(value as int)]
    } else {
        natural_text(value / 10).push(digit_char((value % 10) as int))
    }
}

/// The decimal numeral of an integer: a minus sign before negative values.
pub open spec fn integer_text(value: int) -> Seq<char> {
    if value < 0 {
        seq!['-'] + natural_text((-value) as nat)
    } else {
        natural_text(value as nat)
    }
}

/// Joining one part more: the separator goes in between unless the list was
/// empty.
pub proof fn lemma_joined_push(parts: Seq<Seq<char>>, part: Seq<char>, separator: Seq<char>)
    ensures
        joined(parts.push(part), separator) == if parts.len() == 0 {
            part
        } else {
            joined(parts, separator) + separator + part
        },
{
    assert(parts.push(part).drop_last() =~= parts);
}

/// `piece` stands somewhere in `whole`, character for character.
pub open spec fn occurs_in(piece: Seq<char>, whole: Seq<char>) -> bool {
    exists|at: int| occurs_at(piece, whole, at)
}

/// `piece` stands in `whole` from position `at` on.
pub open spec fn occurs_at(piece: Seq<char>, whole: Seq<char>, at: int) -> bool {
    0 <= at && at + piece.len() <= whole.len() && whole.subrange(at, at + piece.len()) == piece
}

/// What stands in a text still stands in it, further right, when something
/// is written before the text and something after it.
pub proof fn lemma_occurs_in_middle(
    piece: Seq<char>,
    before: Seq<char>,
    whole: Seq<char>,
    after: Seq<char>,
)
    requires
        occurs_in(piece, whole),
    ensures
        occurs_in(piece, before + whole + after),
{
    let at = choose|at: int| occurs_at(piece, whole, at);
    let wider = before + whole + after;
    assert(wider.subrange(before.len() + at, before.len() + at + piece.len()) =~= whole.subrange(
        at,
        at + piece.len(),
    ));
    assert(occurs_at(piece, wider, before.len() + at));
}

/// Every part of a separated list stands in the list.
pub proof fn lemma_part_occurs_in_joined(parts: Seq<Seq<char>>, separator: Seq<char>, i: int)
    requires
        0 <= i < parts.len(),
    ensures
        occurs_in(parts[i], joined(parts, separator)),
    decreases parts.len(),
{
    let whole = joined(parts, separator);
    if parts.len() == 1 {
        assert(whole.subrange(0, whole.len() as int) =~= whole);
        assert(occurs_at(parts[i], whole, 0));
    } else if i == parts.len() - 1 {
        let before = joined(parts.drop_last(), separator) + separator;
        assert(whole.subrange(before.len() as int, whole.len() as int) =~= parts[i]);
        assert(occurs_at(parts[i], whole, before.len() as int));
    } else {
        let rest = parts.drop_last();
        lemma_part_occurs_in_joined(rest, separator, i);
        lemma_occurs_in_middle(
            parts[i],
            Seq::empty(),
            joined(rest, separator),
            separator + parts.last(),
        );
        assert(Seq::<char>::empty() + joined(rest, separator) + (separator + parts.last())
            =~= whole);
    }
}

/// Writes the parts one after another with `separator` between neighbours.
pub fn join(parts: &Vec<String>, separator: &str) -> (text: String)
    ensures
        text@ == joined(texts(parts@), separator@),
{
    let mut text = String::new();
    let mut i: usize = 0;
    while i < parts.len()
        invariant
            i <= parts.len(),
            text@ == joined(texts(parts@).take(i as int), separator@),
        decreases parts.len() - i,
    {
        proof {
            let done = texts(parts@).take(i as int);
            assert(texts(parts@).take(i + 1) =~= done.push(parts[i as int]@));
            lemma_joined_push(done, parts[i as int]@, separator@);
        }
        if i > 0 {
            text.append(separator);
        }
        text.append(parts[i].as_str());
        i += 1;
    }
    assert(texts(parts@).take(parts.len() as int) =~= texts(parts@));
    text
}

/// The one-character text of a decimal digit.
fn digit_text(digit: u32) -> (text: &'static str)
    requires
        digit < 10,
    ensures
        text@ == seq![digit_char(digit as int)],
{
    proof {
        reveal_strlit("0");
        reveal_strlit("1");
        reveal_strlit("2");
        reveal_strlit("3");
        reveal_strlit("4");
        reveal_strlit("5");
        reveal_strlit("6");
        reveal_strlit("7");
        reveal_strlit("8");
        reveal_strlit("9");
    }
    let text = match digit {
        0 => "0",
        1 => "1",
        2 => "2",
        3 => "3",
        4 => "4",
        5 => "5",
        6 => "6",
        7 => "7",
        8 => "8",
        _ => "9",
    };
    assert(text@ =~= seq![digit_char(digit as int)]);
    text
}

/// Appends the decimal numeral of `value` to `text`.
fn append_natural(text: &mut String, value: u32)
    ensures
        final(text)@ == old(text)@ + natural_text(value as nat),
    decreases value,
{
    if value >= 10 {
        append_natural(text, value / 10);
    }
    text.append(digit_text(value % 10));
}

/// Writes an identifier as a decimal numeral.
pub fn integer_to_string(value: i32) -> (text: String)
    ensures
        text@ == integer_text(value as int),
{
    let mut text = String::new();
    if value < 0 {
        let magnitude: i64 = -(value as i64);
        text.append("-");
        proof {
            reveal_strlit("-");
        }
        append_natural(&mut text, magnitude as u32);
    } else {
        append_natural(&mut text, value as u32);
    }
    assert(text@ =~= integer_text(value as int));
    text
}

} // verus!
