//! Small text utilities shared by the prompt segments: decimal rendering of
//! counters and left padding.

use vstd::prelude::*;

verus! {

/// The decimal digit that stands for `d`, for `0 <= d <= 9`.
pub open spec fn digit(d: int) -> char {
    if d == 0 {
        '0'
    } else if d == 1 {
        '1'
    } else if d == 2 {
        '2'
    } else if d == 3 {
        '3'
    } else if d == 4 {
        '4'
    } else if d == 5 {
        '5'
    } else if d == 6 {
        '6'
    } else if d == 7 {
        '7'
    } else if d == 8 {
        '8'
    } else {
        '9'
    }
}

/// The decimal numeral of `n`: no sign, no leading zero, `"0"` for zero.
pub open spec fn decimal(n: nat) -> Seq<char>
    decreases n,
{
    if n < 10 {
        seq![digit(n as int)]
    } else {
        decimal(n / 10).push(digit((n % 10) as int))
    }
}

/// The one-character text of a single decimal digit.
fn digit_str(d: usize) -> (s: &'static str)
    requires
        d < 10,
    ensures
        s@ == seq![digit(d as int)],
{
    proof {
        reveal_strlit("0");
        reveal_strlit("1");
        reveal_strlit("2");
        reveal_strlit("3");
        reveal_strlit("4");
        reveal_strlit("5");
        reveal_strlit("6");
        reveal_strlit("7");
        reveal_strlit("8");
        reveal_strlit("9");
    }
    let s = if d == 0 {
        "0"
    } else if d == 1 {
        "1"
    } else if d == 2 {
        "2"
    } else if d == 3 {
        "3"
    } else if d == 4 {
        "4"
    } else if d == 5 {
        "5"
    } else if d == 6 {
        "6"
    } else if d == 7 {
        "7"
    } else if d == 8 {
        "8"
    } else {
        "9"
    };
    assert(s@ =~= seq![digit(d as int)]);
    s
}

/// Renders a counter as its decimal numeral.
pub fn decimal_string(n: usize) -> (s: String)
    ensures
        s@ == decimal(n as nat),
    decreases n,
{
    if n < 10 {
        String::from_str(digit_str(n))
    } else {
        let mut s = decimal_string(n / 10);
        s.append(digit_str(n % 10));
        s
    }
}

/// The characters of a text, one by one.
pub fn chars_of(text: &str) -> (chars: Vec<char>)
    ensures
        chars@ == text@,
{
    let mut chars: Vec<char> = Vec::new();
    for c in it: text.chars()
        invariant
            it.seq() == text@,
            chars@ == text@.take(it.index() as int),
    {
        chars.push(c);
        assert(text@.take(it.index() + 1) =~= text@.take(it.index() as int).push(c));
    }
    assert(chars@ =~= text@);
    chars
}

/// The content of an optional text.
pub open spec fn content(text: Option<String>) -> Option<Seq<char>> {
    match text {
        Some(t) => Some(t@),
        None => None,
    }
}

/// The content of an optional borrowed text.
pub open spec fn text_of(text: Option<&str>) -> Option<Seq<char>> {
    match text {
        Some(t) => Some(t@),
        None => None,
    }
}

/// Borrows an optional text.
pub fn as_text(text: &Option<String>) -> (borrowed: Option<&str>)
    ensures
        text_of(borrowed) == content(*text),
{
    match text {
        Some(t) => Some(t.as_str()),
        None => None,
    }
}

/// `count` copies of `fill` in a row.
pub open spec fn repeated(fill: Seq<char>, count: nat) -> Seq<char>
    decreases count,
{
    if count == 0 {
        Seq::empty()
    } else {
        repeated(fill, (count - 1) as nat) + fill
    }
}

/// The text, with as many copies of `fill` in front of it as it has
/// characters less than `width`.
pub open spec fn padded(text: Seq<char>, width: nat, fill: Seq<char>) -> Seq<char> {
    if text.len() < width {
        repeated(fill, (width - text.len()) as nat) + text
    } else {
        text
    }
}

/// Pads a text on the left up to `width` characters.
pub fn pad_left(text: &str, width: usize, fill: &str) -> (result: String)
    ensures
        result@ == padded(text@, width as nat, fill@),
{
    let length = text.unicode_len();
    let mut result = String::new();
    if length < width {
        let missing: usize = width - length;
        let mut i: usize = 0;
        while i < missing
            invariant
                i <= missing,
                result@ == repeated(fill@, i as nat),
            decreases missing - i,
        {
            result.append(fill);
            i = i + 1;
        }
    }
    result.append(text);
    assert(result@ =~= padded(text@, width as nat, fill@));
    result
}

/// The text with every `from` replaced by the text `to`.
pub open spec fn replaced(text: Seq<char>, from: char, to: Seq<char>) -> Seq<char>
    decreases text.len(),
{
    if text.len() == 0 {
        Seq::empty()
    } else if text.last() == from {
        replaced(text.drop_last(), from, to) + to
    } else {
        replaced(text.drop_last(), from, to).push(text.last())
    }
}

/// Replacing leaves a stretch without `from` as it is.
pub proof fn lemma_replaced_untouched(front: Seq<char>, rest: Seq<char>, from: char, to: Seq<char>)
    requires
        forall|k: int| 0 <= k < rest.len() ==> rest[k] != from,
    ensures
        replaced(front + rest, from, to) == replaced(front, from, to) + rest,
    decreases rest.len(),
{
    if rest.len() == 0 {
        assert(front + rest =~= front);
        assert(replaced(front, from, to) + rest =~= replaced(front, from, to));
    } else {
        lemma_replaced_untouched(front, rest.drop_last(), from, to);
        assert((front + rest).drop_last() =~= front + rest.drop_last());
        assert(replaced(front, from, to) + rest =~= (replaced(front, from, to)
            + rest.drop_last()).push(rest.last()));
    }
}

/// Replaces every `from` in a text by `to`.
pub fn replace_char(text: &str, from: char, to: &str) -> (result: String)
    ensures
        result@ == replaced(text@, from, to@),
{
    let chars = chars_of(text);
    let mut result = String::new();
    let mut start: usize = 0;
    let mut i: usize = 0;
    assert(text@.take(0) =~= Seq::<char>::empty());
    while i < chars.len()
        invariant
            chars@ == text@,
            start <= i <= chars.len(),
            result@ == replaced(text@.take(start as int), from, to@),
            forall|k: int| start <= k < i ==> text@[k] != from,
        decreases chars.len() - i,
    {
        if chars[i] == from {
            result.append(text.substring_char(start, i));
            result.append(to);
            proof {
                let front = text@.take(start as int);
                let rest = text@.subrange(start as int, i as int);
                lemma_replaced_untouched(front, rest, from, to@);
                assert(front + rest =~= text@.take(i as int));
                assert(text@.take(i + 1).drop_last() =~= text@.take(i as int));
            }
            start = i + 1;
        }
        i = i + 1;
    }
    result.append(text.substring_char(start, i));
    proof {
        let front = text@.take(start as int);
        let rest = text@.subrange(start as int, i as int);
        lemma_replaced_untouched(front, rest, from, to@);
        assert(front + rest =~= text@);
    }
    result
}

} // verus!
