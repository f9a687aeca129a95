//! Text as sequences of characters: decimal numerals and literal search.

use vstd::prelude::*;

verus! {

/// The character that stands for one decimal digit.
pub open spec fn digit_char(digit: int) -> char {
    if digit == 0 {
        '0'
    } else if digit == 1 {
        '1'
    } else if digit == 2 {
        '2'
    } else if digit == 3 {
        '3'
    } else if digit == 4 {
        '4'
    } else if digit == 5 {
        '5'
    } else if digit == 6 {
        '6'
    } else if digit == 7 {
        '7'
    } else if digit == 8 {
        '8'
    } else {
        '9'
    }
}

/// The decimal numeral of a natural number, without sign or leading zeros.
pub open spec fn decimal(n: nat) -> Seq<char>
    decreases n,
{
    if n < 10 {
        seq![digit_char(n as int)]
    } else {
        decimal(n / 10).push(digit_char((n % 10) as int))
    }
}

fn digit_text(digit: u32) -> (text: &'static str)
    requires
        digit < 10,
    ensures
        text@ == seq![digit_char(digit as int)],
{
    proof {
        reveal_strlit("0");
        reveal_strlit("1");
        reveal_strlit("2");
        reveal_strlit("3");
        reveal_strlit("4");
        reveal_strlit("5");
        reveal_strlit("6");
        reveal_strlit("7");
        reveal_strlit("8");
        reveal_strlit("9");
    }
    let text = if digit == 0 {
        "0"
    } else if digit == 1 {
        "1"
    } else if digit == 2 {
        "2"
    } else if digit == 3 {
        "3"
    } else if digit == 4 {
        "4"
    } else if digit == 5 {
        "5"
    } else if digit == 6 {
        "6"
    } else if digit == 7 {
        "7"
    } else if digit == 8 {
        "8"
    } else {
        "9"
    };
    assert(text@ =~= seq![digit_char(digit as int)]);
    text
}

/// Writes a number as its decimal numeral.
pub fn u32_to_decimal(n: u32) -> (numeral: String)
    ensures
        numeral@ == decimal(n as nat),
    decreases n,
{
    if n < 10 {
        String::from_str(digit_text(n))
    } else {
        let mut numeral = u32_to_decimal(n / 10);
        numeral.append(digit_text(n % 10));
        numeral
    }
}

/// Whether `needle` stands in `text` at position `start`.
pub open spec fn occurs_at(text: Seq<char>, needle: Seq<char>, start: int) -> bool {
    &&& 0 <= start
    &&& start + needle.len() <= text.len()
    &&& text.subrange(start, start + needle.len()) == needle
}

/// Whether `needle` stands somewhere in `text`, character for character.
pub open spec fn occurs_in(text: Seq<char>, needle: Seq<char>) -> bool {
    exists|start: int| occurs_at(text, needle, start)
}

fn chars_of(text: &str) -> (chars: Vec<char>)
    ensures
        chars@ == text@,
{
    let mut chars: Vec<char> = Vec::new();
    for c in it: text.chars()
        invariant
            it.seq() == text@,
            chars@ == it.seq().take(it.index()),
    {
        chars.push(c);
    }
    chars
}

fn stands_at(text: &Vec<char>, needle: &Vec<char>, start: usize) -> (found: bool)
    requires
        start + needle.len() <= text.len(),
    ensures
        found == occurs_at(text@, needle@, start as int),
{
    let mut matched: usize = 0;
    while matched < needle.len()
        invariant
            matched <= needle.len(),
            start + needle.len() <= text.len(),
            forall|k: int| 0 <= k < matched ==> text[start + k] == needle[k],
        decreases needle.len() - matched,
    {
        if text[start + matched] != needle[matched] {
            assert(text@.subrange(start as int, start + needle.len())[matched as int]
                != needle@[matched as int]);
            return false;
        }
        matched += 1;
    }
    assert(text@.subrange(start as int, start + needle.len()) =~= needle@);
    true
}

/// Looks for `needle` in `text`, character for character.
pub fn contains_literal(text: &str, needle: &str) -> (found: bool)
    ensures
        found == occurs_in(text@, needle@),
{
    let text_chars = chars_of(text);
    let needle_chars = chars_of(needle);
    if needle_chars.len() > text_chars.len() {
        return false;
    }
    let last: usize = text_chars.len() - needle_chars.len();
    let mut start: usize = 0;
    loop
        invariant
            text_chars@ == text@,
            needle_chars@ == needle@,
            last + needle_chars.len() == text_chars.len(),
            start <= last,
            forall|earlier: int| 0 <= earlier < start ==> !occurs_at(text_chars@, needle_chars@, earlier),
        decreases last - start,
    {
        if stands_at(&text_chars, &needle_chars, start) {
            return true;
        }
        if start == last {
            return false;
        }
        start += 1;
    }
}

} // verus!
