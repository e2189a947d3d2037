//! Small helpers on text: comparing a string with a literal, and writing a
//! number in decimal.

use vstd::prelude::*;

verus! {

/// Whether `text` reads exactly as `literal`.
pub fn same_text(text: &String, literal: &str) -> (same: bool)
    ensures
        same == (text@ == literal@),
{
    *text == literal.to_string()
}

/// The character of a decimal digit.
pub open spec fn spec_digit(d: int) -> char {
    if d == 0 {
        '0'
    } else if d == 1 {
        '1'
    } else if d == 2 {
        '2'
    } else if d == 3 {
        '3'
    } else if d == 4 {
        '4'
    } else if d == 5 {
        '5'
    } else if d == 6 {
        '6'
    } else if d == 7 {
        '7'
    } else if d == 8 {
        '8'
    } else {
        '9'
    }
}

/// The decimal numeral of `n`, without leading zeros.
pub open spec fn spec_decimal(n: nat) -> Seq<char>
    decreases n,
{
    if n < 10 {
        seq![spec_digit(n as int)]
    } else {
        spec_decimal(n / 10).push(spec_digit((n % 10) as int))
    }
}

/// The text of one decimal digit.
fn digit_text(d: u64) -> (text: &'static str)
    requires
        d < 10,
    ensures
        text@ == seq![spec_digit(d as int)],
{
    proof {
        reveal_strlit("0");
        reveal_strlit("1");
        reveal_strlit("2");
        reveal_strlit("3");
        reveal_strlit("4");
        reveal_strlit("5");
        reveal_strlit("6");
        reveal_strlit("7");
        reveal_strlit("8");
        reveal_strlit("9");
    }
    let text = if d == 0 {
        "0"
    } else if d == 1 {
        "1"
    } else if d == 2 {
        "2"
    } else if d == 3 {
        "3"
    } else if d == 4 {
        "4"
    } else if d == 5 {
        "5"
    } else if d == 6 {
        "6"
    } else if d == 7 {
        "7"
    } else if d == 8 {
        "8"
    } else {
        "9"
    };
    assert(text@ =~= seq![spec_digit(d as int)]);
    text
}

/// Writes `n` in decimal.
pub fn decimal(n: u64) -> (text: String)
    ensures
        text@ == spec_decimal(n as nat),
    decreases n,
{
    if n < 10 {
        digit_text(n).to_string()
    } else {
        let mut text = decimal(n / 10);
        text.append(digit_text(n % 10));
        assert(text@ =~= spec_decimal(n as nat));
        text
    }
}

/// What an optional text reads as: the characters of the text, if there is one.
pub open spec fn spec_optional_text(text: Option<String>) -> Option<Seq<char>> {
    match text {
        Some(t) => Some(t@),
        None => None,
    }
}

/// What each text of a sequence reads as, in the same order.
pub open spec fn text_views(texts: Seq<String>) -> Seq<Seq<char>> {
    texts.map_values(|t: String| t@)
}

/// A copy of a list of texts that reads the same.
pub fn clone_texts(texts: &Vec<String>) -> (copy: Vec<String>)
    ensures
        copy@ == texts@,
{
    let mut copy: Vec<String> = Vec::new();
    let n = texts.len();
    let mut i: usize = 0;
    while i < n
        invariant
            i <= n,
            n == texts@.len(),
            copy@ == texts@.take(i as int),
        decreases n - i,
    {
        copy.push(texts[i].clone());
        assert(texts@.take(i + 1) == texts@.take(i as int).push(texts@[i as int]));
        i = i + 1;
    }
    assert(texts@.take(n as int) == texts@);
    copy
}

/// Whether one of `texts` reads as `wanted`.
pub open spec fn spec_contains_text(texts: Seq<String>, wanted: Seq<char>) -> bool {
    exists|i: int| 0 <= i < texts.len() && (#[trigger] texts[i])@ == wanted
}

/// Whether one of `texts` reads as `wanted`.
pub fn contains_text(texts: &Vec<String>, wanted: &String) -> (found: bool)
    ensures
        found == spec_contains_text(texts@, wanted@),
{
    let n = texts.len();
    let mut i: usize = 0;
    while i < n
        invariant
            i <= n,
            n == texts@.len(),
            forall|j: int| 0 <= j < i ==> (#[trigger] texts@[j])@ != wanted@,
        decreases n - i,
    {
        if texts[i] == *wanted {
            return true;
        }
        i = i + 1;
    }
    false
}

/// The texts of `parts` written one after the other with `separator` between
/// each two.
pub open spec fn spec_join(parts: Seq<Seq<char>>, separator: Seq<char>) -> Seq<char>
    decreases parts.len(),
{
    if parts.len() == 0 {
        Seq::empty()
    } else if parts.len() == 1 {
        parts[0]
    } else {
        spec_join(parts.drop_last(), separator) + separator + parts.last()
    }
}

/// Writes `parts` one after the other with `separator` between each two.
pub fn join(parts: &Vec<String>, separator: &str) -> (joined: String)
    ensures
        joined@ == spec_join(text_views(parts@), separator@),
{
    let mut joined = String::new();
    let n = parts.len();
    let mut i: usize = 0;
    while i < n
        invariant
            i <= n,
            n == parts@.len(),
            joined@ == spec_join(text_views(parts@.take(i as int)), separator@),
        decreases n - i,
    {
        let ghost before = text_views(parts@.take(i as int));
        if i > 0 {
            joined.append(separator);
        }
        joined.append(parts[i].as_str());
        proof {
            let after = text_views(parts@.take(i + 1));
            assert(after.drop_last() == before);
            assert(after.last() == parts@[i as int]@);
            assert(joined@ == spec_join(after, separator@));
        }
        i = i + 1;
    }
    assert(parts@.take(n as int) == parts@);
    joined
}

} // verus!
