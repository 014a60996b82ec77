//! Texts, optional texts and lists of texts, and the few functions of the standard
//! library on texts that the rest of the crate calls.

use vstd::prelude::*;
use crate::decimal;

verus! {

/// The characters of an optional text.
pub open spec fn opt_text(o: Option<String>) -> Option<Seq<char>> {
    match o {
        Some(s) => Some(s@),
        None => None,
    }
}

/// The characters of each text of a list.
pub open spec fn texts(list: Seq<String>) -> Seq<Seq<char>> {
    Seq::new(list.len(), |i: int| list[i]@)
}

/// A copy of an optional text.
pub fn copy_opt_text(o: &Option<String>) -> (r: Option<String>)
    ensures
        opt_text(r) == opt_text(*o),
{
    match o {
        Some(s) => Some(s.clone()),
        None => None,
    }
}

/// A copy of a list of texts.
pub fn copy_texts(list: &Vec<String>) -> (r: Vec<String>)
    ensures
        texts(r@) == texts(list@),
{
    let mut out: Vec<String> = Vec::new();
    let mut i: usize = 0;
    while i < list.len()
        invariant
            i <= list.len(),
            out.len() == i,
            forall|k: int| 0 <= k < i ==> #[trigger] out@[k]@ == list@[k]@,
        decreases list.len() - i,
    {
        out.push(list[i].clone());
        i = i + 1;
    }
    assert(texts(out@) =~= texts(list@));
    out
}

/// Whether a list of texts holds a text.
pub fn list_contains(list: &Vec<String>, text: &String) -> (r: bool)
    ensures
        r == texts(list@).contains(text@),
{
    let mut i: usize = 0;
    while i < list.len()
        invariant
            i <= list.len(),
            forall|k: int| 0 <= k < i ==> #[trigger] list@[k]@ != text@,
        decreases list.len() - i,
    {
        if list[i] == *text {
            assert(texts(list@)[i as int] == text@);
            return true;
        }
        i = i + 1;
    }
    assert forall|k: int| 0 <= k < texts(list@).len() implies texts(list@)[k] != text@ by {
        assert(list@[k]@ != text@);
    }
    false
}

/// Whether two texts are the same.
pub fn same_text(a: &str, b: &str) -> (r: bool)
    ensures
        r == (a@ == b@),
{
    a.to_owned() == b.to_owned()
}

/// The character, with a capital letter of ASCII made small.
pub open spec fn ascii_lower(c: char) -> char {
    if 'A' <= c && c <= 'Z' { (c as int + 32) as char } else { c }
}

/// Whether two texts are the same but for the case of ASCII letters.
pub open spec fn same_ignoring_case(a: Seq<char>, b: Seq<char>) -> bool {
    a.len() == b.len() && forall|i: int|
        0 <= i < a.len() ==> ascii_lower(#[trigger] a[i]) == ascii_lower(b[i])
}

/// `str::eq_ignore_ascii_case`: the texts are compared as if each ASCII letter in them
/// were small.
#[verifier::external_body]
pub(crate) fn equal_ignoring_case(a: &str, b: &str) -> (r: bool)
    ensures
        r == same_ignoring_case(a@, b@),
{
    a.eq_ignore_ascii_case(b)
}

/// What `str::to_lowercase` makes of a text.
pub uninterp spec fn lowercase_of(text: Seq<char>) -> Seq<char>;

/// `str::to_lowercase`. The result depends on the text alone, and on a text of ASCII
/// characters it makes each capital letter small and leaves the rest.
#[verifier::external_body]
pub(crate) fn lowercase(text: &str) -> (r: String)
    ensures
        r@ == lowercase_of(text@),
        (forall|i: int| 0 <= i < text@.len() ==> #[trigger] text@[i] < '\u{80}')
            ==> r@ == text@.map_values(|c: char| ascii_lower(c)),
{
    text.to_lowercase()
}

/// The character, with a small letter of ASCII made a capital.
pub open spec fn ascii_upper(c: char) -> char {
    if 'a' <= c && c <= 'z' { (c as int - 32) as char } else { c }
}

/// What `str::to_uppercase` makes of a text.
pub uninterp spec fn uppercase_of(text: Seq<char>) -> Seq<char>;

/// `str::to_uppercase`. The result depends on the text alone, and on a text of ASCII
/// characters it makes each small letter a capital and leaves the rest.
#[verifier::external_body]
pub(crate) fn uppercase(text: &str) -> (r: String)
    ensures
        r@ == uppercase_of(text@),
        (forall|i: int| 0 <= i < text@.len() ==> #[trigger] text@[i] < '\u{80}')
            ==> r@ == text@.map_values(|c: char| ascii_upper(c)),
{
    text.to_uppercase()
}

/// `u64`'s `to_string`: the decimal digits.
#[verifier::external_body]
pub(crate) fn print_number(n: u64) -> (r: String)
    ensures
        r@ == decimal::digits(n as nat),
{
    n.to_string()
}

/// The number that a sequence of decimal digits stands for.
pub open spec fn number_of(text: Seq<char>) -> int
    decreases text.len(),
{
    if text.len() == 0 {
        0
    } else {
        10 * number_of(text.drop_last()) + (text.last() as int - 48)
    }
}

/// Whether every character is a decimal digit.
pub open spec fn all_digits(text: Seq<char>) -> bool {
    forall|i: int| 0 <= i < text.len() ==> '0' <= #[trigger] text[i] <= '9'
}

/// Whether a text is a number as the parser for `u64` accepts it: an optional plus sign
/// and at least one digit.
pub open spec fn is_number(text: Seq<char>) -> bool {
    let body = if text.len() > 0 && text[0] == '+' { text.skip(1) } else { text };
    body.len() > 0 && all_digits(body)
}

/// The number that such a text stands for.
pub open spec fn number_value(text: Seq<char>) -> int {
    number_of(if text.len() > 0 && text[0] == '+' { text.skip(1) } else { text })
}

/// `str::parse::<u64>`: an optional plus sign and decimal digits, of a number that fits.
#[verifier::external_body]
pub(crate) fn parse_number(text: &str) -> (r: Option<u64>)
    ensures
        r == (if is_number(text@) && number_value(text@) <= u64::MAX {
            Some(number_value(text@) as u64)
        } else {
            None
        }),
{
    text.parse::<u64>().ok()
}

/// A list of texts has the characters of each, in the same order, and an optional text those of the
/// text, where there is one.
pub proof fn law_texts_are_those_of_the_list(list: Seq<String>, i: int, o: Option<String>)
    ensures
        texts(list).len() == list.len(),
        0 <= i < list.len() ==> texts(list)[i] == list[i]@,
        opt_text(o) is Some <==> o is Some,
        o is Some ==> opt_text(o)->0 == o->0@,
{
}

/// One digit more makes ten times the number and that digit; a plus sign in front changes nothing.
pub proof fn law_digits_count_in_tens(text: Seq<char>, digit: char)
    ensures
        number_of(Seq::empty()) == 0,
        number_of(text.push(digit)) == 10 * number_of(text) + (digit as int - '0' as int),
        text.len() > 0 && text[0] != '+' ==> (is_number(seq!['+'] + text) <==> is_number(text)),
        text.len() > 0 && text[0] != '+' ==> number_value(seq!['+'] + text) == number_value(text),
        is_number(text) && '0' <= digit <= '9' ==> is_number(text.push(digit)) && number_value(
            text.push(digit),
        ) == 10 * number_value(text) + (digit as int - '0' as int),
{
    assert(text.push(digit).drop_last() =~= text);
    let signed = seq!['+'] + text;
    assert(signed.skip(1) =~= text);
    if is_number(text) && '0' <= digit <= '9' {
        let body = if text.len() > 0 && text[0] == '+' { text.skip(1) } else { text };
        let longer = text.push(digit);
        assert(longer[0] == text[0]);
        let longer_body = if longer.len() > 0 && longer[0] == '+' { longer.skip(1) } else { longer };
        assert(longer_body =~= body.push(digit));
        assert(longer_body.drop_last() =~= body);
        assert forall|i: int| 0 <= i < longer_body.len() implies '0' <= #[trigger] longer_body[i] <= '9' by {
            if i < body.len() {
                assert(longer_body[i] == body[i]);
            }
        }
    }
}

/// Small and capital letters of ASCII belong together in pairs, and no other character changes: to
/// compare without regard to case is to compare the same after making capitals small.
pub proof fn law_letters_pair_up(c: char)
    ensures
        'A' <= c <= 'Z' ==> ascii_lower(c) as int == c as int + 32 && 'a' <= ascii_lower(c) <= 'z'
            && ascii_upper(ascii_lower(c)) == c,
        'a' <= c <= 'z' ==> ascii_upper(c) as int == c as int - 32 && 'A' <= ascii_upper(c) <= 'Z'
            && ascii_lower(ascii_upper(c)) == c,
        !('A' <= c <= 'Z') ==> ascii_lower(c) == c,
        !('a' <= c <= 'z') ==> ascii_upper(c) == c,
{
}

/// To be the same but for case relates each text to itself, holds both ways, and is passed on.
pub proof fn law_same_ignoring_case_is_an_equivalence(a: Seq<char>, b: Seq<char>, c: Seq<char>)
    ensures
        same_ignoring_case(a, a),
        same_ignoring_case(a, b) ==> same_ignoring_case(b, a),
        same_ignoring_case(a, b) && same_ignoring_case(b, c) ==> same_ignoring_case(a, c),
{
    if same_ignoring_case(a, b) && same_ignoring_case(b, c) {
        assert forall|i: int| 0 <= i < a.len() implies ascii_lower(#[trigger] a[i]) == ascii_lower(c[i]) by {
            assert(ascii_lower(b[i]) == ascii_lower(c[i]));
        }
    }
    if same_ignoring_case(a, b) {
        assert forall|i: int| 0 <= i < b.len() implies ascii_lower(#[trigger] b[i]) == ascii_lower(a[i]) by {
            assert(ascii_lower(a[i]) == ascii_lower(b[i]));
        }
    }
}

} // verus!
