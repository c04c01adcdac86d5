//! The console protocols: the single-line reply, the numbered menu with its
//! retry rule, the multi-line body that an empty line ends, and the final
//! yes or no. A reply is trimmed once, when it is read; the menu and the
//! confirmation then take it as it is.

use vstd::prelude::*;
use vstd::string::*;
use crate::text::{
    all_digits, chars_of, decimal, decimal_string, digit_value, digits_value, is_digit,
    lemma_parse_decimal, parse_number, trim, trimmed, unsigned_part,
};
use crate::AppError;

verus! {

/// The entry that `answer` selects from a menu of `count` entries, counted
/// from zero: `answer` must be a numeral between 1 and `count`.
pub open spec fn choice_of(answer: Seq<char>, count: nat) -> Option<nat> {
    match parse_number(answer) {
        Some(n) => if 1 <= n <= count {
            Some((n - 1) as nat)
        } else {
            None
        },
        None => None,
    }
}

/// A prefix of a digit string never writes a larger number than the whole.
proof fn lemma_digits_value_prefix(s: Seq<char>, k: int)
    requires
        0 <= k <= s.len(),
    ensures
        digits_value(s.subrange(0, k)) <= digits_value(s),
    decreases s.len(),
{
    if k == s.len() {
        assert(s.subrange(0, k) == s);
    } else {
        lemma_digits_value_prefix(s.drop_last(), k);
        assert(s.drop_last().subrange(0, k) == s.subrange(0, k));
    }
}

/// Reads the reply to a menu: a numeral between 1 and `count` is accepted
/// and returned as an index counted from zero.
pub fn parse_choice(answer: &str, count: usize) -> (r: Option<usize>)
    ensures
        match choice_of(answer@, count as nat) {
            Some(i) => r == Some(i as usize),
            None => r is None,
        },
{
    let chars = chars_of(answer);
    let n: usize = chars.len();
    let first: usize = if n > 0 && chars[0] == '+' {
        1
    } else {
        0
    };
    let ghost digits = unsigned_part(chars@);
    assert(digits == chars@.subrange(first as int, n as int));
    if first == n {
        return None;
    }
    let mut value: usize = 0;
    let mut i: usize = first;
    assert(chars@.subrange(first as int, i as int) == Seq::<char>::empty());
    while i < n
        invariant
            first <= i <= n,
            n == chars@.len(),
            n > first,
            chars@ == answer@,
            digits == unsigned_part(chars@),
            digits == chars@.subrange(first as int, n as int),
            all_digits(chars@.subrange(first as int, i as int)),
            value == digits_value(chars@.subrange(first as int, i as int)),
            value <= count,
        decreases n - i,
    {
        let c: char = chars[i];
        let ghost seen = chars@.subrange(first as int, i as int + 1);
        proof {
            assert(seen.drop_last() == chars@.subrange(first as int, i as int));
            assert(seen.last() == c);
            assert(seen == digits.subrange(0, i + 1 - first));
            assert(digits[i - first] == c);
            lemma_digits_value_prefix(digits, i + 1 - first);
        }
        if c < '0' || c > '9' {
            return None;
        }
        let d: usize = (c as u32 - '0' as u32) as usize;
        assert(d == digit_value(c));
        if value > count / 10 {
            return None;
        }
        if d > count - value * 10 {
            return None;
        }
        value = value * 10 + d;
        i += 1;
        assert(all_digits(seen));
    }
    assert(chars@.subrange(first as int, i as int) == digits);
    if value >= 1 {
        Some(value - 1)
    } else {
        None
    }
}

/// An answer selects at most one entry, and only an entry of the menu: the
/// one whose ordinal the answer writes.
pub proof fn lemma_choice_in_menu(answer: Seq<char>, count: nat)
    ensures
        choice_of(answer, count) matches Some(index) ==> index < count && parse_number(answer)
            == Some(index + 1),
{
}

/// Every entry can be selected: its ordinal, written as the menu shows it,
/// selects it.
pub proof fn lemma_ordinal_selects(count: nat, ordinal: nat)
    requires
        1 <= ordinal <= count,
    ensures
        choice_of(decimal(ordinal), count) == Some((ordinal - 1) as nat),
{
    lemma_parse_decimal(ordinal);
}

/// No entry is selected by the empty answer, by zero, by a number beyond the
/// last entry, or by an answer that holds anything but digits after an
/// optional plus sign.
pub proof fn lemma_answers_without_choice(answer: Seq<char>, count: nat, number: nat)
    ensures
        choice_of(Seq::empty(), count) is None,
        number == 0 || number > count ==> choice_of(decimal(number), count) is None,
        (exists|i: int| 0 <= i < answer.len() && !is_digit(#[trigger] answer[i]) && !(i == 0
            && answer[i] == '+')) ==> choice_of(answer, count) is None,
{
    lemma_parse_decimal(number);
    if exists|i: int|
        0 <= i < answer.len() && !is_digit(#[trigger] answer[i]) && !(i == 0 && answer[i] == '+') {
        let i = choose|i: int|
            0 <= i < answer.len() && !is_digit(#[trigger] answer[i]) && !(i == 0 && answer[i]
                == '+');
        let digits = unsigned_part(answer);
        if answer[0] == '+' {
            assert(digits[i - 1] == answer[i]);
        } else {
            assert(digits[i] == answer[i]);
        }
    }
}

/// The label of the prompt that follows the menu and every retry line.
pub const SELECT_PROMPT: &'static str = "Select an option: ";

/// What the menu does with an answer.
#[derive(Debug)]
pub enum Selection {
    /// The answer names this entry, counted from zero.
    Chosen(usize),
    /// The answer names no entry: show this line and ask again.
    Retry(String),
}

/// The line shown after an answer that names no entry. It is the same for
/// every kind of bad answer.
pub open spec fn retry_message(count: nat) -> Seq<char> {
    "Please enter a valid number between 1 and "@ + decimal(count)
}

/// The line that asks for another answer to a menu of `count` entries.
pub fn retry_text(count: usize) -> (r: String)
    ensures
        r@ == retry_message(count as nat),
{
    let mut r = String::from_str("Please enter a valid number between 1 and ");
    let number = decimal_string(count);
    r.append(number.as_str());
    r
}

/// One turn of the menu: the reply either selects an entry or, whatever is
/// wrong with it, earns the one retry line.
pub fn select_step(count: usize, answer: &str) -> (r: Selection)
    ensures
        match choice_of(answer@, count as nat) {
            Some(i) => r == Selection::Chosen(i as usize),
            None => r matches Selection::Retry(line) && line@ == retry_message(count as nat),
        },
{
    match parse_choice(answer, count) {
        Some(index) => Selection::Chosen(index),
        None => Selection::Retry(retry_text(count)),
    }
}

/// The description that stands beside entry `i`, if the list reaches it.
pub open spec fn description_at(descriptions: Option<Seq<Seq<char>>>, i: int) -> Option<
    Seq<char>,
> {
    match descriptions {
        Some(list) => if 0 <= i < list.len() {
            Some(list[i])
        } else {
            None
        },
        None => None,
    }
}

/// One menu line with its newline: two spaces, the ordinal counted from one,
/// a dot, the item and, where there is one, a dash and the description.
pub open spec fn menu_line(i: int, item: Seq<char>, description: Option<Seq<char>>) -> Seq<
    char,
> {
    let line = "  "@ + decimal((i + 1) as nat) + ". "@ + item;
    match description {
        Some(text) => line + " - "@ + text + "\n"@,
        None => line + "\n"@,
    }
}

/// The first `upto` menu lines, one after the other.
pub open spec fn menu_lines(
    items: Seq<Seq<char>>,
    descriptions: Option<Seq<Seq<char>>>,
    upto: int,
) -> Seq<char>
    decreases upto,
{
    if upto <= 0 {
        Seq::empty()
    } else {
        menu_lines(items, descriptions, upto - 1) + menu_line(
            upto - 1,
            items[upto - 1],
            description_at(descriptions, upto - 1),
        )
    }
}

/// The whole menu as it is written to the console: the label on a line of
/// its own, then one line for each item in order.
pub open spec fn menu_text(
    label: Seq<char>,
    items: Seq<Seq<char>>,
    descriptions: Option<Seq<Seq<char>>>,
) -> Seq<char> {
    label + "\n"@ + menu_lines(items, descriptions, items.len() as int)
}

/// The descriptions as sequences of characters.
pub open spec fn descriptions_view(descriptions: Option<&Vec<String>>) -> Option<Seq<Seq<char>>> {
    match descriptions {
        Some(list) => Some(list.deep_view()),
        None => None,
    }
}

/// Renders the numbered menu. Items are numbered from 1 in the order given;
/// a description is shown for every item that the list of descriptions
/// reaches.
pub fn menu(label: &str, items: &Vec<String>, descriptions: Option<&Vec<String>>) -> (r: String)
    ensures
        r@ == menu_text(label@, items.deep_view(), descriptions_view(descriptions)),
{
    let mut r = String::from_str(label);
    r.append("\n");
    let ghost head = r@;
    let n: usize = items.len();
    let mut i: usize = 0;
    while i < n
        invariant
            i <= n,
            n == items@.len(),
            r@ == head + menu_lines(items.deep_view(), descriptions_view(descriptions), i as int),
        decreases n - i,
    {
        let ghost before = r@;
        r.append("  ");
        let number = decimal_string(i + 1);
        r.append(number.as_str());
        r.append(". ");
        r.append(items[i].as_str());
        let described: bool = match descriptions {
            Some(list) => i < list.len(),
            None => false,
        };
        if described {
            let list = descriptions.unwrap();
            r.append(" - ");
            r.append(list[i].as_str());
        }
        r.append("\n");
        proof {
            let entry = menu_line(
                i as int,
                items.deep_view()[i as int],
                description_at(descriptions_view(descriptions), i as int),
            );
            assert(items.deep_view()[i as int] == items@[i as int]@);
            if described {
                let list = descriptions.unwrap();
                assert(list.deep_view()[i as int] == list@[i as int]@);
            }
            assert(r@ =~= before + entry);
            assert(r@ =~= head + menu_lines(
                items.deep_view(),
                descriptions_view(descriptions),
                i as int + 1,
            ));
        }
        i += 1;
    }
    r
}

/// Makes the error that `std::io::Error::from` builds out of
/// `ErrorKind::UnexpectedEof`. Nothing is claimed about the value.
#[verifier::external_body]
fn end_of_input() -> std::io::Error {
    std::io::Error::from(std::io::ErrorKind::UnexpectedEof)
}

/// The reply to a single-line prompt: the line that was read, without the
/// white space around it. `None` stands for an input stream that has ended,
/// which is an I/O failure.
pub fn reply(line: Option<&str>) -> (r: Result<String, AppError>)
    ensures
        match line {
            Some(raw) => r matches Ok(text) && text@ == trimmed(raw@),
            None => r matches Err(error) && error is Io,
        },
{
    match line {
        Some(raw) => Ok(String::from_str(trim(raw))),
        None => Err(AppError::Io(end_of_input())),
    }
}

/// The body after one more line: lines are joined by a single newline.
pub open spec fn body_with_line(body: Seq<char>, line: Seq<char>) -> Seq<char> {
    if body.len() == 0 {
        line
    } else {
        body + "\n"@ + line
    }
}

/// Takes one trimmed line of the body. An empty line ends the body and
/// leaves it as it is; any other line is joined to it. The result tells
/// whether to read on.
pub fn body_line(body: &mut String, line: &str) -> (more: bool)
    ensures
        more == (line@.len() > 0),
        more ==> final(body)@ == body_with_line(old(body)@, line@),
        !more ==> final(body)@ == old(body)@,
{
    if line.is_empty() {
        false
    } else {
        if !body.as_str().is_empty() {
            body.append("\n");
        }
        body.append(line);
        true
    }
}

/// One turn of the multi-line prompt: the line that was read is trimmed and
/// taken as `body_line` takes it. `None` stands for an input stream that has
/// ended, which ends the body too. When the result is `false` the body is
/// complete, and it may well be empty.
pub fn body_step(body: &mut String, line: Option<&str>) -> (more: bool)
    ensures
        more == (line matches Some(raw) && trimmed(raw@).len() > 0),
        more ==> final(body)@ == body_with_line(old(body)@, trimmed(line.unwrap()@)),
        !more ==> final(body)@ == old(body)@,
{
    match line {
        Some(raw) => body_line(body, trim(raw)),
        None => false,
    }
}

/// Whether `c` is the letter `lower` in either case. `lower` is a lowercase
/// ASCII letter, and its capital stands 32 places before it.
pub open spec fn is_letter(c: char, lower: char) -> bool {
    c == lower || c as int + 32 == lower as int
}

/// Whether a reply says yes: it is `y` or `yes`, in any mix of upper and
/// lower case. Everything else says no.
pub open spec fn affirmative(answer: Seq<char>) -> bool {
    ||| answer.len() == 1 && is_letter(answer[0], 'y')
    ||| answer.len() == 3 && is_letter(answer[0], 'y') && is_letter(answer[1], 'e') && is_letter(
        answer[2],
        's',
    )
}

/// Reads the reply to the final confirmation.
pub fn is_affirmative(answer: &str) -> (r: bool)
    ensures
        r == affirmative(answer@),
{
    let chars = chars_of(answer);
    let n: usize = chars.len();
    if n == 1 {
        chars[0] == 'y' || chars[0] == 'Y'
    } else if n == 3 {
        (chars[0] == 'y' || chars[0] == 'Y') && (chars[1] == 'e' || chars[1] == 'E') && (chars[2]
            == 's' || chars[2] == 'S')
    } else {
        false
    }
}

/// The answers that say yes are exactly these ten.
pub proof fn lemma_affirmative_answers(answer: Seq<char>)
    ensures
        affirmative(answer) <==> (answer == "y"@ || answer == "Y"@ || answer == "yes"@ || answer
            == "yeS"@ || answer == "yEs"@ || answer == "yES"@ || answer == "Yes"@ || answer
            == "YeS"@ || answer == "YEs"@ || answer == "YES"@),
{
    reveal_strlit("y");
    reveal_strlit("Y");
    reveal_strlit("yes");
    reveal_strlit("yeS");
    reveal_strlit("yEs");
    reveal_strlit("yES");
    reveal_strlit("Yes");
    reveal_strlit("YeS");
    reveal_strlit("YEs");
    reveal_strlit("YES");
    if affirmative(answer) {
        if answer.len() == 1 {
            assert(answer =~= "y"@ || answer =~= "Y"@);
        } else {
            assert(answer =~= "yes"@ || answer =~= "yeS"@ || answer =~= "yEs"@ || answer =~= "yES"@
                || answer =~= "Yes"@ || answer =~= "YeS"@ || answer =~= "YEs"@ || answer
                =~= "YES"@);
        }
    }
}

} // verus!
