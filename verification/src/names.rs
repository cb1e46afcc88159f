//! The text of a slot's name: its stem and, for a numbered slot, the number
//! in decimal. Two numbered slots with different numbers, or of different
//! forms, have different texts.

use crate::ir::SlotName;
use vstd::prelude::*;
use vstd::string::StringExecFns;

verus! {

/// The character of a decimal digit.
pub open spec fn digit_char(d: nat) -> char {
    if d == 0 {
        '0'
    } else if d == 1 {
        '1'
    } else if d == 2 {
        '2'
    } else if d == 3 {
        '3'
    } else if d == 4 {
        '4'
    } else if d == 5 {
        '5'
    } else if d == 6 {
        '6'
    } else if d == 7 {
        '7'
    } else if d == 8 {
        '8'
    } else {
        '9'
    }
}

/// The decimal digits of a number, the most significant first, without
/// leading zeros.
pub open spec fn digits(n: nat) -> Seq<char>
    decreases n,
{
    if n < 10 {
        seq![digit_char(n)]
    } else {
        digits(n / 10).push(digit_char(n % 10))
    }
}

/// The number that a character stands for as a decimal digit.
pub open spec fn digit_value(c: char) -> nat {
    if c == '1' {
        1
    } else if c == '2' {
        2
    } else if c == '3' {
        3
    } else if c == '4' {
        4
    } else if c == '5' {
        5
    } else if c == '6' {
        6
    } else if c == '7' {
        7
    } else if c == '8' {
        8
    } else if c == '9' {
        9
    } else {
        0
    }
}

/// The number that a sequence of decimal digits stands for.
pub open spec fn number_of(s: Seq<char>) -> nat
    decreases s.len(),
{
    if s.len() == 0 {
        0
    } else {
        number_of(s.drop_last()) * 10 + digit_value(s.last())
    }
}

/// The digits of a number stand for that number.
pub proof fn lemma_digits_read_back(n: nat)
    ensures
        number_of(digits(n)) == n,
        digits(n).len() >= 1,
    decreases n,
{
    if n < 10 {
        let s = digits(n);
        assert(s.drop_last() =~= Seq::<char>::empty());
        assert(number_of(s.drop_last()) == 0);
    } else {
        lemma_digits_read_back(n / 10);
        let s = digits(n);
        assert(s.drop_last() =~= digits(n / 10));
        assert(s.last() == digit_char(n % 10));
    }
}

fn digit_text(d: usize) -> (r: &'static str)
    requires
        d < 10,
    ensures
        r@ == seq![digit_char(d as nat)],
{
    proof {
        reveal_strlit("0");
        reveal_strlit("1");
        reveal_strlit("2");
        reveal_strlit("3");
        reveal_strlit("4");
        reveal_strlit("5");
        reveal_strlit("6");
        reveal_strlit("7");
        reveal_strlit("8");
        reveal_strlit("9");
    }
    let r = if d == 0 {
        "0"
    } else if d == 1 {
        "1"
    } else if d == 2 {
        "2"
    } else if d == 3 {
        "3"
    } else if d == 4 {
        "4"
    } else if d == 5 {
        "5"
    } else if d == 6 {
        "6"
    } else if d == 7 {
        "7"
    } else if d == 8 {
        "8"
    } else {
        "9"
    };
    assert(r@ =~= seq![digit_char(d as nat)]);
    r
}

/// Appends the decimal digits of a number to a text.
pub fn push_decimal(text: &mut String, n: usize)
    ensures
        final(text)@ == old(text)@ + digits(n as nat),
    decreases n,
{
    if n >= 10 {
        push_decimal(text, n / 10);
    }
    text.append(digit_text(n % 10));
    proof {
        assert(text@ =~= old(text)@ + digits(n as nat));
    }
}

impl SlotName {
    /// The full name of a slot: its stem, followed by the decimal digits of
    /// its number where it has one.
    pub open spec fn spec_text(self) -> Seq<char> {
        match self.serial() {
            Some(n) => self.spec_stem() + digits(n as nat),
            None => self.spec_stem(),
        }
    }

    /// The full name of a slot.
    pub fn text(&self) -> (r: String)
        ensures
            r@ == self.spec_text(),
    {
        let mut text = String::from_str(self.stem());
        match self.number() {
            Some(n) => {
                push_decimal(&mut text, n);
            },
            None => {},
        }
        text
    }
}

/// Two numbered slots have the same full name only if they are of the same
/// form and carry the same number: the names that the counter hands out
/// never collide as texts either.
pub proof fn law_numbered_names_differ(a: SlotName, b: SlotName)
    requires
        a.serial() is Some,
        b.serial() is Some,
        a != b,
    ensures
        a.spec_text() != b.spec_text(),
{
    reveal_strlit("returnValue");
    reveal_strlit("loadedValue");
    let (ta, tb) = (a.spec_text(), b.spec_text());
    let (na, nb) = (a.serial()->0 as nat, b.serial()->0 as nat);
    lemma_digits_read_back(na);
    lemma_digits_read_back(nb);
    let same_form = (a is ReturnValue && b is ReturnValue) || (a is LoadedValue && b is LoadedValue);
    if same_form {
        assert(na != nb);
        if ta == tb {
            let k = a.spec_stem().len() as int;
            assert(ta.subrange(k, ta.len() as int) =~= digits(na));
            assert(tb.subrange(k, tb.len() as int) =~= digits(nb));
            assert(digits(na) == digits(nb));
        }
    } else {
        assert(ta[0] == a.spec_stem()[0]);
        assert(tb[0] == b.spec_stem()[0]);
        assert(a.spec_stem()[0] != b.spec_stem()[0]);
    }
}

} // verus!
