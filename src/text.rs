//! Small text routines: the Android application id grammar, decimal
//! rendering of a port and comma-joined lists.

use crate::json::texts;
use vstd::prelude::*;

verus! {

pub open spec fn is_ascii_letter(c: char) -> bool {
    ('a' <= c && c <= 'z') || ('A' <= c && c <= 'Z')
}

pub open spec fn is_label_char(c: char) -> bool {
    is_ascii_letter(c) || ('0' <= c && c <= '9') || c == '_'
}

/// An Android application id: two or more labels joined by `.`, each label
/// an ASCII letter followed by ASCII letters, digits or `_`.
pub open spec fn valid_package(s: Seq<char>) -> bool {
    &&& s.len() > 0
    &&& is_ascii_letter(s[0])
    &&& forall|i: int| 0 <= i < s.len() ==> is_label_char(#[trigger] s[i]) || s[i] == '.'
    &&& forall|i: int| 0 <= i < s.len() && #[trigger] s[i] == '.' ==> i + 1 < s.len()
        && is_ascii_letter(s[i + 1])
    &&& exists|i: int| 0 <= i < s.len() && #[trigger] s[i] == '.'
}

fn is_letter_char(c: char) -> (r: bool)
    ensures
        r == is_ascii_letter(c),
{
    ('a' <= c && c <= 'z') || ('A' <= c && c <= 'Z')
}

fn is_word_char(c: char) -> (r: bool)
    ensures
        r == is_label_char(c),
{
    is_letter_char(c) || ('0' <= c && c <= '9') || c == '_'
}

/// Checks a string against the application id grammar.
pub fn is_valid_package(s: &str) -> (r: bool)
    ensures
        r == valid_package(s@),
{
    let n = s.unicode_len();
    if n == 0 || !is_letter_char(s.get_char(0)) {
        return false;
    }
    let mut seen_dot = false;
    let mut i: usize = 0;
    while i < n
        invariant
            n == s@.len(),
            n > 0,
            is_ascii_letter(s@[0]),
            i <= n,
            forall|j: int| 0 <= j < i ==> is_label_char(#[trigger] s@[j]) || s@[j] == '.',
            forall|j: int| 0 <= j < i && #[trigger] s@[j] == '.' ==> j + 1 < n
                && is_ascii_letter(s@[j + 1]),
            seen_dot <==> exists|j: int| 0 <= j < i && #[trigger] s@[j] == '.',
        decreases n - i,
    {
        let c = s.get_char(i);
        if c == '.' {
            if i + 1 >= n || !is_letter_char(s.get_char(i + 1)) {
                return false;
            }
            seen_dot = true;
        } else if !is_word_char(c) {
            return false;
        }
        i = i + 1;
    }
    seen_dot
}

pub open spec fn digit_char(d: nat) -> char {
    if d == 0 {
        '0'
    } else if d == 1 {
        '1'
    } else if d == 2 {
        '2'
    } else if d == 3 {
        '3'
    } else if d == 4 {
        '4'
    } else if d == 5 {
        '5'
    } else if d == 6 {
        '6'
    } else if d == 7 {
        '7'
    } else if d == 8 {
        '8'
    } else {
        '9'
    }
}

/// The decimal digits of `n`, most significant first, without leading zeros.
pub open spec fn decimal(n: nat) -> Seq<char>
    decreases n,
{
    if n < 10 {
        seq![digit_char(n)]
    } else {
        decimal(n / 10).push(digit_char(n % 10))
    }
}

fn digit_text(d: u16) -> (r: &'static str)
    requires
        d < 10,
    ensures
        r@ == seq![digit_char(d as nat)],
{
    proof {
        reveal_strlit("0");
        reveal_strlit("1");
        reveal_strlit("2");
        reveal_strlit("3");
        reveal_strlit("4");
        reveal_strlit("5");
        reveal_strlit("6");
        reveal_strlit("7");
        reveal_strlit("8");
        reveal_strlit("9");
    }
    let r = if d == 0 {
        "0"
    } else if d == 1 {
        "1"
    } else if d == 2 {
        "2"
    } else if d == 3 {
        "3"
    } else if d == 4 {
        "4"
    } else if d == 5 {
        "5"
    } else if d == 6 {
        "6"
    } else if d == 7 {
        "7"
    } else if d == 8 {
        "8"
    } else {
        "9"
    };
    assert(r@ =~= seq![digit_char(d as nat)]);
    r
}

/// Renders `n` in decimal.
pub fn decimal_text(n: u16) -> (r: String)
    ensures
        r@ == decimal(n as nat),
    decreases n,
{
    if n < 10 {
        String::from_str(digit_text(n))
    } else {
        let mut r = decimal_text(n / 10);
        r.append(digit_text(n % 10));
        assert(r@ =~= decimal(n as nat));
        r
    }
}

/// The items joined by `,`.
pub open spec fn comma_joined(items: Seq<Seq<char>>) -> Seq<char>
    decreases items.len(),
{
    if items.len() == 0 {
        Seq::empty()
    } else if items.len() == 1 {
        items[0]
    } else {
        comma_joined(items.drop_last()) + seq![','] + items.last()
    }
}

/// Joins the items with `,` between each two of them.
pub fn join_with_commas(items: &Vec<String>) -> (r: String)
    ensures
        r@ == comma_joined(texts(items@)),
{
    let mut r = String::new();
    let mut i: usize = 0;
    while i < items.len()
        invariant
            i <= items@.len(),
            r@ == comma_joined(texts(items@.subrange(0, i as int))),
        decreases items@.len() - i,
    {
        let ghost pre = texts(items@.subrange(0, i as int));
        let ghost next = texts(items@.subrange(0, i + 1));
        let ghost before = r@;
        if i > 0 {
            proof {
                reveal_strlit(",");
            }
            r.append(",");
        }
        r.append(items[i].as_str());
        proof {
            assert(next.drop_last() =~= pre);
            assert(next.last() == items@[i as int]@);
            if i > 0 {
                assert(r@ =~= before + seq![','] + next.last());
            } else {
                assert(before =~= Seq::<char>::empty());
                assert(r@ =~= next[0]);
            }
        }
        i = i + 1;
    }
    assert(items@.subrange(0, items@.len() as int) =~= items@);
    r
}

} // verus!
