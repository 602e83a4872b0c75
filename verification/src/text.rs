//! Text building blocks: decimal notation, and the facts about delimited text
//! that make a cache key readable in only one way.

use vstd::prelude::*;
use vstd::string::*;

verus! {

/// The character that stands for the digit `d` in decimal notation.
pub open spec fn digit_char(d: nat) -> char
    recommends
        d < 10,
{
    if d == 0 {
        '0'
    } else if d == 1 {
        '1'
    } else if d == 2 {
        '2'
    } else if d == 3 {
        '3'
    } else if d == 4 {
        '4'
    } else if d == 5 {
        '5'
    } else if d == 6 {
        '6'
    } else if d == 7 {
        '7'
    } else if d == 8 {
        '8'
    } else {
        '9'
    }
}

/// Whether `c` is one of the ten decimal digits.
pub open spec fn is_digit(c: char) -> bool {
    c == '0' || c == '1' || c == '2' || c == '3' || c == '4' || c == '5' || c == '6' || c == '7'
        || c == '8' || c == '9'
}

/// The decimal notation of `n`, most significant digit first, without leading zeros.
pub open spec fn decimal(n: nat) -> Seq<char>
    decreases n,
{
    if n < 10 {
        seq![digit_char(n)]
    } else {
        decimal(n / 10).push(digit_char(n % 10))
    }
}

/// The decimal notation of a signed number: a minus sign before the magnitude
/// of a negative one.
pub open spec fn signed_decimal(n: int) -> Seq<char> {
    if n < 0 {
        seq!['-'] + decimal((-n) as nat)
    } else {
        decimal(n as nat)
    }
}

/// Whether the character `c` occurs nowhere in `s`.
pub open spec fn free_of(s: Seq<char>, c: char) -> bool {
    forall|i: int| 0 <= i < s.len() ==> s[i] != c
}

/// Distinct digits are written with distinct characters.
pub proof fn lemma_digit_char_injective(a: nat, b: nat)
    requires
        a < 10,
        b < 10,
        digit_char(a) == digit_char(b),
    ensures
        a == b,
{
}

/// Decimal notation is never empty and holds digits only.
pub proof fn lemma_decimal_digits(n: nat)
    ensures
        decimal(n).len() >= 1,
        forall|i: int| 0 <= i < decimal(n).len() ==> is_digit(#[trigger] decimal(n)[i]),
    decreases n,
{
    if n >= 10 {
        lemma_decimal_digits(n / 10);
    }
}

/// Two numbers with the same decimal notation are the same number.
pub proof fn lemma_decimal_injective(a: nat, b: nat)
    requires
        decimal(a) == decimal(b),
    ensures
        a == b,
    decreases a,
{
    lemma_decimal_digits(a / 10);
    lemma_decimal_digits(b / 10);
    if a < 10 {
        if b < 10 {
            assert(decimal(a)[0] == digit_char(a));
            assert(decimal(b)[0] == digit_char(b));
            lemma_digit_char_injective(a, b);
        } else {
            assert(decimal(b).len() >= 2);
        }
    } else {
        if b < 10 {
            assert(decimal(a).len() >= 2);
        } else {
            let da = decimal(a / 10);
            let db = decimal(b / 10);
            assert(decimal(a).len() == da.len() + 1);
            assert(decimal(b).len() == db.len() + 1);
            assert(decimal(a).last() == digit_char(a % 10));
            assert(decimal(b).last() == digit_char(b % 10));
            lemma_digit_char_injective(a % 10, b % 10);
            assert(da =~= decimal(a).drop_last());
            assert(db =~= decimal(b).drop_last());
            lemma_decimal_injective(a / 10, b / 10);
        }
    }
}

/// Text that is cut at the first occurrence of a delimiter can be cut in one
/// way only: where neither head holds the delimiter, equal wholes have equal
/// heads and equal tails.
pub proof fn lemma_split_unique(a: Seq<char>, b: Seq<char>, c: Seq<char>, d: Seq<char>, delim: char)
    requires
        free_of(a, delim),
        free_of(c, delim),
        a.push(delim) + b == c.push(delim) + d,
    ensures
        a == c,
        b == d,
{
    let whole = a.push(delim) + b;
    let other = c.push(delim) + d;
    assert(whole.len() == a.len() + 1 + b.len());
    assert(other.len() == c.len() + 1 + d.len());
    if a.len() < c.len() {
        assert(whole[a.len() as int] == delim);
        assert(other[a.len() as int] == c[a.len() as int]);
        assert(false);
    }
    if c.len() < a.len() {
        assert(other[c.len() as int] == delim);
        assert(whole[c.len() as int] == a[c.len() as int]);
        assert(false);
    }
    assert forall|i: int| 0 <= i < a.len() implies a[i] == c[i] by {
        assert(whole[i] == a[i]);
        assert(other[i] == c[i]);
    }
    assert(a =~= c);
    assert forall|i: int| 0 <= i < b.len() implies b[i] == d[i] by {
        assert(whole[a.len() + 1 + i] == b[i]);
        assert(other[c.len() + 1 + i] == d[i]);
    }
    assert(b =~= d);
}

/// The text of one decimal digit.
fn digit_str(d: u8) -> (s: &'static str)
    requires
        d < 10,
    ensures
        s@ == seq![digit_char(d as nat)],
{
    proof {
        reveal_strlit("0");
        reveal_strlit("1");
        reveal_strlit("2");
        reveal_strlit("3");
        reveal_strlit("4");
        reveal_strlit("5");
        reveal_strlit("6");
        reveal_strlit("7");
        reveal_strlit("8");
        reveal_strlit("9");
    }
    let s = if d == 0 {
        "0"
    } else if d == 1 {
        "1"
    } else if d == 2 {
        "2"
    } else if d == 3 {
        "3"
    } else if d == 4 {
        "4"
    } else if d == 5 {
        "5"
    } else if d == 6 {
        "6"
    } else if d == 7 {
        "7"
    } else if d == 8 {
        "8"
    } else {
        "9"
    };
    assert(s@ =~= seq![digit_char(d as nat)]);
    s
}

/// Writes `n` in decimal notation.
pub fn decimal_string(n: u64) -> (s: String)
    ensures
        s@ == decimal(n as nat),
    decreases n,
{
    if n < 10 {
        let d: u8 = n as u8;
        String::from_str(digit_str(d))
    } else {
        let mut s = decimal_string(n / 10);
        let d: u8 = (n % 10) as u8;
        s.append(digit_str(d));
        assert(s@ =~= decimal(n as nat));
        s
    }
}

/// Writes a signed number in decimal notation.
pub fn signed_decimal_string(n: i32) -> (s: String)
    ensures
        s@ == signed_decimal(n as int),
{
    if n < 0 {
        let magnitude: u64 = (-(n as i64)) as u64;
        let mut s = String::from_str("-");
        let digits = decimal_string(magnitude);
        s.append(digits.as_str());
        proof {
            reveal_strlit("-");
            assert(s@ =~= signed_decimal(n as int));
        }
        s
    } else {
        decimal_string(n as u64)
    }
}

/// Whether `c` occurs in `s`.
pub fn holds_char(s: &str, c: char) -> (found: bool)
    ensures
        found == !free_of(s@, c),
{
    let n = s.unicode_len();
    let mut i: usize = 0;
    while i < n
        invariant
            n == s@.len(),
            i <= n,
            forall|j: int| 0 <= j < i ==> s@[j] != c,
        decreases n - i,
    {
        if s.get_char(i) == c {
            return true;
        }
        i += 1;
    }
    false
}

/// Whether `a` and `b` are the same text.
pub fn same_text(a: &str, b: &str) -> (same: bool)
    ensures
        same == (a@ == b@),
{
    let x = String::from_str(a);
    let y = String::from_str(b);
    x == y
}

/// The texts of `names` one after the other, with `sep` between each two.
pub open spec fn joined(names: Seq<Seq<char>>, sep: Seq<char>) -> Seq<char>
    decreases names.len(),
{
    if names.len() == 0 {
        Seq::empty()
    } else if names.len() == 1 {
        names[0]
    } else {
        joined(names.drop_last(), sep) + sep + names.last()
    }
}

/// Writes the texts of `names` one after the other, with `sep` between each
/// two.
pub fn join_names(names: &Vec<String>, sep: &str) -> (text: String)
    ensures
        text@ == joined(names.deep_view(), sep@),
{
    let mut text = String::new();
    let n = names.len();
    let mut i: usize = 0;
    while i < n
        invariant
            n == names.len(),
            i <= n,
            text@ == joined(names.deep_view().subrange(0, i as int), sep@),
        decreases n - i,
    {
        let ghost before = names.deep_view().subrange(0, i as int);
        let ghost after = names.deep_view().subrange(0, i + 1);
        proof {
            assert(after.drop_last() =~= before);
            assert(after.last() == names@[i as int]@);
        }
        if i > 0 {
            text.append(sep);
        }
        text.append(names[i].as_str());
        proof {
            assert(text@ =~= joined(after, sep@));
        }
        i += 1;
    }
    proof {
        assert(names.deep_view().subrange(0, n as int) =~= names.deep_view());
    }
    text
}

/// A copy of `names`.
pub fn clone_names(names: &Vec<String>) -> (copy: Vec<String>)
    ensures
        copy.deep_view() == names.deep_view(),
{
    let mut copy: Vec<String> = Vec::new();
    let n = names.len();
    let mut i: usize = 0;
    while i < n
        invariant
            n == names.len(),
            i <= n,
            copy.len() == i,
            forall|j: int| 0 <= j < i ==> copy@[j]@ == names@[j]@,
        decreases n - i,
    {
        copy.push(names[i].clone());
        i += 1;
    }
    assert(copy.deep_view() =~= names.deep_view());
    copy
}

/// A copy of `text`, where there is one.
pub fn clone_optional(text: &Option<String>) -> (copy: Option<String>)
    ensures
        copy.deep_view() == text.deep_view(),
{
    match text {
        Some(t) => Some(t.clone()),
        None => None,
    }
}

/// The text `verb` followed by `what`.
pub fn phrase(verb: &str, what: &str) -> (text: String)
    ensures
        text@ == verb@ + what@,
{
    let mut text = String::from_str(verb);
    text.append(what);
    text
}

/// The text `verb`, `first`, `link` and `second`, one after the other.
pub fn phrase_pair(verb: &str, first: &str, link: &str, second: &str) -> (text: String)
    ensures
        text@ == verb@ + first@ + link@ + second@,
{
    let mut text = String::from_str(verb);
    text.append(first);
    text.append(link);
    text.append(second);
    text
}

} // verus!
