//! Text helpers: trimming, case folding, substring search and decimal numerals.

use vstd::prelude::*;
use vstd::string::*;

verus! {

/// The text inside an optional string.
pub open spec fn opt_view(text: Option<String>) -> Option<Seq<char>> {
    match text {
        Some(t) => Some(t@),
        None => None,
    }
}

/// The Unicode property `White_Space`.
pub open spec fn white_space(c: char) -> bool {
    ||| '\u{9}' <= c <= '\u{d}'
    ||| c == '\u{20}'
    ||| c == '\u{85}'
    ||| c == '\u{a0}'
    ||| c == '\u{1680}'
    ||| '\u{2000}' <= c <= '\u{200a}'
    ||| c == '\u{2028}'
    ||| c == '\u{2029}'
    ||| c == '\u{202f}'
    ||| c == '\u{205f}'
    ||| c == '\u{3000}'
}

/// `s` without the white space at its two ends.
pub open spec fn trimmed(s: Seq<char>) -> Seq<char>
    decreases s.len(),
{
    if s.len() > 0 && white_space(s.first()) {
        trimmed(s.drop_first())
    } else if s.len() > 0 && white_space(s.last()) {
        trimmed(s.drop_last())
    } else {
        s
    }
}

/// `s` holds nothing but white space.
pub open spec fn blank(s: Seq<char>) -> bool {
    forall|i: int| 0 <= i < s.len() ==> white_space(#[trigger] s[i])
}

/// A text trims to nothing exactly when it is blank.
pub proof fn law_trimmed_empty_iff_blank(s: Seq<char>)
    ensures
        trimmed(s).len() == 0 <==> blank(s),
    decreases s.len(),
{
    if s.len() > 0 && white_space(s.first()) {
        law_trimmed_empty_iff_blank(s.drop_first());
        assert(blank(s.drop_first()) ==> blank(s)) by {
            assert forall|i: int| blank(s.drop_first()) && 0 <= i < s.len() implies white_space(
                #[trigger] s[i],
            ) by {
                if i > 0 {
                    assert(s.drop_first()[i - 1] == s[i]);
                }
            }
        }
    } else if s.len() > 0 && white_space(s.last()) {
        law_trimmed_empty_iff_blank(s.drop_last());
        assert(!white_space(s[0]));
        assert(s.drop_last()[0] == s[0]);
    } else if s.len() > 0 {
        assert(!white_space(s[0]));
    }
}

/// Trimming a trimmed text changes nothing.
pub proof fn law_trimmed_idempotent(s: Seq<char>)
    ensures
        trimmed(trimmed(s)) == trimmed(s),
    decreases s.len(),
{
    if s.len() > 0 && white_space(s.first()) {
        law_trimmed_idempotent(s.drop_first());
    } else if s.len() > 0 && white_space(s.last()) {
        law_trimmed_idempotent(s.drop_last());
    }
}

/// `str::trim`: the text without leading and trailing characters that have the Unicode property
/// `White_Space`.
#[verifier::external_body]
pub(crate) fn trim(s: &str) -> (r: &str)
    ensures
        r@ == trimmed(s@),
{
    s.trim()
}

/// Whether a text is empty once trimmed.
pub fn is_blank(s: &str) -> (r: bool)
    ensures
        r == blank(s@),
{
    proof {
        law_trimmed_empty_iff_blank(s@);
    }
    trim(s).is_empty()
}

/// What `str::to_lowercase` makes of a text.
pub uninterp spec fn lowercase(s: Seq<char>) -> Seq<char>;

/// `c` in lower case, where `c` is an ASCII character.
pub open spec fn ascii_lower(c: char) -> char {
    if 'A' <= c <= 'Z' {
        (c as u32 + 32) as char
    } else {
        c
    }
}

/// `str::to_lowercase`. The Unicode lower-casing of an arbitrary text is only named; of a text
/// made of ASCII characters the contract says that `A` to `Z` become `a` to `z` and that all else
/// is kept.
#[verifier::external_body]
pub(crate) fn to_lowercase(s: &str) -> (r: String)
    ensures
        r@ == lowercase(s@),
        is_ascii(s) ==> r@ == s@.map_values(|c: char| ascii_lower(c)),
{
    s.to_lowercase()
}

/// `part` occurs in `s` as a run of consecutive characters.
pub open spec fn contains_text(s: Seq<char>, part: Seq<char>) -> bool {
    exists|i: int|
        0 <= i <= s.len() - part.len() && #[trigger] s.subrange(i, i + part.len()) == part
}

/// The characters of a text, in order.
pub(crate) fn chars_of(s: &str) -> (r: Vec<char>)
    ensures
        r@ == s@,
{
    let mut out: Vec<char> = Vec::new();
    for c in it: s.chars()
        invariant
            it.seq() == s@,
            out@ == s@.take(it.index() as int),
    {
        out.push(c);
        assert(out@ =~= s@.take(it.index() as int + 1));
    }
    assert(s@.take(s@.len() as int) =~= s@);
    out
}

/// Whether `part` stands in `s` at position `at`.
fn occurs_at(s: &Vec<char>, part: &Vec<char>, at: usize) -> (r: bool)
    requires
        at + part@.len() <= s@.len(),
    ensures
        r == (s@.subrange(at as int, at + part@.len()) == part@),
{
    let len: usize = s.len();
    let mut i: usize = 0;
    while i < part.len()
        invariant
            i <= part@.len(),
            len == s@.len(),
            at + part@.len() <= len,
            forall|j: int| 0 <= j < i ==> s@[at + j] == part@[j],
        decreases part@.len() - i,
    {
        if s[at + i] != part[i] {
            assert(s@.subrange(at as int, at + part@.len())[i as int] != part@[i as int]);
            return false;
        }
        i = i + 1;
    }
    assert(s@.subrange(at as int, at + part@.len()) =~= part@);
    true
}

/// Whether `part` occurs in `s`.
pub fn contains(s: &str, part: &str) -> (r: bool)
    ensures
        r == contains_text(s@, part@),
{
    let text = chars_of(s);
    let wanted = chars_of(part);
    if wanted.len() > text.len() {
        return false;
    }
    let last: usize = text.len() - wanted.len();
    let mut at: usize = 0;
    while at <= last
        invariant
            text@ == s@,
            wanted@ == part@,
            last == text@.len() - wanted@.len(),
            at <= last + 1,
            forall|i: int|
                0 <= i < at ==> #[trigger] s@.subrange(i, i + part@.len()) != part@,
        decreases last + 1 - at,
    {
        if occurs_at(&text, &wanted, at) {
            assert(s@.subrange(at as int, at + part@.len()) == part@);
            return true;
        }
        if at == last {
            assert forall|i: int|
                0 <= i <= s@.len() - part@.len() implies #[trigger] s@.subrange(i, i + part@.len())
                != part@ by {}
            return false;
        }
        at = at + 1;
    }
    false
}

/// Whether two texts are the same.
pub fn same_text(a: &str, b: &str) -> (r: bool)
    ensures
        r == (a@ == b@),
{
    a.to_owned() == b.to_owned()
}

/// A copy of an optional text.
pub(crate) fn clone_opt(text: &Option<String>) -> (r: Option<String>)
    ensures
        opt_view(r) == opt_view(*text),
{
    match text {
        Some(t) => Some(t.clone()),
        None => None,
    }
}

/// `a` followed by `b`.
pub(crate) fn concat(a: &str, b: &str) -> (r: String)
    ensures
        r@ == a@ + b@,
{
    a.to_owned().concat(b)
}

/// The decimal digit `d`.
pub open spec fn digit(d: nat) -> char {
    ('0' as nat + d) as char
}

/// The decimal numeral of `n`, without leading zeros.
pub open spec fn decimal(n: nat) -> Seq<char>
    decreases n,
{
    if n < 10 {
        seq![digit(n)]
    } else {
        decimal(n / 10).push(digit(n % 10))
    }
}

fn digit_text(d: u128) -> (r: &'static str)
    requires
        d < 10,
    ensures
        r@ == seq![digit(d as nat)],
{
    proof {
        reveal_strlit("0");
        reveal_strlit("1");
        reveal_strlit("2");
        reveal_strlit("3");
        reveal_strlit("4");
        reveal_strlit("5");
        reveal_strlit("6");
        reveal_strlit("7");
        reveal_strlit("8");
        reveal_strlit("9");
    }
    let text = if d == 0 {
        "0"
    } else if d == 1 {
        "1"
    } else if d == 2 {
        "2"
    } else if d == 3 {
        "3"
    } else if d == 4 {
        "4"
    } else if d == 5 {
        "5"
    } else if d == 6 {
        "6"
    } else if d == 7 {
        "7"
    } else if d == 8 {
        "8"
    } else {
        "9"
    };
    assert(text@ =~= seq![digit(d as nat)]);
    text
}

/// `n` in decimal.
pub fn decimal_text(n: u128) -> (r: String)
    ensures
        r@ == decimal(n as nat),
    decreases n,
{
    if n < 10 {
        digit_text(n).to_owned()
    } else {
        let head = decimal_text(n / 10);
        let r = head.concat(digit_text(n % 10));
        assert(r@ =~= decimal(n as nat));
        r
    }
}

/// Every character of a numeral is a digit, and there is at least one.
pub proof fn law_decimal_digits(n: nat)
    ensures
        decimal(n).len() > 0,
        forall|i: int| 0 <= i < decimal(n).len() ==> '0' <= #[trigger] decimal(n)[i] <= '9',
    decreases n,
{
    if n >= 10 {
        law_decimal_digits(n / 10);
    }
}

/// Different numbers have different numerals.
pub proof fn law_decimal_injective(a: nat, b: nat)
    requires
        decimal(a) == decimal(b),
    ensures
        a == b,
    decreases a,
{
    law_decimal_digits(a / 10);
    law_decimal_digits(b / 10);
    let da = decimal(a);
    let db = decimal(b);
    assert(da.last() == digit(a % 10));
    assert(db.last() == digit(b % 10));
    assert(a % 10 == b % 10);
    if a >= 10 {
        assert(da.drop_last() =~= decimal(a / 10));
        if b >= 10 {
            assert(db.drop_last() =~= decimal(b / 10));
            law_decimal_injective(a / 10, b / 10);
        } else {
            assert(db.len() == 1);
        }
    } else if b >= 10 {
        assert(db.drop_last() =~= decimal(b / 10));
        assert(da.len() == 1);
    }
}

/// Trimming takes away white space at the two ends and nothing else: what is left neither starts nor
/// ends with white space.
pub proof fn law_trimmed_splits(s: Seq<char>) -> (ends: (Seq<char>, Seq<char>))
    ensures
        s == ends.0 + trimmed(s) + ends.1,
        blank(ends.0),
        blank(ends.1),
        trimmed(s).len() > 0 ==> !white_space(trimmed(s).first()) && !white_space(
            trimmed(s).last(),
        ),
    decreases s.len(),
{
    if s.len() > 0 && white_space(s.first()) {
        let (a, b) = law_trimmed_splits(s.drop_first());
        let front = seq![s.first()] + a;
        assert(s =~= seq![s.first()] + s.drop_first());
        assert(seq![s.first()] + (a + trimmed(s) + b) =~= front + trimmed(s) + b);
        assert forall|i: int| 0 <= i < front.len() implies white_space(#[trigger] front[i]) by {
            if i > 0 {
                assert(front[i] == a[i - 1]);
            }
        }
        (front, b)
    } else if s.len() > 0 && white_space(s.last()) {
        let (a, b) = law_trimmed_splits(s.drop_last());
        let back = b.push(s.last());
        assert(s =~= s.drop_last().push(s.last()));
        assert((a + trimmed(s) + b).push(s.last()) =~= a + trimmed(s) + back);
        assert forall|i: int| 0 <= i < back.len() implies white_space(#[trigger] back[i]) by {
            if i < b.len() {
                assert(back[i] == b[i]);
            }
        }
        (a, back)
    } else {
        assert(s =~= Seq::<char>::empty() + s + Seq::<char>::empty());
        (Seq::empty(), Seq::empty())
    }
}

/// A text is blank exactly when each of its characters is white space.
pub proof fn law_blank(a: Seq<char>, c: char, b: Seq<char>)
    ensures
        blank(Seq::empty()),
        blank(a + b) <==> blank(a) && blank(b),
        blank(seq![c]) <==> white_space(c),
{
    assert(blank(a + b) ==> blank(a) && blank(b)) by {
        assert forall|i: int| blank(a + b) && 0 <= i < a.len() implies white_space(
            #[trigger] a[i],
        ) by {
            assert((a + b)[i] == a[i]);
        }
        assert forall|i: int| blank(a + b) && 0 <= i < b.len() implies white_space(
            #[trigger] b[i],
        ) by {
            assert((a + b)[a.len() + i] == b[i]);
        }
    }
    assert(seq![c][0] == c);
}

/// A text contains whatever it is put together from, wherever that stands in it.
pub proof fn law_contains_parts(before: Seq<char>, part: Seq<char>, after: Seq<char>)
    ensures
        contains_text(before + part + after, part),
{
    let s = before + part + after;
    let i = before.len() as int;
    assert(s.subrange(i, i + part.len()) =~= part);
}

/// What a text contains, it can be put together from.
pub proof fn law_contained_part(s: Seq<char>, part: Seq<char>) -> (ends: (Seq<char>, Seq<char>))
    requires
        contains_text(s, part),
    ensures
        s == ends.0 + part + ends.1,
{
    let i = choose|i: int|
        0 <= i <= s.len() - part.len() && #[trigger] s.subrange(i, i + part.len()) == part;
    let front = s.take(i);
    let back = s.skip(i + part.len());
    assert(s =~= front + s.subrange(i, i + part.len()) + back);
    (front, back)
}

/// The number that a row of decimal digits stands for.
pub open spec fn value_of(digits: Seq<char>) -> int
    decreases digits.len(),
{
    if digits.len() == 0 {
        0
    } else {
        10 * value_of(digits.drop_last()) + (digits.last() as int - 48)
    }
}

/// A numeral stands for its number, and starts with a zero only where that is all.
pub proof fn law_decimal_value(n: nat)
    ensures
        value_of(decimal(n)) == n,
        decimal(n).first() == '0' ==> n == 0 && decimal(n).len() == 1,
    decreases n,
{
    reveal_with_fuel(value_of, 2);
    if n < 10 {
        assert(decimal(n).drop_last() =~= Seq::<char>::empty());
    } else {
        law_decimal_value(n / 10);
        law_decimal_digits(n / 10);
        assert(decimal(n).drop_last() =~= decimal(n / 10));
        assert(decimal(n).first() == decimal(n / 10).first());
    }
}

/// In lower case, the letters `A` to `Z` are moved by the distance between `A` and `a`, and every
/// other character stays.
pub proof fn law_ascii_lower(c: char)
    ensures
        'A' <= c <= 'Z' ==> ascii_lower(c) as int - c as int == 'a' as int - 'A' as int,
        !('A' <= c <= 'Z') ==> ascii_lower(c) == c,
{
}

} // verus!
