//! Character-level helpers shared by the rest of the library.
//!
//! Strings are modelled as sequences of `char`. Matching "without regard to
//! case" means ASCII case folding throughout: the letters `A` to `Z` are
//! identified with `a` to `z`, and every other character matches only itself.

use vstd::prelude::*;
use vstd::string::*;

verus! {

/// `c` with an ASCII capital letter replaced by its small letter.
pub open spec fn lower_char(c: char) -> char {
    if 'A' <= c && c <= 'Z' {
        ((c as u8 + 32) as u8) as char
    } else {
        c
    }
}

/// `s` with every ASCII capital letter replaced by its small letter.
pub open spec fn fold(s: Seq<char>) -> Seq<char> {
    Seq::new(s.len(), |i: int| lower_char(s[i]))
}

/// Whether `a` and `b` are the same text once ASCII case is ignored.
pub open spec fn same_ignoring_case(a: Seq<char>, b: Seq<char>) -> bool {
    fold(a) == fold(b)
}

/// Whether `needle` occurs in `hay` at position `i`.
pub open spec fn occurs_at(hay: Seq<char>, needle: Seq<char>, i: int) -> bool {
    0 <= i && i + needle.len() <= hay.len() && hay.subrange(i, i + needle.len()) == needle
}

/// Whether `needle` occurs somewhere in `hay` as a contiguous run.
pub open spec fn is_substring(hay: Seq<char>, needle: Seq<char>) -> bool {
    exists|i: int| occurs_at(hay, needle, i)
}

/// Whether `needle` occurs in `hay` once ASCII case is ignored.
pub open spec fn contains_ignoring_case(hay: Seq<char>, needle: Seq<char>) -> bool {
    is_substring(fold(hay), fold(needle))
}

/// The characters of `s`, in order.
pub fn chars_of(s: &str) -> (r: Vec<char>)
    ensures
        r@ == s@,
{
    let mut out: Vec<char> = Vec::new();
    for c in it: s.chars()
        invariant
            out@ == it.seq().take(it.index() as int),
            it.seq() == s@,
    {
        out.push(c);
    }
    out
}

/// ASCII lower-casing of one character.
pub fn to_lower(c: char) -> (r: char)
    ensures
        r == lower_char(c),
{
    if 'A' <= c && c <= 'Z' {
        ((c as u8) + 32) as char
    } else {
        c
    }
}

/// Compares two texts, ignoring ASCII case.
pub fn eq_ignoring_case(a: &Vec<char>, b: &Vec<char>) -> (r: bool)
    ensures
        r == same_ignoring_case(a@, b@),
{
    if a.len() != b.len() {
        assert(fold(a@).len() != fold(b@).len());
        return false;
    }
    let mut i: usize = 0;
    while i < a.len()
        invariant
            i <= a.len(),
            a.len() == b.len(),
            forall|k: int| 0 <= k < i ==> lower_char(a@[k]) == lower_char(b@[k]),
        decreases a.len() - i,
    {
        if to_lower(a[i]) != to_lower(b[i]) {
            assert(fold(a@)[i as int] != fold(b@)[i as int]);
            return false;
        }
        i += 1;
    }
    assert(fold(a@) =~= fold(b@));
    true
}

/// Whether `needle` stands in `hay` at position `i`, with or without regard
/// to ASCII case.
pub open spec fn stands_at(hay: Seq<char>, needle: Seq<char>, i: int, ignore_case: bool) -> bool {
    if ignore_case {
        occurs_at(fold(hay), fold(needle), i)
    } else {
        occurs_at(hay, needle, i)
    }
}

fn matches_at(hay: &Vec<char>, needle: &Vec<char>, i: usize, ignore_case: bool) -> (r: bool)
    requires
        i + needle.len() <= hay.len(),
    ensures
        r == stands_at(hay@, needle@, i as int, ignore_case),
{
    let n = needle.len();
    let mut k: usize = 0;
    proof {
        assert(fold(needle@.take(0)) =~= Seq::<char>::empty());
        assert(fold(hay@).subrange(i as int, i as int) =~= Seq::<char>::empty());
        assert(hay@.subrange(i as int, i as int) =~= needle@.take(0));
    }
    while k < n
        invariant
            k <= n,
            n == needle.len(),
            i + n <= hay.len(),
            stands_at(hay@, needle@.take(k as int), i as int, ignore_case),
        decreases n - k,
    {
        let h = hay[i + k];
        let m = needle[k];
        let same = if ignore_case {
            to_lower(h) == to_lower(m)
        } else {
            h == m
        };
        if !same {
            proof {
                if ignore_case {
                    assert(fold(hay@).subrange(i as int, i + n)[k as int] != fold(needle@)[k as int]);
                } else {
                    assert(hay@.subrange(i as int, i + n)[k as int] != needle@[k as int]);
                }
            }
            return false;
        }
        proof {
            let next = needle@.take(k + 1);
            if ignore_case {
                assert(fold(needle@.take(k as int)) =~= fold(next).take(k as int));
                assert(fold(hay@).subrange(i as int, i + k) =~= fold(hay@).subrange(
                    i as int,
                    i + k + 1,
                ).take(k as int));
                assert(fold(hay@).subrange(i as int, i + k + 1) =~= fold(next));
            } else {
                assert(hay@.subrange(i as int, i + k) =~= hay@.subrange(i as int, i + k + 1).take(
                    k as int,
                ));
                assert(hay@.subrange(i as int, i + k + 1) =~= next);
            }
        }
        k += 1;
    }
    proof {
        assert(needle@.take(n as int) =~= needle@);
    }
    true
}

/// Searches `hay` for `needle`, with or without regard to ASCII case.
fn search(hay: &Vec<char>, needle: &Vec<char>, ignore_case: bool) -> (r: bool)
    ensures
        r == exists|i: int| stands_at(hay@, needle@, i, ignore_case),
{
    if needle.len() > hay.len() {
        return false;
    }
    let last = hay.len() - needle.len();
    let mut i: usize = 0;
    loop
        invariant
            i <= last,
            last == hay.len() - needle.len(),
            needle.len() <= hay.len(),
            forall|j: int| 0 <= j < i ==> !stands_at(hay@, needle@, j, ignore_case),
        decreases last - i,
    {
        if matches_at(hay, needle, i, ignore_case) {
            return true;
        }
        if i == last {
            return false;
        }
        i += 1;
    }
}

/// Whether `needle` occurs in `hay`.
pub fn contains(hay: &Vec<char>, needle: &Vec<char>) -> (r: bool)
    ensures
        r == is_substring(hay@, needle@),
{
    let r = search(hay, needle, false);
    proof {
        if r {
            let i = choose|i: int| stands_at(hay@, needle@, i, false);
            assert(occurs_at(hay@, needle@, i));
        } else {
            assert forall|i: int| !occurs_at(hay@, needle@, i) by {
                assert(!stands_at(hay@, needle@, i, false));
            }
        }
    }
    r
}

/// Whether `needle` occurs in `hay`, ignoring ASCII case.
pub fn contains_ignore_case(hay: &Vec<char>, needle: &Vec<char>) -> (r: bool)
    ensures
        r == contains_ignoring_case(hay@, needle@),
{
    let r = search(hay, needle, true);
    proof {
        if r {
            let i = choose|i: int| stands_at(hay@, needle@, i, true);
            assert(occurs_at(fold(hay@), fold(needle@), i));
        } else {
            assert forall|i: int| !occurs_at(fold(hay@), fold(needle@), i) by {
                assert(!stands_at(hay@, needle@, i, true));
            }
        }
    }
    r
}

/// Whether `chars` spells `word`, ignoring the ASCII case of `chars`.
pub fn text_is(chars: &Vec<char>, word: &str) -> (r: bool)
    ensures
        r == (fold(chars@) == word@),
{
    let expected = chars_of(word);
    if expected.len() != chars.len() {
        assert(fold(chars@).len() != word@.len());
        return false;
    }
    let mut k: usize = 0;
    while k < expected.len()
        invariant
            k <= expected.len(),
            expected.len() == chars.len(),
            expected@ == word@,
            forall|j: int| 0 <= j < k ==> lower_char(chars@[j]) == expected@[j],
        decreases expected.len() - k,
    {
        if to_lower(chars[k]) != expected[k] {
            assert(fold(chars@)[k as int] != word@[k as int]);
            return false;
        }
        k += 1;
    }
    assert(fold(chars@) =~= word@);
    true
}

/// The text that `str::to_lowercase` makes of `s`: each character replaced
/// by its Unicode lower-case form.
pub uninterp spec fn lowercase(s: Seq<char>) -> Seq<char>;

/// `str::to_lowercase` returns the lower-case form of the text, which depends
/// on the text alone.
pub assume_specification[ str::to_lowercase ](s: &str) -> (r: String)
    ensures
        r@ == lowercase(s@),
;

/// The text that `str::trim` leaves of `s`: `s` without the Unicode
/// whitespace at its two ends.
pub uninterp spec fn trimmed(s: Seq<char>) -> Seq<char>;

/// `str::trim` returns the text without leading and trailing whitespace,
/// which depends on the text alone.
pub assume_specification<'a>[ str::trim ](s: &'a str) -> (r: &'a str)
    ensures
        r@ == trimmed(s@),
;

/// The characters that `char::to_uppercase` yields for `c`: its Unicode
/// upper-case form, which can be more than one character.
pub uninterp spec fn uppercase_of(c: char) -> Seq<char>;

/// The upper-case form of `c`, collected from `char::to_uppercase`. It
/// depends on `c` alone.
#[verifier::external_body]
pub(crate) fn upper(c: char) -> (r: String)
    ensures
        r@ == uppercase_of(c),
{
    c.to_uppercase().collect()
}

/// Whether two texts are the same, character by character.
pub fn text_eq(a: &str, b: &str) -> (r: bool)
    ensures
        r == (a@ == b@),
{
    let x = chars_of(a);
    let y = chars_of(b);
    if x.len() != y.len() {
        return false;
    }
    let mut i: usize = 0;
    while i < x.len()
        invariant
            i <= x.len(),
            x.len() == y.len(),
            x@ == a@,
            y@ == b@,
            forall|k: int| 0 <= k < i ==> x@[k] == y@[k],
        decreases x.len() - i,
    {
        if x[i] != y[i] {
            assert(a@[i as int] != b@[i as int]);
            return false;
        }
        i += 1;
    }
    assert(x@ =~= y@);
    true
}

/// The character that writes the decimal digit `d`.
pub open spec fn digit_char(d: int) -> char {
    ((48 + d) as u8) as char
}

/// The decimal numeral of `n`, without leading zeros.
pub open spec fn decimal(n: nat) -> Seq<char>
    decreases n,
{
    if n < 10 {
        seq![digit_char(n as int)]
    } else {
        decimal(n / 10).push(digit_char((n % 10) as int))
    }
}

/// `k` copies of the character `c` (none where `k` is not positive).
pub open spec fn repeated(c: char, k: int) -> Seq<char> {
    Seq::new(
        if k > 0 {
            k as nat
        } else {
            0
        },
        |i: int| c,
    )
}

/// The decimal numeral of `n`, padded with zeros on the left to `width`
/// characters where it is shorter.
pub open spec fn padded(n: nat, width: nat) -> Seq<char> {
    repeated('0', width - decimal(n).len()) + decimal(n)
}

/// The numeral of one decimal digit.
fn digit_str(d: u64) -> (r: &'static str)
    requires
        d < 10,
    ensures
        r@ == seq![digit_char(d as int)],
{
    let r = match d {
        0 => "0",
        1 => "1",
        2 => "2",
        3 => "3",
        4 => "4",
        5 => "5",
        6 => "6",
        7 => "7",
        8 => "8",
        _ => "9",
    };
    proof {
        reveal_strlit("0");
        reveal_strlit("1");
        reveal_strlit("2");
        reveal_strlit("3");
        reveal_strlit("4");
        reveal_strlit("5");
        reveal_strlit("6");
        reveal_strlit("7");
        reveal_strlit("8");
        reveal_strlit("9");
        assert(r@ =~= seq![digit_char(d as int)]);
    }
    r
}

/// Appends the decimal numeral of `n` to `out`.
pub fn append_decimal(out: &mut String, n: u64)
    ensures
        final(out)@ == old(out)@ + decimal(n as nat),
    decreases n,
{
    if n < 10 {
        out.append(digit_str(n));
    } else {
        append_decimal(out, n / 10);
        out.append(digit_str(n % 10));
        proof {
            assert(final(out)@ =~= old(out)@ + decimal(n as nat));
        }
    }
}

/// The number of characters in the decimal numeral of `n`.
pub fn decimal_len(n: u64) -> (r: usize)
    ensures
        r == decimal(n as nat).len(),
        1 <= r <= 20,
{
    let mut count: usize = 1;
    let mut rest: u64 = n;
    proof {
        assert(pow10(0) == 1);
        assert(rest * pow10(0) == n) by (nonlinear_arith)
            requires
                pow10(0) == 1,
                rest == n,
        ;
    }
    while rest >= 10
        invariant
            1 <= count,
            count + decimal(rest as nat).len() == decimal(n as nat).len() + 1,
            rest * pow10((count - 1) as nat) <= n,
            count <= 20,
        decreases rest,
    {
        proof {
            lemma_pow10_step(rest as nat, (count - 1) as nat, n as nat);
        }
        rest = rest / 10;
        count += 1;
    }
    count
}

/// Ten to the power `k`.
pub open spec fn pow10(k: nat) -> nat
    decreases k,
{
    if k == 0 {
        1
    } else {
        10 * pow10((k - 1) as nat)
    }
}

proof fn lemma_pow10_step(rest: nat, k: nat, n: nat)
    requires
        rest >= 10,
        rest * pow10(k) <= n,
        n <= u64::MAX,
    ensures
        (rest / 10) * pow10(k + 1) <= n,
        k + 1 < 20,
{
    assert((rest / 10) * 10 <= rest);
    assert((rest / 10) * pow10(k + 1) == ((rest / 10) * 10) * pow10(k)) by (nonlinear_arith)
        requires
            pow10(k + 1) == 10 * pow10(k),
    ;
    assert(((rest / 10) * 10) * pow10(k) <= rest * pow10(k)) by (nonlinear_arith)
        requires
            (rest / 10) * 10 <= rest,
    ;
    if k + 1 >= 20 {
        lemma_pow10_grows(19, k);
        assert(pow10(19) == 10000000000000000000nat) by {
            reveal_with_fuel(pow10, 20);
        }
        assert(rest * pow10(k) >= 10 * pow10(19)) by (nonlinear_arith)
            requires
                rest >= 10,
                pow10(k) >= pow10(19),
        ;
    }
}

proof fn lemma_pow10_grows(a: nat, b: nat)
    requires
        a <= b,
    ensures
        pow10(a) <= pow10(b),
        pow10(a) >= 1,
    decreases b,
{
    if a == 0 {
        if b > 0 {
            lemma_pow10_grows(0, (b - 1) as nat);
        }
    } else if a < b {
        lemma_pow10_grows(a, (b - 1) as nat);
    } else {
        lemma_pow10_grows((a - 1) as nat, (b - 1) as nat);
    }
}

/// Appends `k` copies of the one-character text `unit` to `out`.
pub fn append_repeated(out: &mut String, unit: &str, k: usize)
    requires
        unit@.len() == 1,
    ensures
        final(out)@ == old(out)@ + repeated(unit@[0], k as int),
{
    let mut i: usize = 0;
    proof {
        assert(out@ =~= old(out)@ + repeated(unit@[0], 0));
    }
    while i < k
        invariant
            i <= k,
            unit@.len() == 1,
            out@ == old(out)@ + repeated(unit@[0], i as int),
        decreases k - i,
    {
        out.append(unit);
        proof {
            assert(out@ =~= old(out)@ + repeated(unit@[0], i + 1));
        }
        i += 1;
    }
}

/// Appends the decimal numeral of `n`, padded with zeros to `width`.
pub fn append_padded(out: &mut String, n: u64, width: usize)
    ensures
        final(out)@ == old(out)@ + padded(n as nat, width as nat),
{
    let len = decimal_len(n);
    let fill = if width > len {
        width - len
    } else {
        0
    };
    proof {
        reveal_strlit("0");
    }
    append_repeated(out, "0", fill);
    append_decimal(out, n);
    proof {
        assert(final(out)@ =~= old(out)@ + padded(n as nat, width as nat));
    }
}

} // verus!
