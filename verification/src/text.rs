//! Small verified helpers on strings, stated over sequences of characters.

use vstd::prelude::*;

verus! {

/// `String::push` appends the given character to the end of the string.
pub assume_specification[ String::push ](s: &mut String, ch: char)
    ensures
        final(s)@ == old(s)@.push(ch),
;

/// `i` is the first position of `c` in `s`.
pub open spec fn is_first(s: Seq<char>, c: char, i: int) -> bool {
    &&& 0 <= i < s.len()
    &&& s[i] == c
    &&& forall|j: int| 0 <= j < i ==> s[j] != c
}

/// The text before and the text after the first `sep` in `s`; `None` where
/// `s` holds no `sep`.
pub open spec fn split_at_first(s: Seq<char>, sep: char) -> Option<(Seq<char>, Seq<char>)> {
    if exists|i: int| is_first(s, sep, i) {
        let i = choose|i: int| is_first(s, sep, i);
        Some((s.take(i), s.skip(i + 1)))
    } else {
        None
    }
}

/// A first position is the only one.
pub proof fn lemma_first_is_unique(s: Seq<char>, c: char, i: int, j: int)
    requires
        is_first(s, c, i),
        is_first(s, c, j),
    ensures
        i == j,
{
}

/// Splitting at the first `sep` yields the parts around position `i` when
/// `i` is that first position.
pub proof fn lemma_split_at(s: Seq<char>, sep: char, i: int)
    requires
        is_first(s, sep, i),
    ensures
        split_at_first(s, sep) == Some((s.take(i), s.skip(i + 1))),
{
    let j = choose|j: int| is_first(s, sep, j);
    lemma_first_is_unique(s, sep, i, j);
}

/// A text without `sep` does not split.
pub proof fn lemma_no_split(s: Seq<char>, sep: char)
    requires
        forall|j: int| 0 <= j < s.len() ==> s[j] != sep,
    ensures
        split_at_first(s, sep) is None,
{
}

/// Splits `s` on the first occurrence of `sep`, as `str::split_once` does
/// for a single character.
pub fn split_once(s: &str, sep: char) -> (r: Option<(String, String)>)
    ensures
        match r {
            Some((head, tail)) => split_at_first(s@, sep) == Some((head@, tail@)),
            None => split_at_first(s@, sep) is None,
        },
{
    let mut head = String::new();
    let mut tail = String::new();
    let mut found = false;
    let ghost mut at: int = 0;
    for c in it: s.chars()
        invariant
            it.seq() == s@,
            found ==> is_first(s@, sep, at) && at < it.index(),
            found ==> head@ == s@.take(at) && tail@ == s@.subrange(at + 1, it.index() as int),
            !found ==> head@ == s@.take(it.index() as int) && tail@.len() == 0,
            !found ==> forall|j: int| 0 <= j < it.index() ==> s@[j] != sep,
    {
        if found {
            tail.push(c);
            assert(s@.subrange(at + 1, it.index() + 1) =~= s@.subrange(at + 1, it.index() as int).push(c));
        } else if c == sep {
            found = true;
            proof {
                at = it.index() as int;
                assert(s@.subrange(at + 1, it.index() + 1) =~= Seq::<char>::empty());
            }
        } else {
            head.push(c);
            assert(s@.take(it.index() + 1) =~= s@.take(it.index() as int).push(c));
        }
    }
    if found {
        proof {
            lemma_split_at(s@, sep, at);
            assert(s@.subrange(at + 1, s@.len() as int) =~= s@.skip(at + 1));
        }
        Some((head, tail))
    } else {
        proof {
            lemma_no_split(s@, sep);
        }
        None
    }
}

/// The characters of `s`, in order.
pub fn to_chars(s: &str) -> (v: Vec<char>)
    ensures
        v@ == s@,
{
    let mut v: Vec<char> = Vec::new();
    for c in it: s.chars()
        invariant
            it.seq() == s@,
            v@ == s@.take(it.index() as int),
    {
        v.push(c);
        assert(s@.take(it.index() + 1) =~= s@.take(it.index() as int).push(c));
    }
    assert(s@.take(s@.len() as int) =~= s@);
    v
}

/// An ASCII capital letter as its small letter; any other character as it is.
pub open spec fn ascii_lower(c: char) -> char {
    if 'A' <= c && c <= 'Z' {
        ((c as u8) + 32) as char
    } else {
        c
    }
}

/// Two texts are the same but for the case of their ASCII letters.
pub open spec fn same_ignoring_ascii_case(a: Seq<char>, b: Seq<char>) -> bool {
    &&& a.len() == b.len()
    &&& forall|i: int| 0 <= i < a.len() ==> ascii_lower(a[i]) == ascii_lower(b[i])
}

fn lower(c: char) -> (r: char)
    ensures
        r == ascii_lower(c),
{
    if 'A' <= c && c <= 'Z' {
        ((c as u8) + 32) as char
    } else {
        c
    }
}

/// Compares two texts without regard to the case of ASCII letters, as
/// `str::eq_ignore_ascii_case` does.
pub fn eq_ignore_ascii_case(a: &str, b: &str) -> (r: bool)
    ensures
        r == same_ignoring_ascii_case(a@, b@),
{
    let left = to_chars(a);
    let right = to_chars(b);
    if left.len() != right.len() {
        return false;
    }
    let mut i: usize = 0;
    while i < left.len()
        invariant
            left@ == a@,
            right@ == b@,
            left.len() == right.len(),
            i <= left.len(),
            forall|j: int| 0 <= j < i ==> ascii_lower(a@[j]) == ascii_lower(b@[j]),
        decreases left.len() - i,
    {
        if lower(left[i]) != lower(right[i]) {
            return false;
        }
        i += 1;
    }
    true
}

/// Whether two texts hold the same characters.
pub fn str_eq(a: &str, b: &str) -> (r: bool)
    ensures
        r == (a@ == b@),
{
    let left = to_chars(a);
    let right = to_chars(b);
    if left.len() != right.len() {
        return false;
    }
    let mut i: usize = 0;
    while i < left.len()
        invariant
            left@ == a@,
            right@ == b@,
            left.len() == right.len(),
            i <= left.len(),
            forall|j: int| 0 <= j < i ==> a@[j] == b@[j],
        decreases left.len() - i,
    {
        if left[i] != right[i] {
            return false;
        }
        i += 1;
    }
    assert(a@ =~= b@);
    true
}

/// The character that stands for the digit `d`.
pub open spec fn digit(d: int) -> char {
    if d == 0 {
        '0'
    } else if d == 1 {
        '1'
    } else if d == 2 {
        '2'
    } else if d == 3 {
        '3'
    } else if d == 4 {
        '4'
    } else if d == 5 {
        '5'
    } else if d == 6 {
        '6'
    } else if d == 7 {
        '7'
    } else if d == 8 {
        '8'
    } else {
        '9'
    }
}

/// The decimal digits of `n`, most significant first, without leading zeros.
pub open spec fn digits(n: nat) -> Seq<char>
    decreases n,
{
    if n < 10 {
        seq![digit(n as int)]
    } else {
        digits(n / 10).push(digit((n % 10) as int))
    }
}

/// The decimal notation of `n`: its digits, after a minus sign where `n` is
/// negative.
pub open spec fn decimal(n: int) -> Seq<char> {
    if n < 0 {
        seq!['-'] + digits((-n) as nat)
    } else {
        digits(n as nat)
    }
}

fn digit_char(d: u64) -> (c: char)
    requires
        d < 10,
    ensures
        c == digit(d as int),
{
    if d == 0 {
        '0'
    } else if d == 1 {
        '1'
    } else if d == 2 {
        '2'
    } else if d == 3 {
        '3'
    } else if d == 4 {
        '4'
    } else if d == 5 {
        '5'
    } else if d == 6 {
        '6'
    } else if d == 7 {
        '7'
    } else if d == 8 {
        '8'
    } else {
        '9'
    }
}

fn push_digits(out: &mut String, n: u64)
    ensures
        final(out)@ == old(out)@ + digits(n as nat),
    decreases n,
{
    if n >= 10 {
        push_digits(out, n / 10);
    }
    out.push(digit_char(n % 10));
    proof {
        if n >= 10 {
            assert(old(out)@ + digits(n as nat) =~= (old(out)@ + digits((n / 10) as nat)).push(
                digit((n % 10) as int),
            ));
        } else {
            assert(old(out)@ + digits(n as nat) =~= old(out)@.push(digit(n as int)));
        }
    }
}

/// Writes `n` in decimal, as `to_string` does for an unsigned integer.
pub fn unsigned_decimal(n: u64) -> (s: String)
    ensures
        s@ == decimal(n as int),
{
    let mut s = String::new();
    push_digits(&mut s, n);
    assert(Seq::<char>::empty() + digits(n as nat) =~= digits(n as nat));
    s
}

/// Writes `n` in decimal, as `to_string` does for a signed integer.
pub fn signed_decimal(n: i64) -> (s: String)
    ensures
        s@ == decimal(n as int),
{
    if n >= 0 {
        unsigned_decimal(n as u64)
    } else {
        let magnitude: u64 = ((-(n + 1)) as u64) + 1;
        let mut s = String::new();
        s.push('-');
        push_digits(&mut s, magnitude);
        assert(Seq::<char>::empty().push('-') =~= seq!['-']);
        s
    }
}

/// Ten to the power of `k`.
pub open spec fn pow10(k: nat) -> nat
    decreases k,
{
    if k == 0 {
        1
    } else {
        10 * pow10((k - 1) as nat)
    }
}

/// A number below ten to the `k` has at most `k` digits, and every number
/// has one at least.
pub proof fn lemma_digits_len(n: nat, k: nat)
    requires
        k >= 1,
        n < pow10(k),
    ensures
        1 <= digits(n).len() <= k,
    decreases k,
{
    assert(pow10(1) == 10) by {
        reveal_with_fuel(pow10, 2);
    }
    if n >= 10 {
        lemma_digits_len(n / 10, (k - 1) as nat);
    }
}

/// Digits are ASCII characters.
pub proof fn lemma_digits_ascii(n: nat)
    ensures
        vstd::utf8::is_ascii_chars(digits(n)),
    decreases n,
{
    if n >= 10 {
        lemma_digits_ascii(n / 10);
    }
}

/// The decimal notation of a 32-bit number is ASCII and has at most eleven
/// characters.
pub proof fn lemma_decimal_i32(n: i32)
    ensures
        vstd::utf8::is_ascii_chars(decimal(n as int)),
        1 <= decimal(n as int).len() <= 11,
{
    assert(pow10(10) == 10_000_000_000) by {
        reveal_with_fuel(pow10, 11);
    }
    if n < 0 {
        lemma_digits_len((-n) as nat, 10);
        lemma_digits_ascii((-n) as nat);
    } else {
        lemma_digits_len(n as nat, 10);
        lemma_digits_ascii(n as nat);
    }
}

} // verus!
