//! Reading integers from text and writing them as zero-padded decimals.

use vstd::prelude::*;
use vstd::string::*;

verus! {

/// `c` is one of `0` to `9`.
pub open spec fn is_ascii_digit(c: char) -> bool {
    '0' <= c && c <= '9'
}

/// The value of a digit.
pub open spec fn digit_value(c: char) -> int {
    c as int - '0' as int
}

/// Every character of `s` is a digit.
pub open spec fn all_digits(s: Seq<char>) -> bool {
    forall|i: int| 0 <= i < s.len() ==> is_ascii_digit(#[trigger] s[i])
}

/// The number that a string of decimal digits spells.
pub open spec fn digits_value(s: Seq<char>) -> int
    decreases s.len(),
{
    if s.len() == 0 {
        0
    } else {
        digits_value(s.drop_last()) * 10 + digit_value(s.last())
    }
}

/// The integer that `s` spells: an optional `+` or `-` followed by at least
/// one ASCII digit, and nothing else.
pub open spec fn integer_text_value(s: Seq<char>) -> Option<int> {
    if s.len() > 0 && (s[0] == '+' || s[0] == '-') {
        let digits = s.skip(1);
        if digits.len() > 0 && all_digits(digits) {
            if s[0] == '-' {
                Some(-digits_value(digits))
            } else {
                Some(digits_value(digits))
            }
        } else {
            None
        }
    } else if s.len() > 0 && all_digits(s) {
        Some(digits_value(s))
    } else {
        None
    }
}

/// What reading `s` as an `i64` gives, as `str::parse::<i64>` reads it: the
/// integer that `s` spells, if there is one and it fits in an `i64`.
pub open spec fn i64_text_value(s: Seq<char>) -> Option<int> {
    match integer_text_value(s) {
        Some(v) => if i64::MIN <= v <= i64::MAX {
            Some(v)
        } else {
            None
        },
        None => None,
    }
}

/// The lesser of two.
pub open spec fn min_int(a: int, b: int) -> int {
    if a <= b {
        a
    } else {
        b
    }
}

proof fn lemma_digits_value_nonneg(s: Seq<char>)
    requires
        all_digits(s),
    ensures
        digits_value(s) >= 0,
    decreases s.len(),
{
    if s.len() > 0 {
        assert(is_ascii_digit(s[s.len() - 1]));
        lemma_digits_value_nonneg(s.drop_last());
    }
}

/// Reads the digits `s[start..]` as a number; numbers past `2^63` all come
/// back as `2^63 + 1`.
fn read_digits_capped(s: &Vec<char>, start: usize) -> (r: Option<i128>)
    requires
        start <= s.len(),
    ensures
        r is Some <==> all_digits(s@.skip(start as int)),
        r matches Some(v) ==> v == min_int(
            digits_value(s@.skip(start as int)),
            0x8000_0000_0000_0001,
        ),
{
    let cap: i128 = 0x8000_0000_0000_0001;
    let mut acc: i128 = 0;
    let mut i = start;
    while i < s.len()
        invariant
            start <= i <= s.len(),
            all_digits(s@.subrange(start as int, i as int)),
            acc == min_int(digits_value(s@.subrange(start as int, i as int)), cap as int),
            0 <= acc <= cap,
            cap == 0x8000_0000_0000_0001,
        decreases s.len() - i,
    {
        let c = s[i];
        if !('0' <= c && c <= '9') {
            proof {
                assert(s@.skip(start as int)[i - start] == c);
            }
            return None;
        }
        let d = (c as u32 - '0' as u32) as i128;
        let ghost prefix = s@.subrange(start as int, i as int);
        let ghost next = s@.subrange(start as int, i + 1);
        proof {
            assert(next.drop_last() =~= prefix);
            assert(next.last() == c);
            lemma_digits_value_nonneg(prefix);
            assert(digit_value(c) == d);
            assert(digits_value(next) == digits_value(prefix) * 10 + d);
            assert(all_digits(next));
        }
        let grown = acc * 10 + d;
        acc = if grown < cap {
            grown
        } else {
            cap
        };
        i = i + 1;
    }
    proof {
        assert(s@.subrange(start as int, s.len() as int) =~= s@.skip(start as int));
    }
    Some(acc)
}

/// Reads `s` as an `i64` the way `str::parse::<i64>` does.
pub fn parse_i64(s: &Vec<char>) -> (r: Option<i64>)
    ensures
        match r {
            Some(v) => i64_text_value(s@) == Some(v as int),
            None => i64_text_value(s@) is None,
        },
{
    if s.len() == 0 {
        return None;
    }
    let signed = s[0] == '+' || s[0] == '-';
    let start: usize = if signed {
        1
    } else {
        0
    };
    if start == s.len() {
        return None;
    }
    proof {
        if !signed {
            assert(s@.skip(0) =~= s@);
        }
    }
    match read_digits_capped(s, start) {
        None => None,
        Some(magnitude) => {
            proof {
                lemma_digits_value_nonneg(s@.skip(start as int));
            }
            if s[0] == '-' {
                if magnitude <= 0x8000_0000_0000_0000 {
                    Some((-magnitude) as i64)
                } else {
                    None
                }
            } else {
                if magnitude <= 0x7fff_ffff_ffff_ffff {
                    Some(magnitude as i64)
                } else {
                    None
                }
            }
        },
    }
}

/// What reading `s` as an `i32` gives, as `str::parse::<i32>` reads it: the
/// integer that `s` spells, if there is one and it fits in an `i32`.
pub open spec fn i32_text_value(s: Seq<char>) -> Option<int> {
    match integer_text_value(s) {
        Some(v) => if i32::MIN <= v <= i32::MAX {
            Some(v)
        } else {
            None
        },
        None => None,
    }
}

/// Reads `s` as an `i32` the way `str::parse::<i32>` does.
pub fn parse_i32(s: &str) -> (r: Option<i32>)
    ensures
        match r {
            Some(v) => i32_text_value(s@) == Some(v as int),
            None => i32_text_value(s@) is None,
        },
{
    let chars = chars_of(s);
    match parse_i64(&chars) {
        Some(v) => if i32::MIN as i64 <= v && v <= i32::MAX as i64 {
            Some(v as i32)
        } else {
            None
        },
        None => None,
    }
}

/// A vector of characters looks the same through either view.
pub proof fn lemma_chars_deep_view(v: Vec<char>)
    ensures
        v.deep_view() == v@,
{
    assert(v.deep_view() =~= v@);
}

/// `s` cut at every `sep`; there is always at least one part.
pub open spec fn split_text(s: Seq<char>, sep: char) -> Seq<Seq<char>>
    decreases s.len(),
{
    if s.len() == 0 {
        seq![Seq::<char>::empty()]
    } else {
        let parts = split_text(s.drop_last(), sep);
        if s.last() == sep {
            parts.push(Seq::<char>::empty())
        } else {
            parts.update(parts.len() - 1, parts.last().push(s.last()))
        }
    }
}

/// Cutting text gives at least one part.
pub proof fn lemma_split_text_nonempty(s: Seq<char>, sep: char)
    ensures
        split_text(s, sep).len() >= 1,
    decreases s.len(),
{
    if s.len() > 0 {
        lemma_split_text_nonempty(s.drop_last(), sep);
    }
}

/// Cuts `s` at every `sep`.
pub fn split_chars(s: &Vec<char>, sep: char) -> (parts: Vec<Vec<char>>)
    ensures
        parts.deep_view() == split_text(s@, sep),
{
    let mut done: Vec<Vec<char>> = Vec::new();
    let mut current: Vec<char> = Vec::new();
    let mut i: usize = 0;
    proof {
        assert(s@.take(0) =~= Seq::<char>::empty());
        assert(done.deep_view().push(current@) =~= split_text(s@.take(0), sep));
    }
    while i < s.len()
        invariant
            i <= s.len(),
            done.deep_view().push(current@) == split_text(s@.take(i as int), sep),
        decreases s.len() - i,
    {
        let c = s[i];
        let ghost before = done.deep_view().push(current@);
        proof {
            assert(s@.take(i + 1).drop_last() =~= s@.take(i as int));
            assert(s@.take(i + 1).last() == c);
        }
        if c == sep {
            let ghost old_done = done@;
            let ghost finished = current;
            proof {
                lemma_chars_deep_view(finished);
            }
            done.push(current);
            current = Vec::new();
            proof {
                assert(done@ == old_done.push(finished));
                assert(done.deep_view() =~= before);
                assert(done.deep_view().push(current@) =~= before.push(Seq::<char>::empty()));
            }
        } else {
            current.push(c);
            proof {
                assert(done.deep_view().push(current@) =~= before.update(
                    before.len() - 1,
                    before.last().push(c),
                ));
            }
        }
        i = i + 1;
    }
    proof {
        assert(s@.take(s.len() as int) =~= s@);
    }
    let ghost old_done = done@;
    let ghost before = done.deep_view().push(current@);
    let ghost finished = current;
    proof {
        lemma_chars_deep_view(finished);
    }
    done.push(current);
    proof {
        assert(done@ == old_done.push(finished));
        assert(done.deep_view() =~= before);
    }
    done
}

/// The texts of a list of strings.
pub open spec fn texts(v: Seq<String>) -> Seq<Seq<char>> {
    Seq::new(v.len(), |i: int| v[i]@)
}

/// A copy of `v`.
pub fn copy_strings(v: &Vec<String>) -> (r: Vec<String>)
    ensures
        r@ == v@,
{
    let mut r: Vec<String> = Vec::new();
    let mut i: usize = 0;
    while i < v.len()
        invariant
            i <= v.len(),
            r@ == v@.subrange(0, i as int),
        decreases v.len() - i,
    {
        r.push(v[i].clone());
        i = i + 1;
    }
    proof {
        assert(v@.subrange(0, v.len() as int) =~= v@);
    }
    r
}

/// The characters of `s`, one by one.
pub fn chars_of(s: &str) -> (v: Vec<char>)
    ensures
        v@ == s@,
{
    let n = s.unicode_len();
    let mut v: Vec<char> = Vec::new();
    let mut i: usize = 0;
    while i < n
        invariant
            n == s@.len(),
            i <= n,
            v@ == s@.subrange(0, i as int),
        decreases n - i,
    {
        v.push(s.get_char(i));
        i = i + 1;
    }
    proof {
        assert(s@.subrange(0, n as int) =~= s@);
    }
    v
}

/// Whether `a` and `b` hold the same characters.
pub fn same_text(a: &str, b: &str) -> (r: bool)
    ensures
        r == (a@ == b@),
{
    let n = a.unicode_len();
    if n != b.unicode_len() {
        return false;
    }
    let mut i: usize = 0;
    while i < n
        invariant
            n == a@.len(),
            n == b@.len(),
            i <= n,
            forall|j: int| 0 <= j < i ==> a@[j] == b@[j],
        decreases n - i,
    {
        if a.get_char(i) != b.get_char(i) {
            return false;
        }
        i = i + 1;
    }
    proof {
        assert(a@ =~= b@);
    }
    true
}

/// The character of a digit.
pub open spec fn digit_char(d: int) -> char {
    (d + '0' as int) as char
}

/// The decimal digits of `n`, without leading zeros.
pub open spec fn decimal_text(n: nat) -> Seq<char>
    decreases n,
{
    if n < 10 {
        seq![digit_char(n as int)]
    } else {
        decimal_text(n / 10).push(digit_char((n % 10) as int))
    }
}

/// The decimal digits of `n`, with zeros in front up to `width` characters.
pub open spec fn zero_padded(n: nat, width: nat) -> Seq<char> {
    let t = decimal_text(n);
    if t.len() < width {
        Seq::new((width - t.len()) as nat, |i: int| '0') + t
    } else {
        t
    }
}

/// The decimal digits of `n` are digits, at least one, and spell `n`.
pub proof fn lemma_decimal_text_value(n: nat)
    ensures
        decimal_text(n).len() >= 1,
        all_digits(decimal_text(n)),
        digits_value(decimal_text(n)) == n,
    decreases n,
{
    let t = decimal_text(n);
    if n >= 10 {
        lemma_decimal_text_value(n / 10);
        assert(t.drop_last() =~= decimal_text(n / 10));
        assert(t.last() == digit_char((n % 10) as int));
        assert(digit_value(digit_char((n % 10) as int)) == n % 10);
        assert(digits_value(t) == digits_value(t.drop_last()) * 10 + digit_value(t.last()));
        assert(all_digits(t)) by {
            assert forall|i: int| 0 <= i < t.len() implies is_ascii_digit(#[trigger] t[i]) by {
                if i < t.len() - 1 {
                    assert(t[i] == t.drop_last()[i]);
                }
            }
        }
    } else {
        assert(digit_value(digit_char(n as int)) == n);
        assert(t.drop_last().len() == 0);
        assert(digits_value(t) == digits_value(t.drop_last()) * 10 + digit_value(t.last()));
    }
}

/// Zeros in front of digits leave the number they spell as it is.
pub proof fn lemma_leading_zeros(k: nat, t: Seq<char>)
    requires
        all_digits(t),
    ensures
        all_digits(Seq::new(k, |i: int| '0') + t),
        digits_value(Seq::new(k, |i: int| '0') + t) == digits_value(t),
    decreases t.len(), k,
{
    let z = Seq::new(k, |i: int| '0');
    if t.len() == 0 {
        assert(z + t =~= z);
        if k > 0 {
            let z1 = Seq::new((k - 1) as nat, |i: int| '0');
            lemma_leading_zeros((k - 1) as nat, t);
            assert(z.drop_last() =~= z1 + t);
        }
    } else {
        lemma_leading_zeros(k, t.drop_last());
        assert((z + t).drop_last() =~= z + t.drop_last());
        assert((z + t).last() == t.last());
    }
}

/// `n` with zeros in front reads back as `n`, and holds only digits.
pub proof fn lemma_zero_padded_value(n: nat, width: nat)
    ensures
        zero_padded(n, width).len() >= 1,
        all_digits(zero_padded(n, width)),
        digits_value(zero_padded(n, width)) == n,
        n <= i64::MAX ==> i64_text_value(zero_padded(n, width)) == Some(n as int),
{
    lemma_decimal_text_value(n);
    let t = decimal_text(n);
    if t.len() < width {
        lemma_leading_zeros((width - t.len()) as nat, t);
    }
    let z = zero_padded(n, width);
    assert(is_ascii_digit(z[0]));
}

/// Text without `sep` is one part.
pub proof fn lemma_split_text_single(s: Seq<char>, sep: char)
    requires
        !s.contains(sep),
    ensures
        split_text(s, sep) == seq![s],
    decreases s.len(),
{
    if s.len() > 0 {
        assert(!s.drop_last().contains(sep)) by {
            if s.drop_last().contains(sep) {
                let i = choose|i: int| 0 <= i < s.drop_last().len() && s.drop_last()[i] == sep;
                assert(s[i] == sep);
            }
        }
        lemma_split_text_single(s.drop_last(), sep);
        assert(s.last() != sep) by {
            assert(s[s.len() - 1] == s.last());
        }
        assert(s.drop_last().push(s.last()) =~= s);
        assert(split_text(s, sep) =~= seq![s]);
    } else {
        assert(s =~= Seq::<char>::empty());
    }
}

/// Text without `sep` added at the end lengthens the last part.
pub proof fn lemma_split_text_append(x: Seq<char>, y: Seq<char>, sep: char)
    requires
        !y.contains(sep),
    ensures
        split_text(x + y, sep) == split_text(x, sep).update(
            split_text(x, sep).len() - 1,
            split_text(x, sep).last() + y,
        ),
    decreases y.len(),
{
    lemma_split_text_nonempty(x, sep);
    if y.len() == 0 {
        assert(x + y =~= x);
        assert(split_text(x, sep).last() + y =~= split_text(x, sep).last());
        assert(split_text(x, sep).update(split_text(x, sep).len() - 1, split_text(x, sep).last())
            =~= split_text(x, sep));
    } else {
        let y1 = y.drop_last();
        assert(!y1.contains(sep)) by {
            if y1.contains(sep) {
                let i = choose|i: int| 0 <= i < y1.len() && y1[i] == sep;
                assert(y[i] == sep);
            }
        }
        assert(y.last() != sep) by {
            assert(y[y.len() - 1] == y.last());
        }
        lemma_split_text_append(x, y1, sep);
        assert((x + y).drop_last() =~= x + y1);
        assert((x + y).last() == y.last());
        assert(split_text(x, sep).last() + y1 + seq![y.last()] =~= split_text(x, sep).last() + y);
        assert((split_text(x, sep).last() + y1).push(y.last()) =~= split_text(x, sep).last() + y);
    }
}

/// Digits hold no colon.
pub proof fn lemma_digits_no_colon(t: Seq<char>)
    requires
        all_digits(t),
    ensures
        !t.contains(':'),
{
    if t.contains(':') {
        let i = choose|i: int| 0 <= i < t.len() && t[i] == ':';
        assert(is_ascii_digit(t[i]));
    }
}

/// `a:b:c` is cut into `a`, `b` and `c` when none of them holds a colon.
pub proof fn lemma_split_three(a: Seq<char>, b: Seq<char>, c: Seq<char>)
    requires
        !a.contains(':'),
        !b.contains(':'),
        !c.contains(':'),
    ensures
        split_text(a + seq![':'] + b + seq![':'] + c, ':') == seq![a, b, c],
{
    lemma_split_text_single(a, ':');
    let a1 = a + seq![':'];
    assert(a1.drop_last() =~= a);
    assert(a1.last() == ':');
    assert(split_text(a1, ':') =~= seq![a, Seq::<char>::empty()]);
    lemma_split_text_append(a1, b, ':');
    assert(Seq::<char>::empty() + b =~= b);
    assert(split_text(a1 + b, ':') =~= seq![a, b]);
    let a2 = a1 + b + seq![':'];
    assert(a2.drop_last() =~= a1 + b);
    assert(a2.last() == ':');
    assert(split_text(a2, ':') =~= seq![a, b, Seq::<char>::empty()]);
    lemma_split_text_append(a2, c, ':');
    assert(split_text(a2 + c, ':') =~= seq![a, b, c]);
    assert(a + seq![':'] + b + seq![':'] + c =~= a2 + c);
}

/// The text of a single decimal digit.
fn digit_str(d: u64) -> (s: &'static str)
    requires
        d < 10,
    ensures
        s@ == seq![digit_char(d as int)],
{
    proof {
        reveal_strlit("0");
        reveal_strlit("1");
        reveal_strlit("2");
        reveal_strlit("3");
        reveal_strlit("4");
        reveal_strlit("5");
        reveal_strlit("6");
        reveal_strlit("7");
        reveal_strlit("8");
        reveal_strlit("9");
    }
    if d == 0 {
        "0"
    } else if d == 1 {
        "1"
    } else if d == 2 {
        "2"
    } else if d == 3 {
        "3"
    } else if d == 4 {
        "4"
    } else if d == 5 {
        "5"
    } else if d == 6 {
        "6"
    } else if d == 7 {
        "7"
    } else if d == 8 {
        "8"
    } else {
        "9"
    }
}

/// Appends the decimal digits of `n`.
fn push_decimal(out: &mut String, n: u64)
    ensures
        final(out)@ == old(out)@ + decimal_text(n as nat),
    decreases n,
{
    if n < 10 {
        out.append(digit_str(n));
    } else {
        push_decimal(out, n / 10);
        out.append(digit_str(n % 10));
        proof {
            assert(old(out)@ + decimal_text((n / 10) as nat) + seq![digit_char((n % 10) as int)]
                =~= old(out)@ + decimal_text(n as nat));
        }
    }
}

/// Appends `n` in decimal with zeros in front up to two characters.
pub fn push_zero_padded_2(out: &mut String, n: u64)
    ensures
        final(out)@ == old(out)@ + zero_padded(n as nat, 2),
{
    proof {
        reveal_strlit("0");
    }
    if n < 10 {
        out.append("0");
        push_decimal(out, n);
        proof {
            assert(Seq::new(1, |i: int| '0') =~= seq!['0']);
        }
    } else {
        push_decimal(out, n);
        proof {
            assert(decimal_text((n / 10) as nat).len() >= 1) by {
                reveal_with_fuel(decimal_text, 2);
            }
        }
    }
}

/// Appends `n` in decimal with zeros in front up to three characters.
pub fn push_zero_padded_3(out: &mut String, n: u64)
    ensures
        final(out)@ == old(out)@ + zero_padded(n as nat, 3),
{
    proof {
        reveal_strlit("0");
        reveal_strlit("00");
    }
    if n < 10 {
        out.append("00");
        push_decimal(out, n);
        proof {
            assert(Seq::new(2, |i: int| '0') =~= seq!['0', '0']);
        }
    } else if n < 100 {
        out.append("0");
        push_decimal(out, n);
        proof {
            assert(Seq::new(1, |i: int| '0') =~= seq!['0']);
            assert(decimal_text((n / 10) as nat).len() == 1);
        }
    } else {
        push_decimal(out, n);
        proof {
            assert(decimal_text((n / 100) as nat).len() >= 1) by {
                reveal_with_fuel(decimal_text, 2);
            }
            assert(decimal_text((n / 10) as nat).len() >= 2) by {
                assert((n / 10) as nat / 10 == (n / 100) as nat);
            }
        }
    }
}

} // verus!
