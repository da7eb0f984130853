//! Character-level helpers: comparison, prefixes, decimal and hexadecimal
//! numerals, and integer parsing with the semantics of `str::parse`.

use vstd::prelude::*;

verus! {

/// Whether `p` is a prefix of `s`.
pub open spec fn seq_starts_with(s: Seq<char>, p: Seq<char>) -> bool {
    p.len() <= s.len() && s.subrange(0, p.len() as int) == p
}

/// Whether `p` is a suffix of `s`.
pub open spec fn seq_ends_with(s: Seq<char>, p: Seq<char>) -> bool {
    p.len() <= s.len() && s.subrange(s.len() - p.len(), s.len() as int) == p
}

/// Whether `c` occurs in `s`.
pub open spec fn seq_has_char(s: Seq<char>, c: char) -> bool {
    exists|i: int| 0 <= i < s.len() && s[i] == c
}

/// An ASCII digit.
pub open spec fn is_digit(c: char) -> bool {
    '0' <= c && c <= '9'
}

/// Only ASCII digits.
pub open spec fn all_digits(s: Seq<char>) -> bool {
    forall|i: int| 0 <= i < s.len() ==> is_digit(#[trigger] s[i])
}

/// The value of an ASCII digit.
pub open spec fn digit_value(c: char) -> nat {
    (c as int - '0' as int) as nat
}

/// The number that a sequence of decimal digits denotes.
pub open spec fn digits_value(s: Seq<char>) -> nat
    decreases s.len(),
{
    if s.len() == 0 {
        0
    } else {
        digits_value(s.drop_last()) * 10 + digit_value(s.last())
    }
}

/// The character of one decimal digit.
pub open spec fn digit_char(d: nat) -> char {
    ('0' as int + d) as char
}

/// The character of one lowercase hexadecimal digit.
pub open spec fn hex_char(d: nat) -> char {
    if d < 10 {
        ('0' as int + d) as char
    } else {
        ('a' as int + d - 10) as char
    }
}

/// The shortest decimal numeral of `n`.
pub open spec fn decimal(n: nat) -> Seq<char>
    decreases n,
{
    if n < 10 {
        seq![digit_char(n)]
    } else {
        decimal(n / 10).push(digit_char(n % 10))
    }
}

/// The shortest lowercase hexadecimal numeral of `n`.
pub open spec fn hex(n: nat) -> Seq<char>
    decreases n,
{
    if n < 16 {
        seq![hex_char(n)]
    } else {
        hex(n / 16).push(hex_char(n % 16))
    }
}

/// `s` preceded by enough `c` to be at least `width` long.
pub open spec fn pad_left(s: Seq<char>, width: nat, c: char) -> Seq<char> {
    if s.len() >= width {
        s
    } else {
        Seq::new((width - s.len()) as nat, |i: int| c) + s
    }
}

/// The decimal numeral of a signed integer, with a leading `-` when negative.
pub open spec fn signed_decimal(n: int) -> Seq<char> {
    if n < 0 {
        seq!['-'] + decimal((-n) as nat)
    } else {
        decimal(n as nat)
    }
}

/// What `str::parse::<usize>` returns for `s`: an optional `+`, then one or
/// more decimal digits whose value fits in `usize`.
pub open spec fn parse_usize_spec(s: Seq<char>) -> Option<usize> {
    let d = if s.len() > 0 && s[0] == '+' {
        s.drop_first()
    } else {
        s
    };
    if d.len() > 0 && all_digits(d) && digits_value(d) <= usize::MAX {
        Some(digits_value(d) as usize)
    } else {
        None
    }
}

/// What `str::parse::<i64>` returns for `s`: an optional sign, then one or
/// more decimal digits whose signed value fits in `i64`.
pub open spec fn parse_i64_spec(s: Seq<char>) -> Option<i64> {
    if s.len() > 0 && s[0] == '-' {
        let d = s.drop_first();
        if d.len() > 0 && all_digits(d) && digits_value(d) <= 0x8000_0000_0000_0000 {
            Some((-(digits_value(d) as int)) as i64)
        } else {
            None
        }
    } else {
        let d = if s.len() > 0 && s[0] == '+' {
            s.drop_first()
        } else {
            s
        };
        if d.len() > 0 && all_digits(d) && digits_value(d) <= i64::MAX {
            Some(digits_value(d) as i64)
        } else {
            None
        }
    }
}

/// Appends one character to a string (`String::push`).
#[verifier::external_body]
pub(crate) fn push_char(s: &mut String, c: char)
    ensures
        final(s)@ == old(s)@.push(c),
{
    s.push(c);
}

/// A new string holding the characters of `s`.
pub fn to_string(s: &str) -> (r: String)
    ensures
        r@ == s@,
{
    String::from_str(s)
}

/// Whether both strings hold the same characters.
pub fn str_eq(a: &str, b: &str) -> (r: bool)
    ensures
        r == (a@ == b@),
{
    let n = a.unicode_len();
    if n != b.unicode_len() {
        return false;
    }
    let mut i: usize = 0;
    while i < n
        invariant
            n == a@.len(),
            n == b@.len(),
            i <= n,
            forall|j: int| 0 <= j < i ==> a@[j] == b@[j],
        decreases n - i,
    {
        if a.get_char(i) != b.get_char(i) {
            return false;
        }
        i = i + 1;
    }
    assert(a@ =~= b@);
    true
}

/// Whether `s` begins with `p`.
pub fn starts_with(s: &str, p: &str) -> (r: bool)
    ensures
        r == seq_starts_with(s@, p@),
{
    let n = p.unicode_len();
    if n > s.unicode_len() {
        return false;
    }
    let mut i: usize = 0;
    while i < n
        invariant
            n == p@.len(),
            n <= s@.len(),
            i <= n,
            forall|j: int| 0 <= j < i ==> s@[j] == p@[j],
        decreases n - i,
    {
        if s.get_char(i) != p.get_char(i) {
            assert(s@.subrange(0, n as int)[i as int] != p@[i as int]);
            return false;
        }
        i = i + 1;
    }
    assert(s@.subrange(0, n as int) =~= p@);
    true
}

/// Whether `s` ends with `p`.
pub fn ends_with(s: &str, p: &str) -> (r: bool)
    ensures
        r == seq_ends_with(s@, p@),
{
    let n = p.unicode_len();
    let m = s.unicode_len();
    if n > m {
        return false;
    }
    let off = m - n;
    let mut i: usize = 0;
    while i < n
        invariant
            n == p@.len(),
            m == s@.len(),
            off == m - n,
            i <= n,
            forall|j: int| 0 <= j < i ==> s@[off + j] == p@[j],
        decreases n - i,
    {
        if s.get_char(off + i) != p.get_char(i) {
            assert(s@.subrange(off as int, m as int)[i as int] != p@[i as int]);
            return false;
        }
        i = i + 1;
    }
    assert(s@.subrange(off as int, m as int) =~= p@);
    true
}

/// The rest of `s` after the prefix `p`, when `s` begins with `p`.
pub fn strip_prefix<'a>(s: &'a str, p: &str) -> (r: Option<&'a str>)
    ensures
        r is Some <==> seq_starts_with(s@, p@),
        r matches Some(rest) ==> rest@ == s@.subrange(p@.len() as int, s@.len() as int),
{
    if starts_with(s, p) {
        let n = p.unicode_len();
        let m = s.unicode_len();
        Some(s.substring_char(n, m))
    } else {
        None
    }
}

/// Whether `c` occurs in `s`.
pub fn has_char(s: &str, c: char) -> (r: bool)
    ensures
        r == seq_has_char(s@, c),
{
    let n = s.unicode_len();
    let mut i: usize = 0;
    while i < n
        invariant
            n == s@.len(),
            i <= n,
            forall|j: int| 0 <= j < i ==> s@[j] != c,
        decreases n - i,
    {
        if s.get_char(i) == c {
            return true;
        }
        i = i + 1;
    }
    false
}

/// Whether every character of `s` is a decimal digit.
pub fn is_all_digits(s: &str) -> (r: bool)
    ensures
        r == all_digits(s@),
{
    let n = s.unicode_len();
    let mut i: usize = 0;
    while i < n
        invariant
            n == s@.len(),
            i <= n,
            forall|j: int| 0 <= j < i ==> is_digit(#[trigger] s@[j]),
        decreases n - i,
    {
        let c = s.get_char(i);
        if !('0' <= c && c <= '9') {
            return false;
        }
        i = i + 1;
    }
    true
}

/// Appending a digit to a digit sequence multiplies its value by ten and adds
/// the digit.
pub proof fn lemma_digits_value_push(s: Seq<char>, c: char)
    ensures
        digits_value(s.push(c)) == digits_value(s) * 10 + digit_value(c),
{
    assert(s.push(c).drop_last() =~= s);
}

/// A longer digit sequence never denotes a smaller number than its prefix.
pub proof fn lemma_digits_value_prefix(s: Seq<char>, k: int)
    requires
        0 <= k <= s.len(),
    ensures
        digits_value(s.subrange(0, k)) <= digits_value(s),
    decreases s.len() - k,
{
    if k < s.len() {
        lemma_digits_value_prefix(s, k + 1);
        let t = s.subrange(0, k + 1);
        assert(t.drop_last() =~= s.subrange(0, k));
    } else {
        assert(s.subrange(0, k) =~= s);
    }
}

/// The value of the digits of `s` from `start` on when they are all digits
/// and their value is at most `bound`; otherwise `None`.
fn digits_bounded(s: &str, start: usize, bound: u64) -> (r: Option<u64>)
    requires
        start <= s@.len(),
        9 <= bound,
    ensures
        ({
            let d = s@.subrange(start as int, s@.len() as int);
            &&& r is Some <==> (all_digits(d) && digits_value(d) <= bound)
            &&& r matches Some(v) ==> v == digits_value(d)
        }),
{
    let n = s.unicode_len();
    let ghost d = s@.subrange(start as int, s@.len() as int);
    let mut v: u64 = 0;
    let mut i: usize = start;
    while i < n
        invariant
            n == s@.len(),
            start <= i <= n,
            9 <= bound,
            d == s@.subrange(start as int, s@.len() as int),
            all_digits(d.subrange(0, i - start)),
            v == digits_value(d.subrange(0, i - start)),
            v <= bound,
        decreases n - i,
    {
        let c = s.get_char(i);
        let ghost pre = d.subrange(0, i - start);
        let ghost next = d.subrange(0, i + 1 - start);
        assert(next =~= pre.push(c));
        if !('0' <= c && c <= '9') {
            assert(!is_digit(d[i - start]));
            return None;
        }
        let dv = (c as u32 - '0' as u32) as u64;
        proof {
            lemma_digits_value_push(pre, c);
        }
        if v > (bound - dv) / 10 {
            proof {
                assert(v * 10 + dv > bound) by (nonlinear_arith)
                    requires
                        v > (bound - dv) / 10,
                        dv <= 9,
                        9 <= bound,
                ;
                lemma_digits_value_prefix(d, i + 1 - start);
            }
            return None;
        }
        assert(v * 10 + dv <= bound) by (nonlinear_arith)
            requires
                v <= (bound - dv) / 10,
                dv <= 9,
                9 <= bound,
        ;
        v = v * 10 + dv;
        i = i + 1;
        assert(all_digits(d.subrange(0, i - start))) by {
            assert forall|j: int| 0 <= j < i - start implies is_digit(
                #[trigger] d.subrange(0, i - start)[j],
            ) by {
                if j < i - 1 - start {
                    assert(d.subrange(0, i - start)[j] == pre[j]);
                }
            }
        }
    }
    assert(d.subrange(0, n - start) =~= d);
    Some(v)
}

/// `str::parse::<usize>`: an optional `+` and one or more decimal digits
/// whose value fits in `usize`.
pub fn parse_usize(s: &str) -> (r: Option<usize>)
    ensures
        r == parse_usize_spec(s@),
{
    let n = s.unicode_len();
    let start: usize = if n > 0 && s.get_char(0) == '+' {
        1
    } else {
        0
    };
    assert(s@.subrange(start as int, s@.len() as int) =~= if s@.len() > 0 && s@[0] == '+' {
        s@.drop_first()
    } else {
        s@
    });
    if start == n {
        return None;
    }
    match digits_bounded(s, start, usize::MAX as u64) {
        Some(v) => Some(v as usize),
        None => None,
    }
}

/// `str::parse::<i64>`: an optional sign and one or more decimal digits
/// whose signed value fits in `i64`.
pub fn parse_i64(s: &str) -> (r: Option<i64>)
    ensures
        r == parse_i64_spec(s@),
{
    let n = s.unicode_len();
    if n > 0 && s.get_char(0) == '-' {
        assert(s@.subrange(1, s@.len() as int) =~= s@.drop_first());
        if n == 1 {
            return None;
        }
        match digits_bounded(s, 1, 0x8000_0000_0000_0000u64) {
            Some(v) => {
                if v == 0x8000_0000_0000_0000u64 {
                    Some(i64::MIN)
                } else {
                    Some(-(v as i64))
                }
            },
            None => None,
        }
    } else {
        let start: usize = if n > 0 && s.get_char(0) == '+' {
            1
        } else {
            0
        };
        assert(s@.subrange(start as int, s@.len() as int) =~= if s@.len() > 0 && s@[0] == '+' {
            s@.drop_first()
        } else {
            s@
        });
        if start == n {
            return None;
        }
        match digits_bounded(s, start, i64::MAX as u64) {
            Some(v) => Some(v as i64),
            None => None,
        }
    }
}

/// The digits of `n`, least significant first, in base `base`.
fn reversed_digits(n: u64, base: u64) -> (r: Vec<u8>)
    requires
        base == 10 || base == 16,
    ensures
        r@.len() >= 1,
        forall|i: int| 0 <= i < r@.len() ==> r@[i] < base,
        if base == 10 {
            Seq::new(r@.len(), |i: int| digit_char(r@[r@.len() - 1 - i] as nat)) == decimal(n as nat)
        } else {
            Seq::new(r@.len(), |i: int| hex_char(r@[r@.len() - 1 - i] as nat)) == hex(n as nat)
        },
    decreases n,
{
    if n < base {
        let mut v: Vec<u8> = Vec::new();
        v.push(n as u8);
        proof {
            if base == 10 {
                assert(Seq::new(v@.len(), |i: int| digit_char(v@[v@.len() - 1 - i] as nat)) =~= decimal(n as nat));
            } else {
                assert(Seq::new(v@.len(), |i: int| hex_char(v@[v@.len() - 1 - i] as nat)) =~= hex(n as nat));
            }
        }
        v
    } else {
        let mut rest = reversed_digits(n / base, base);
        let ghost old_rest = rest@;
        let mut v: Vec<u8> = Vec::new();
        v.push((n % base) as u8);
        let mut i: usize = 0;
        while i < rest.len()
            invariant
                base == 10 || base == 16,
                v@.len() == i + 1,
                v@[0] == (n % base) as u8,
                forall|j: int| 0 <= j < v@.len() ==> v@[j] < base,
                forall|j: int| 0 <= j < old_rest.len() ==> old_rest[j] < base,
                rest@ == old_rest,
                i <= rest@.len(),
                forall|j: int| 0 <= j < i ==> v@[j + 1] == rest@[j],
            decreases rest@.len() - i,
        {
            v.push(rest[i]);
            i = i + 1;
        }
        proof {
            if base == 10 {
                let a = Seq::new(v@.len(), |i: int| digit_char(v@[v@.len() - 1 - i] as nat));
                let b = Seq::new(old_rest.len(), |i: int| digit_char(old_rest[old_rest.len() - 1 - i] as nat));
                assert(a =~= b.push(digit_char((n % 10) as nat)));
            } else {
                let a = Seq::new(v@.len(), |i: int| hex_char(v@[v@.len() - 1 - i] as nat));
                let b = Seq::new(old_rest.len(), |i: int| hex_char(old_rest[old_rest.len() - 1 - i] as nat));
                assert(a =~= b.push(hex_char((n % 16) as nat)));
            }
        }
        v
    }
}

/// The character of a digit below sixteen.
fn digit_to_char(d: u8) -> (c: char)
    requires
        d < 16,
    ensures
        c == hex_char(d as nat),
        d < 10 ==> c == digit_char(d as nat),
{
    if d < 10 {
        (48u8 + d) as char
    } else {
        (87u8 + d) as char
    }
}

/// Appends the decimal numeral of `n`.
pub fn push_decimal(s: &mut String, n: u64)
    ensures
        final(s)@ == old(s)@ + decimal(n as nat),
{
    let digits = reversed_digits(n, 10);
    let ghost start = s@;
    let mut i: usize = digits.len();
    while i > 0
        invariant
            i <= digits@.len(),
            digits@.len() >= 1,
            forall|j: int| 0 <= j < digits@.len() ==> digits@[j] < 10,
            s@ == start + Seq::new((digits@.len() - i) as nat, |k: int| digit_char(digits@[digits@.len() - 1 - k] as nat)),
        decreases i,
    {
        i = i - 1;
        let c = digit_to_char(digits[i]);
        let ghost before = s@;
        push_char(s, c);
        assert(s@ =~= start + Seq::new((digits@.len() - i) as nat, |k: int| digit_char(digits@[digits@.len() - 1 - k] as nat)));
    }
}

/// Appends the lowercase hexadecimal numeral of `n`.
pub fn push_hex(s: &mut String, n: u64)
    ensures
        final(s)@ == old(s)@ + hex(n as nat),
{
    let digits = reversed_digits(n, 16);
    let ghost start = s@;
    let mut i: usize = digits.len();
    while i > 0
        invariant
            i <= digits@.len(),
            digits@.len() >= 1,
            forall|j: int| 0 <= j < digits@.len() ==> digits@[j] < 16,
            s@ == start + Seq::new((digits@.len() - i) as nat, |k: int| hex_char(digits@[digits@.len() - 1 - k] as nat)),
        decreases i,
    {
        i = i - 1;
        let c = digit_to_char(digits[i]);
        push_char(s, c);
        assert(s@ =~= start + Seq::new((digits@.len() - i) as nat, |k: int| hex_char(digits@[digits@.len() - 1 - k] as nat)));
    }
}

/// Appends `count` copies of `c`.
pub fn push_repeat(s: &mut String, c: char, count: usize)
    ensures
        final(s)@ == old(s)@ + Seq::new(count as nat, |i: int| c),
{
    let ghost start = s@;
    let mut i: usize = 0;
    while i < count
        invariant
            i <= count,
            s@ == start + Seq::new(i as nat, |k: int| c),
        decreases count - i,
    {
        push_char(s, c);
        i = i + 1;
        assert(s@ =~= start + Seq::new(i as nat, |k: int| c));
    }
}

/// The number of decimal digits of `n`.
pub fn decimal_len(n: u64) -> (r: usize)
    ensures
        r == decimal(n as nat).len(),
{
    let digits = reversed_digits(n, 10);
    proof {
        assert(Seq::new(digits@.len(), |i: int| digit_char(digits@[digits@.len() - 1 - i] as nat)).len() == digits@.len());
    }
    digits.len()
}

/// The number of hexadecimal digits of `n`.
pub fn hex_len(n: u64) -> (r: usize)
    ensures
        r == hex(n as nat).len(),
{
    let digits = reversed_digits(n, 16);
    proof {
        assert(Seq::new(digits@.len(), |i: int| hex_char(digits@[digits@.len() - 1 - i] as nat)).len() == digits@.len());
    }
    digits.len()
}

/// Appends the decimal numeral of `n` padded with zeros to `width` digits.
pub fn push_decimal_padded(s: &mut String, n: u64, width: usize)
    ensures
        final(s)@ == old(s)@ + pad_left(decimal(n as nat), width as nat, '0'),
{
    let len = decimal_len(n);
    let ghost start = s@;
    if len < width {
        push_repeat(s, '0', width - len);
    }
    push_decimal(s, n);
    assert(s@ =~= start + pad_left(decimal(n as nat), width as nat, '0'));
}

/// Appends the hexadecimal numeral of `n` padded with zeros to `width` digits.
pub fn push_hex_padded(s: &mut String, n: u64, width: usize)
    ensures
        final(s)@ == old(s)@ + pad_left(hex(n as nat), width as nat, '0'),
{
    let len = hex_len(n);
    let ghost start = s@;
    if len < width {
        push_repeat(s, '0', width - len);
    }
    push_hex(s, n);
    assert(s@ =~= start + pad_left(hex(n as nat), width as nat, '0'));
}

/// Appends the decimal numeral of a signed number.
pub fn push_signed(s: &mut String, n: i64)
    ensures
        final(s)@ == old(s)@ + signed_decimal(n as int),
{
    let ghost start = s@;
    if n < 0 {
        push_char(s, '-');
        let m: u64 = if n == i64::MIN {
            0x8000_0000_0000_0000u64
        } else {
            (-n) as u64
        };
        push_decimal(s, m);
        assert(s@ =~= start + signed_decimal(n as int));
    } else {
        push_decimal(s, n as u64);
    }
}

/// `char::is_whitespace`: the Unicode `White_Space` characters.
pub open spec fn is_whitespace(c: char) -> bool {
    let v = c as u32;
    (0x9 <= v && v <= 0xd) || v == 0x20 || v == 0x85 || v == 0xa0 || v == 0x1680 || (0x2000 <= v
        && v <= 0x200a) || v == 0x2028 || v == 0x2029 || v == 0x202f || v == 0x205f || v == 0x3000
}

/// Whether `s` is empty once trimmed: all its characters are whitespace.
pub open spec fn all_whitespace(s: Seq<char>) -> bool {
    forall|i: int| 0 <= i < s.len() ==> is_whitespace(#[trigger] s[i])
}

fn whitespace(c: char) -> (r: bool)
    ensures
        r == is_whitespace(c),
{
    let v = c as u32;
    (0x9 <= v && v <= 0xd) || v == 0x20 || v == 0x85 || v == 0xa0 || v == 0x1680 || (0x2000 <= v
        && v <= 0x200a) || v == 0x2028 || v == 0x2029 || v == 0x202f || v == 0x205f || v == 0x3000
}

/// Whether `s.trim()` is empty.
pub fn is_blank(s: &str) -> (r: bool)
    ensures
        r == all_whitespace(s@),
{
    let n = s.unicode_len();
    let mut i: usize = 0;
    while i < n
        invariant
            n == s@.len(),
            i <= n,
            forall|j: int| 0 <= j < i ==> is_whitespace(#[trigger] s@[j]),
        decreases n - i,
    {
        if !whitespace(s.get_char(i)) {
            return false;
        }
        i = i + 1;
    }
    true
}

/// The words of `s[i..]` after the word `cur` and the words `acc` already
/// read (`str::split_whitespace`).
pub open spec fn words_from(s: Seq<char>, i: int, cur: Seq<char>, acc: Seq<Seq<char>>) -> Seq<Seq<char>>
    decreases s.len() - i,
{
    if i >= s.len() {
        if cur.len() > 0 {
            acc.push(cur)
        } else {
            acc
        }
    } else if is_whitespace(s[i]) {
        words_from(s, i + 1, seq![], if cur.len() > 0 {
            acc.push(cur)
        } else {
            acc
        })
    } else {
        words_from(s, i + 1, cur.push(s[i]), acc)
    }
}

/// `str::split_whitespace`: the maximal runs of non-whitespace.
pub open spec fn words_spec(s: Seq<char>) -> Seq<Seq<char>> {
    words_from(s, 0, seq![], seq![])
}

/// The words of `s`.
pub fn words(s: &str) -> (r: Vec<String>)
    ensures
        r@.map_values(|w: String| w@) == words_spec(s@),
{
    let n = s.unicode_len();
    let mut acc: Vec<String> = Vec::new();
    let mut cur = String::new();
    let mut i: usize = 0;
    assert(acc@.map_values(|w: String| w@) =~= Seq::<Seq<char>>::empty());
    assert(cur@ =~= Seq::<char>::empty());
    while i < n
        invariant
            n == s@.len(),
            i <= n,
            words_from(s@, i as int, cur@, acc@.map_values(|w: String| w@)) == words_spec(s@),
        decreases n - i,
    {
        let c = s.get_char(i);
        if whitespace(c) {
            let ghost before = acc@.map_values(|w: String| w@);
            let ghost word = cur@;
            if cur.as_str().unicode_len() > 0 {
                acc.push(cur);
                assert(acc@.map_values(|w: String| w@) =~= before.push(word));
            }
            cur = String::new();
            assert(cur@ =~= Seq::<char>::empty());
        } else {
            push_char(&mut cur, c);
        }
        i = i + 1;
    }
    if cur.as_str().unicode_len() > 0 {
        let ghost before = acc@.map_values(|w: String| w@);
        let ghost word = cur@;
        acc.push(cur);
        assert(acc@.map_values(|w: String| w@) =~= before.push(word));
    }
    acc
}

/// A line that ended with a newline, without a carriage return before it.
pub open spec fn line_body(l: Seq<char>) -> Seq<char> {
    if l.len() > 0 && l.last() == '\r' {
        l.drop_last()
    } else {
        l
    }
}

/// The lines of `s[i..]` after the pending line `cur` and the lines `acc`
/// already read (`str::lines`: split after each newline, a final newline
/// ends the last line, and a carriage return before a newline is dropped).
pub open spec fn lines_from(s: Seq<char>, i: int, cur: Seq<char>, acc: Seq<Seq<char>>) -> Seq<Seq<char>>
    decreases s.len() - i,
{
    if i >= s.len() {
        if cur.len() > 0 {
            acc.push(cur)
        } else {
            acc
        }
    } else if s[i] == '\n' {
        lines_from(s, i + 1, seq![], acc.push(line_body(cur)))
    } else {
        lines_from(s, i + 1, cur.push(s[i]), acc)
    }
}

/// `str::lines`.
pub open spec fn lines_spec(s: Seq<char>) -> Seq<Seq<char>> {
    lines_from(s, 0, seq![], seq![])
}

/// A finished line without a carriage return at its end.
fn without_cr(l: String) -> (r: String)
    ensures
        r@ == line_body(l@),
{
    let n = l.as_str().unicode_len();
    if n > 0 && l.as_str().get_char(n - 1) == '\r' {
        let t = l.as_str().substring_char(0, n - 1);
        assert(t@ =~= l@.drop_last());
        String::from_str(t)
    } else {
        l
    }
}

/// The lines of `s`.
pub fn lines(s: &str) -> (r: Vec<String>)
    ensures
        r@.map_values(|l: String| l@) == lines_spec(s@),
{
    let n = s.unicode_len();
    let mut acc: Vec<String> = Vec::new();
    let mut cur = String::new();
    let mut i: usize = 0;
    assert(acc@.map_values(|l: String| l@) =~= Seq::<Seq<char>>::empty());
    assert(cur@ =~= Seq::<char>::empty());
    while i < n
        invariant
            n == s@.len(),
            i <= n,
            lines_from(s@, i as int, cur@, acc@.map_values(|l: String| l@)) == lines_spec(s@),
        decreases n - i,
    {
        let c = s.get_char(i);
        if c == '\n' {
            let ghost before = acc@.map_values(|l: String| l@);
            let done = without_cr(cur);
            let ghost body = done@;
            acc.push(done);
            assert(acc@.map_values(|l: String| l@) =~= before.push(body));
            cur = String::new();
            assert(cur@ =~= Seq::<char>::empty());
        } else {
            push_char(&mut cur, c);
        }
        i = i + 1;
    }
    if cur.as_str().unicode_len() > 0 {
        let ghost before = acc@.map_values(|l: String| l@);
        let ghost last = cur@;
        acc.push(cur);
        assert(acc@.map_values(|l: String| l@) =~= before.push(last));
    }
    acc
}

} // verus!
