//! Text: how integers are written into display strings and event payloads,
//! what integer a written numeral denotes, and how a payload that holds
//! several fields in one string is taken apart.

use vstd::prelude::*;
use vstd::string::*;

verus! {

/// The character that writes the decimal digit `d`.
pub open spec fn digit_char(d: int) -> char {
    if d == 0 {
        '0'
    } else if d == 1 {
        '1'
    } else if d == 2 {
        '2'
    } else if d == 3 {
        '3'
    } else if d == 4 {
        '4'
    } else if d == 5 {
        '5'
    } else if d == 6 {
        '6'
    } else if d == 7 {
        '7'
    } else if d == 8 {
        '8'
    } else {
        '9'
    }
}

/// The digit that a character writes, or `None` if it writes none.
pub open spec fn digit_value(c: char) -> Option<int> {
    if c == '0' {
        Some(0)
    } else if c == '1' {
        Some(1)
    } else if c == '2' {
        Some(2)
    } else if c == '3' {
        Some(3)
    } else if c == '4' {
        Some(4)
    } else if c == '5' {
        Some(5)
    } else if c == '6' {
        Some(6)
    } else if c == '7' {
        Some(7)
    } else if c == '8' {
        Some(8)
    } else if c == '9' {
        Some(9)
    } else {
        None
    }
}

/// The decimal numeral of a natural number: no sign, no leading zero, "0" for zero.
pub open spec fn nat_text(n: nat) -> Seq<char>
    decreases n,
{
    if n < 10 {
        seq![digit_char(n as int)]
    } else {
        nat_text(n / 10).push(digit_char((n % 10) as int))
    }
}

/// The decimal numeral of an integer: a leading '-' for a negative one.
pub open spec fn int_text(i: int) -> Seq<char> {
    if i < 0 {
        seq!['-'] + nat_text((-i) as nat)
    } else {
        nat_text(i as nat)
    }
}

/// The number that the leading digits of `s` write when `acc` has been read
/// before them. Reading stops at the first character that is no digit.
pub open spec fn digits_value(s: Seq<char>, acc: nat) -> nat
    decreases s.len(),
{
    if s.len() == 0 {
        acc
    } else {
        match digit_value(s[0]) {
            Some(d) => digits_value(s.skip(1), acc * 10 + d as nat),
            None => acc,
        }
    }
}

/// The integer part that a display string denotes: an optional '-' and then
/// digits, read up to the first character that is no digit (a decimal point,
/// for one). A string without leading digits denotes zero.
pub open spec fn integer_part(s: Seq<char>) -> int {
    if s.len() > 0 && s[0] == '-' {
        -(digits_value(s.skip(1), 0) as int)
    } else {
        digits_value(s, 0) as int
    }
}

/// No character of a numeral of a natural number is anything but a digit, and
/// its first character is not '-'.
pub proof fn lemma_nat_text_digits(n: nat)
    ensures
        nat_text(n).len() >= 1,
        forall|k: int| 0 <= k < nat_text(n).len() ==> digit_value(#[trigger] nat_text(n)[k]) is Some,
        nat_text(n)[0] != '-',
    decreases n,
{
    if n >= 10 {
        lemma_nat_text_digits(n / 10);
    }
}

/// Reading digits one after another: the digits of `s`, then one more digit.
proof fn lemma_digits_value_push(s: Seq<char>, acc: nat, d: int)
    requires
        0 <= d <= 9,
        forall|k: int| 0 <= k < s.len() ==> digit_value(#[trigger] s[k]) is Some,
    ensures
        digits_value(s.push(digit_char(d)), acc) == digits_value(s, acc) * 10 + d,
    decreases s.len(),
{
    let t = s.push(digit_char(d));
    if s.len() == 0 {
        assert(t.skip(1) =~= Seq::<char>::empty());
        assert(digits_value(t.skip(1), acc * 10 + d as nat) == acc * 10 + d as nat);
    } else {
        let d0 = digit_value(s[0]).unwrap();
        assert(t[0] == s[0]);
        assert(t.skip(1) =~= s.skip(1).push(digit_char(d)));
        assert forall|k: int| 0 <= k < s.skip(1).len() implies digit_value(
            #[trigger] s.skip(1)[k],
        ) is Some by {
            assert(s.skip(1)[k] == s[k + 1]);
        }
        lemma_digits_value_push(s.skip(1), acc * 10 + d0 as nat, d);
    }
}

/// Reading the numeral of `n` gives `n` back.
pub proof fn lemma_digits_value_nat_text(n: nat)
    ensures
        digits_value(nat_text(n), 0) == n,
    decreases n,
{
    if n < 10 {
        let t = nat_text(n);
        assert(t.skip(1) =~= Seq::<char>::empty());
        assert(digits_value(t.skip(1), n) == n);
    } else {
        lemma_digits_value_nat_text(n / 10);
        lemma_nat_text_digits(n / 10);
        lemma_digits_value_push(nat_text(n / 10), 0, (n % 10) as int);
    }
}

/// The integer part of the numeral of `i` is `i`.
pub proof fn lemma_integer_part_int_text(i: int)
    ensures
        integer_part(int_text(i)) == i,
{
    if i < 0 {
        let t = int_text(i);
        assert(t.skip(1) =~= nat_text((-i) as nat));
        lemma_digits_value_nat_text((-i) as nat);
    } else {
        lemma_nat_text_digits(i as nat);
        lemma_digits_value_nat_text(i as nat);
    }
}

/// The one-character string of a decimal digit.
fn digit_str(d: u8) -> (s: &'static str)
    requires
        d < 10,
    ensures
        s@ == seq![digit_char(d as int)],
{
    proof {
        reveal_strlit("0");
        reveal_strlit("1");
        reveal_strlit("2");
        reveal_strlit("3");
        reveal_strlit("4");
        reveal_strlit("5");
        reveal_strlit("6");
        reveal_strlit("7");
        reveal_strlit("8");
        reveal_strlit("9");
    }
    let s = if d == 0 {
        "0"
    } else if d == 1 {
        "1"
    } else if d == 2 {
        "2"
    } else if d == 3 {
        "3"
    } else if d == 4 {
        "4"
    } else if d == 5 {
        "5"
    } else if d == 6 {
        "6"
    } else if d == 7 {
        "7"
    } else if d == 8 {
        "8"
    } else {
        "9"
    };
    assert(s@ =~= seq![digit_char(d as int)]);
    s
}

/// Writes the decimal numeral of `n` at the end of `out`.
pub fn append_nat(out: &mut String, n: u64)
    ensures
        final(out)@ == old(out)@ + nat_text(n as nat),
    decreases n,
{
    if n >= 10 {
        append_nat(out, n / 10);
    }
    let ghost before = out@;
    out.append(digit_str((n % 10) as u8));
    proof {
        if n >= 10 {
            assert(out@ =~= old(out)@ + nat_text((n / 10) as nat).push(
                digit_char((n % 10) as int),
            ));
        } else {
            assert(out@ =~= old(out)@ + seq![digit_char(n as int)]);
        }
    }
}

/// Writes the decimal numeral of `i` at the end of `out`.
fn append_int(out: &mut String, i: i64)
    requires
        i > i64::MIN,
    ensures
        final(out)@ == old(out)@ + int_text(i as int),
{
    if i < 0 {
        proof {
            reveal_strlit("-");
        }
        out.append("-");
        assert(out@ =~= old(out)@ + seq!['-']);
        append_nat(out, (-i) as u64);
        assert(out@ =~= old(out)@ + (seq!['-'] + nat_text((-i) as nat)));
    } else {
        append_nat(out, i as u64);
    }
}

/// The decimal numeral of a 32-bit signed integer, as a string.
pub fn i32_to_string(i: i32) -> (s: String)
    ensures
        s@ == int_text(i as int),
{
    let mut s = String::new();
    append_int(&mut s, i as i64);
    assert(s@ =~= int_text(i as int));
    s
}

/// The decimal numeral of a 32-bit unsigned integer, as a string.
pub fn u32_to_string(n: u32) -> (s: String)
    ensures
        s@ == nat_text(n as nat),
{
    let mut s = String::new();
    append_nat(&mut s, n as u64);
    assert(s@ =~= nat_text(n as nat));
    s
}

/// `a`, then `sep`, then `b`, as one string.
pub fn join2(a: &str, sep: &str, b: &str) -> (s: String)
    ensures
        s@ == a@ + sep@ + b@,
{
    let mut s = String::new();
    s.append(a);
    s.append(sep);
    s.append(b);
    assert(s@ =~= a@ + sep@ + b@);
    s
}

/// Whether a character is white space: the characters with the Unicode
/// property White_Space.
pub open spec fn is_space(c: char) -> bool {
    let u = c as u32;
    (0x09 <= u <= 0x0D) || u == 0x20 || u == 0x85 || u == 0xA0 || u == 0x1680 || (0x2000 <= u
        <= 0x200A) || u == 0x2028 || u == 0x2029 || u == 0x202F || u == 0x205F || u == 0x3000
}

/// Whether a character is white space.
pub fn char_is_space(c: char) -> (b: bool)
    ensures
        b == is_space(c),
{
    let u = c as u32;
    (0x09 <= u && u <= 0x0D) || u == 0x20 || u == 0x85 || u == 0xA0 || u == 0x1680 || (0x2000 <= u
        && u <= 0x200A) || u == 0x2028 || u == 0x2029 || u == 0x202F || u == 0x205F || u == 0x3000
}

/// The first position at or after `from` that holds the character `c`; the
/// length of `s` where there is none.
pub open spec fn next_char(s: Seq<char>, c: char, from: int) -> int
    decreases s.len() - from,
{
    if from < 0 || from >= s.len() {
        s.len() as int
    } else if s[from] == c {
        from
    } else {
        next_char(s, c, from + 1)
    }
}

/// The first position at or after `from` whose character is white space
/// (`space` true) or is not (`space` false); the length of `s` where there
/// is none.
pub open spec fn next_space(s: Seq<char>, space: bool, from: int) -> int
    decreases s.len() - from,
{
    if from < 0 || from >= s.len() {
        s.len() as int
    } else if is_space(s[from]) == space {
        from
    } else {
        next_space(s, space, from + 1)
    }
}

/// The first two fields of a string whose fields are parted by `sep`: what
/// stands before the first `sep`, and what stands between it and the next
/// `sep` or the end. `None` for a string without `sep`.
pub open spec fn pair_fields(s: Seq<char>, sep: char) -> Option<(Seq<char>, Seq<char>)> {
    let a = next_char(s, sep, 0);
    if a >= s.len() {
        None
    } else {
        let b = next_char(s, sep, a + 1);
        Some((s.subrange(0, a), s.subrange(a + 1, b)))
    }
}

/// The first three words of a string, a word being a longest run of
/// characters that are not white space. `None` for a string of fewer words.
pub open spec fn three_words(s: Seq<char>) -> Option<(Seq<char>, Seq<char>, Seq<char>)> {
    let a0 = next_space(s, false, 0);
    let a1 = next_space(s, true, a0);
    let b0 = next_space(s, false, a1);
    let b1 = next_space(s, true, b0);
    let c0 = next_space(s, false, b1);
    let c1 = next_space(s, true, c0);
    if c0 >= s.len() {
        None
    } else {
        Some((s.subrange(a0, a1), s.subrange(b0, b1), s.subrange(c0, c1)))
    }
}

/// The first position at or after `from` that holds `c`.
fn find_char(s: &str, c: char, from: usize) -> (r: usize)
    requires
        from <= s@.len(),
    ensures
        r == next_char(s@, c, from as int),
        from <= r <= s@.len(),
{
    let n = s.unicode_len();
    let mut i = from;
    while i < n
        invariant
            from <= i <= n,
            n == s@.len(),
            next_char(s@, c, from as int) == next_char(s@, c, i as int),
        decreases n - i,
    {
        if s.get_char(i) == c {
            return i;
        }
        i = i + 1;
    }
    i
}

/// The first position at or after `from` whose character is white space, or
/// is not.
fn find_space(s: &str, space: bool, from: usize) -> (r: usize)
    requires
        from <= s@.len(),
    ensures
        r == next_space(s@, space, from as int),
        from <= r <= s@.len(),
{
    let n = s.unicode_len();
    let mut i = from;
    while i < n
        invariant
            from <= i <= n,
            n == s@.len(),
            next_space(s@, space, from as int) == next_space(s@, space, i as int),
        decreases n - i,
    {
        if char_is_space(s.get_char(i)) == space {
            return i;
        }
        i = i + 1;
    }
    i
}

/// The characters of `s` from position `from` up to `to`, as a string.
fn piece(s: &str, from: usize, to: usize) -> (r: String)
    requires
        from <= to <= s@.len(),
    ensures
        r@ == s@.subrange(from as int, to as int),
{
    String::from_str(s.substring_char(from, to))
}

/// Splits a string of fields parted by `sep` and gives the first two.
/// `None` where the string holds no `sep`.
pub fn split_pair(s: &str, sep: char) -> (r: Option<(String, String)>)
    ensures
        r is Some <==> pair_fields(s@, sep) is Some,
        r matches Some(p) ==> (p.0@, p.1@) == pair_fields(s@, sep).unwrap(),
{
    let n = s.unicode_len();
    let a = find_char(s, sep, 0);
    if a >= n {
        None
    } else {
        let b = find_char(s, sep, a + 1);
        Some((piece(s, 0, a), piece(s, a + 1, b)))
    }
}

/// Splits a string into words and gives the first three. `None` where the
/// string holds fewer.
pub fn split_three_words(s: &str) -> (r: Option<(String, String, String)>)
    ensures
        r is Some <==> three_words(s@) is Some,
        r matches Some(w) ==> (w.0@, w.1@, w.2@) == three_words(s@).unwrap(),
{
    let n = s.unicode_len();
    let a0 = find_space(s, false, 0);
    let a1 = find_space(s, true, a0);
    let b0 = find_space(s, false, a1);
    let b1 = find_space(s, true, b0);
    let c0 = find_space(s, false, b1);
    let c1 = find_space(s, true, c0);
    if c0 >= n {
        None
    } else {
        Some((piece(s, a0, a1), piece(s, b0, b1), piece(s, c0, c1)))
    }
}

} // verus!
