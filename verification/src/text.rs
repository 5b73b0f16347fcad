//! Small text rules: integers as text, ASCII case folding, Unicode white space and
//! joining lines.
use vstd::prelude::*;
use crate::decimal::{digits, digit_char};

verus! {

/// The decimal text of an integer, as Rust's `Display` writes it.
pub open spec fn int_text(n: int) -> Seq<char> {
    if n == 0 {
        seq!['0']
    } else if n < 0 {
        seq!['-'] + digits((-n) as nat)
    } else {
        digits(n as nat)
    }
}

fn digit_str(d: u64) -> (r: &'static str)
    requires
        d < 10,
    ensures
        r@ == seq![digit_char(d as nat)],
{
    proof {
        reveal_strlit("0");
        reveal_strlit("1");
        reveal_strlit("2");
        reveal_strlit("3");
        reveal_strlit("4");
        reveal_strlit("5");
        reveal_strlit("6");
        reveal_strlit("7");
        reveal_strlit("8");
        reveal_strlit("9");
    }
    if d == 0 {
        "0"
    } else if d == 1 {
        "1"
    } else if d == 2 {
        "2"
    } else if d == 3 {
        "3"
    } else if d == 4 {
        "4"
    } else if d == 5 {
        "5"
    } else if d == 6 {
        "6"
    } else if d == 7 {
        "7"
    } else if d == 8 {
        "8"
    } else {
        "9"
    }
}

fn push_digits(out: &mut String, n: u64)
    ensures
        final(out)@ == old(out)@ + digits(n as nat),
    decreases n,
{
    if n == 0 {
        return;
    }
    if n >= 10 {
        push_digits(out, n / 10);
    }
    let ghost before = out@;
    out.append(digit_str(n % 10));
    assert(digits(n as nat) == digits((n / 10) as nat).push(digit_char((n % 10) as nat)));
    if n < 10 {
        assert(digits((n / 10) as nat) == Seq::<char>::empty());
    }
}

/// The decimal text of a count.
pub fn count_to_text(n: usize) -> (r: String)
    ensures
        r@ == int_text(n as int),
{
    let mut out = String::new();
    if n == 0 {
        proof {
            reveal_strlit("0");
        }
        out.append("0");
        return out;
    }
    push_digits(&mut out, n as u64);
    out
}

/// The decimal text of `n`.
pub fn int_to_text(n: i64) -> (r: String)
    ensures
        r@ == int_text(n as int),
{
    let mut out = String::new();
    if n == 0 {
        proof {
            reveal_strlit("0");
        }
        out.append("0");
        return out;
    }
    if n < 0 {
        proof {
            reveal_strlit("-");
        }
        out.append("-");
        let magnitude: u64 = if n == i64::MIN {
            9223372036854775808u64
        } else {
            (-n) as u64
        };
        push_digits(&mut out, magnitude);
    } else {
        push_digits(&mut out, n as u64);
    }
    out
}

/// `c` with ASCII upper-case letters mapped to lower case, as `to_ascii_lowercase`.
pub open spec fn ascii_lower(c: char) -> char {
    if 'A' <= c <= 'Z' {
        ((c as u32) + 32) as char
    } else {
        c
    }
}

/// `c` with ASCII lower-case letters mapped to upper case, as `to_ascii_uppercase`.
pub open spec fn ascii_upper(c: char) -> char {
    if 'a' <= c <= 'z' {
        ((c as u32) - 32) as char
    } else {
        c
    }
}

pub open spec fn lower_text(s: Seq<char>) -> Seq<char> {
    s.map_values(|c: char| ascii_lower(c))
}

pub open spec fn upper_text(s: Seq<char>) -> Seq<char> {
    s.map_values(|c: char| ascii_upper(c))
}

fn lower_char_eq(c: char, t: char) -> (r: bool)
    ensures
        r == (ascii_lower(c) == t),
{
    if 'A' <= c && c <= 'Z' {
        let code: u32 = c as u32;
        code + 32 == t as u32
    } else {
        c == t
    }
}

fn upper_char_eq(c: char, t: char) -> (r: bool)
    ensures
        r == (ascii_upper(c) == t),
{
    if 'a' <= c && c <= 'z' {
        let code: u32 = c as u32;
        code - 32 == t as u32
    } else {
        c == t
    }
}

/// Whether the ASCII lower-case form of `s` is `target`.
pub fn lowercase_equals(s: &str, target: &str) -> (r: bool)
    ensures
        r == (lower_text(s@) == target@),
{
    let n = s.unicode_len();
    if n != target.unicode_len() {
        assert(lower_text(s@).len() != target@.len());
        return false;
    }
    let mut i: usize = 0;
    while i < n
        invariant
            n == s@.len(),
            n == target@.len(),
            i <= n,
            forall|j: int| 0 <= j < i ==> ascii_lower(#[trigger] s@[j]) == target@[j],
        decreases n - i,
    {
        if !lower_char_eq(s.get_char(i), target.get_char(i)) {
            assert(lower_text(s@)[i as int] != target@[i as int]);
            return false;
        }
        i = i + 1;
    }
    assert(lower_text(s@) =~= target@);
    true
}

/// Whether the ASCII upper-case form of `s` is `target`.
pub fn uppercase_equals(s: &str, target: &str) -> (r: bool)
    ensures
        r == (upper_text(s@) == target@),
{
    let n = s.unicode_len();
    if n != target.unicode_len() {
        assert(upper_text(s@).len() != target@.len());
        return false;
    }
    let mut i: usize = 0;
    while i < n
        invariant
            n == s@.len(),
            n == target@.len(),
            i <= n,
            forall|j: int| 0 <= j < i ==> ascii_upper(#[trigger] s@[j]) == target@[j],
        decreases n - i,
    {
        if !upper_char_eq(s.get_char(i), target.get_char(i)) {
            assert(upper_text(s@)[i as int] != target@[i as int]);
            return false;
        }
        i = i + 1;
    }
    assert(upper_text(s@) =~= target@);
    true
}

/// The Unicode `White_Space` property, which `char::is_whitespace` and `str::trim` use.
pub open spec fn white_space(c: char) -> bool {
    let u = c as u32;
    ||| 0x09 <= u <= 0x0D
    ||| u == 0x20
    ||| u == 0x85
    ||| u == 0xA0
    ||| u == 0x1680
    ||| 0x2000 <= u <= 0x200A
    ||| u == 0x2028
    ||| u == 0x2029
    ||| u == 0x202F
    ||| u == 0x205F
    ||| u == 0x3000
}

pub fn is_white_space(c: char) -> (r: bool)
    ensures
        r == white_space(c),
{
    let u: u32 = c as u32;
    (0x09 <= u && u <= 0x0D) || u == 0x20 || u == 0x85 || u == 0xA0 || u == 0x1680 || (0x2000
        <= u && u <= 0x200A) || u == 0x2028 || u == 0x2029 || u == 0x202F || u == 0x205F || u
        == 0x3000
}

/// Text made of white space only, so that trimming it leaves nothing.
pub open spec fn blank(s: Seq<char>) -> bool {
    forall|i: int| 0 <= i < s.len() ==> white_space(#[trigger] s[i])
}

/// An ASCII digit.
pub open spec fn ascii_digit(c: char) -> bool {
    '0' <= c <= '9'
}

/// The number a run of ASCII digits spells.
pub open spec fn digits_value(s: Seq<char>) -> int
    decreases s.len(),
{
    if s.len() == 0 {
        0
    } else {
        digits_value(s.drop_last()) * 10 + (s.last() as int - '0' as int)
    }
}

/// The text opens with a sign.
pub open spec fn signed_text(s: Seq<char>) -> bool {
    s.len() > 0 && (s[0] == '+' || s[0] == '-')
}

/// The text after its sign, if any.
pub open spec fn unsigned_part(s: Seq<char>) -> Seq<char> {
    if signed_text(s) {
        s.drop_first()
    } else {
        s
    }
}

/// Every character is an ASCII digit.
pub open spec fn all_digits(s: Seq<char>) -> bool {
    forall|i: int| 0 <= i < s.len() ==> ascii_digit(#[trigger] s[i])
}

/// What `str::parse::<i64>` accepts: an optional `+` or `-`, then one or more ASCII
/// digits, no white space, and a value in range.
pub open spec fn i64_text_value(s: Seq<char>) -> Option<int> {
    let body = unsigned_part(s);
    let v = if signed_text(s) && s[0] == '-' {
        -digits_value(body)
    } else {
        digits_value(body)
    };
    if body.len() > 0 && all_digits(body) && i64::MIN <= v <= i64::MAX {
        Some(v)
    } else {
        None
    }
}

proof fn lemma_digits_value_grows(s: Seq<char>, k: int)
    requires
        0 <= k <= s.len(),
        forall|i: int| 0 <= i < s.len() ==> ascii_digit(#[trigger] s[i]),
    ensures
        0 <= digits_value(s.take(k)) <= digits_value(s),
    decreases s.len() - k,
{
    if k == s.len() {
        assert(s.take(k) =~= s);
        lemma_digits_value_nonneg(s);
    } else {
        let t = s.drop_last();
        assert forall|i: int| 0 <= i < t.len() implies ascii_digit(#[trigger] t[i]) by {
            assert(t[i] == s[i]);
        }
        lemma_digits_value_grows(t, k);
        assert(t.take(k) =~= s.take(k));
        lemma_digits_value_nonneg(t);
        assert(ascii_digit(s[s.len() - 1]));
    }
}

proof fn lemma_digits_value_nonneg(s: Seq<char>)
    requires
        forall|i: int| 0 <= i < s.len() ==> ascii_digit(#[trigger] s[i]),
    ensures
        digits_value(s) >= 0,
    decreases s.len(),
{
    if s.len() > 0 {
        let t = s.drop_last();
        assert forall|i: int| 0 <= i < t.len() implies ascii_digit(#[trigger] t[i]) by {
            assert(t[i] == s[i]);
        }
        lemma_digits_value_nonneg(t);
        assert(ascii_digit(s[s.len() - 1]));
    }
}

/// Parses a decimal `i64` as `str::parse::<i64>` does: an optional sign, then ASCII
/// digits only, the value within `i64`; anything else is refused.
pub fn parse_i64(text: &str) -> (r: Option<i64>)
    ensures
        r is Some <==> i64_text_value(text@) is Some,
        r is Some ==> i64_text_value(text@) == Some(r->0 as int),
{
    let n = text.unicode_len();
    let mut start: usize = 0;
    let mut negative = false;
    if n > 0 {
        let c0 = text.get_char(0);
        if c0 == '+' || c0 == '-' {
            negative = c0 == '-';
            start = 1;
        }
    }
    let ghost s = text@;
    let ghost body = if start == 1 {
        s.drop_first()
    } else {
        s
    };
    assert(body =~= s.subrange(start as int, n as int));
    assert((start == 1) == (s.len() > 0 && (s[0] == '+' || s[0] == '-')));
    assert(negative == (start == 1 && s[0] == '-'));
    if start == n {
        return None;
    }
    let mut acc: i128 = 0;
    let mut i: usize = start;
    while i < n
        invariant
            n == s.len(),
            s == text@,
            start <= i <= n,
            body == s.subrange(start as int, n as int),
            (start == 1) == (s.len() > 0 && (s[0] == '+' || s[0] == '-')),
            negative == (start == 1 && s[0] == '-'),
            start <= 1,
            forall|j: int| start <= j < i ==> ascii_digit(#[trigger] s[j]),
            acc == digits_value(s.subrange(start as int, i as int)),
            0 <= acc <= 9223372036854775808,
        decreases n - i,
    {
        let c = text.get_char(i);
        if !('0' <= c && c <= '9') {
            assert(body[i - start] == c);
            assert(!ascii_digit(body[i - start]));
            assert(!all_digits(body));
            assert(unsigned_part(s) == body);
            assert(i64_text_value(s) is None);
            return None;
        }
        assert(s.subrange(start as int, i + 1).drop_last() =~= s.subrange(start as int, i as int));
        assert(s.subrange(start as int, i + 1).last() == c);
        let d = (c as u32 - '0' as u32) as i128;
        acc = acc * 10 + d;
        i = i + 1;
        if acc > 9223372036854775808 {
            proof {
                if all_digits(body) {
                    assert(body.take(i - start) =~= s.subrange(start as int, i as int));
                    lemma_digits_value_grows(body, i - start);
                    assert(digits_value(body) > 9223372036854775808);
                }
                assert(unsigned_part(s) == body);
                assert(i64_text_value(s) is None);
            }
            return None;
        }
    }
    assert(body =~= s.subrange(start as int, i as int));
    assert forall|j: int| 0 <= j < body.len() implies ascii_digit(#[trigger] body[j]) by {
        assert(body[j] == s[start + j]);
    }
    assert(all_digits(body));
    assert(unsigned_part(s) == body);
    if negative {
        assert(s[0] == '-');
        Some((-acc) as i64)
    } else {
        if acc > 9223372036854775807 {
            return None;
        }
        Some(acc as i64)
    }
}

/// Whether two texts are equal, character by character.
pub fn text_equals(a: &str, b: &str) -> (r: bool)
    ensures
        r == (a@ == b@),
{
    let n = a.unicode_len();
    if n != b.unicode_len() {
        return false;
    }
    let mut i: usize = 0;
    while i < n
        invariant
            n == a@.len(),
            n == b@.len(),
            i <= n,
            forall|j: int| 0 <= j < i ==> a@[j] == b@[j],
        decreases n - i,
    {
        if a.get_char(i) != b.get_char(i) {
            return false;
        }
        i = i + 1;
    }
    assert(a@ =~= b@);
    true
}

/// Whether `s.trim().is_empty()`.
pub fn is_blank(s: &str) -> (r: bool)
    ensures
        r == blank(s@),
{
    let n = s.unicode_len();
    let mut i: usize = 0;
    while i < n
        invariant
            n == s@.len(),
            i <= n,
            forall|j: int| 0 <= j < i ==> white_space(#[trigger] s@[j]),
        decreases n - i,
    {
        if !is_white_space(s.get_char(i)) {
            return false;
        }
        i = i + 1;
    }
    true
}

/// `lines` joined with `sep` in between, as `[String]::join`.
pub open spec fn joined(lines: Seq<Seq<char>>, sep: Seq<char>) -> Seq<char>
    decreases lines.len(),
{
    if lines.len() == 0 {
        Seq::empty()
    } else if lines.len() == 1 {
        lines[0]
    } else {
        joined(lines.drop_last(), sep) + sep + lines.last()
    }
}

pub open spec fn views(lines: Seq<String>) -> Seq<Seq<char>> {
    lines.map_values(|l: String| l@)
}

/// Joins `lines` with `sep` in between.
pub fn join(lines: &Vec<String>, sep: &str) -> (r: String)
    ensures
        r@ == joined(views(lines@), sep@),
{
    let mut out = String::new();
    let mut i: usize = 0;
    while i < lines.len()
        invariant
            i <= lines.len(),
            out@ == joined(views(lines@).take(i as int), sep@),
        decreases lines.len() - i,
    {
        let ghost prefix = views(lines@).take(i as int);
        if i > 0 {
            out.append(sep);
        }
        out.append(lines[i].as_str());
        assert(views(lines@).take(i + 1).drop_last() =~= prefix);
        if i == 0 {
            assert(views(lines@).take(1) =~= seq![lines@[0]@]);
        }
        i = i + 1;
    }
    assert(views(lines@).take(lines.len() as int) =~= views(lines@));
    out
}

} // verus!
