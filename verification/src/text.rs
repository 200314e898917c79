//! Small text toolkit: decimal and hexadecimal rendering of integers, and
//! string equality, stated over `Seq<char>` views.

use vstd::prelude::*;

verus! {

/// The character for one decimal digit value.
pub open spec fn dec_digit(d: int) -> char {
    if d == 0 {
        '0'
    } else if d == 1 {
        '1'
    } else if d == 2 {
        '2'
    } else if d == 3 {
        '3'
    } else if d == 4 {
        '4'
    } else if d == 5 {
        '5'
    } else if d == 6 {
        '6'
    } else if d == 7 {
        '7'
    } else if d == 8 {
        '8'
    } else {
        '9'
    }
}

/// The decimal rendering of `n`, most significant digit first, no leading
/// zeros (a lone `0` for zero).
pub open spec fn dec_seq(n: nat) -> Seq<char>
    decreases n,
{
    if n < 10 {
        seq![dec_digit(n as int)]
    } else {
        dec_seq(n / 10) + seq![dec_digit(n as int % 10)]
    }
}

/// The one-character string for a decimal digit.
fn dec_digit_str(d: u64) -> (s: &'static str)
    requires
        d < 10,
    ensures
        s@ =~= seq![dec_digit(d as int)],
{
    proof {
        reveal_strlit("0");
        reveal_strlit("1");
        reveal_strlit("2");
        reveal_strlit("3");
        reveal_strlit("4");
        reveal_strlit("5");
        reveal_strlit("6");
        reveal_strlit("7");
        reveal_strlit("8");
        reveal_strlit("9");
    }
    match d {
        0 => "0",
        1 => "1",
        2 => "2",
        3 => "3",
        4 => "4",
        5 => "5",
        6 => "6",
        7 => "7",
        8 => "8",
        _ => "9",
    }
}

/// Renders `n` in decimal.
pub fn u64_to_dec(n: u64) -> (s: String)
    ensures
        s@ == dec_seq(n as nat),
    decreases n,
{
    if n < 10 {
        dec_digit_str(n).to_owned()
    } else {
        let mut s = u64_to_dec(n / 10);
        s.append(dec_digit_str(n % 10));
        proof {
            assert(s@ =~= dec_seq(n as nat));
        }
        s
    }
}

/// The lowercase character for one hexadecimal digit value.
pub open spec fn hex_digit(d: int) -> char {
    if d < 10 {
        dec_digit(d)
    } else if d == 10 {
        'a'
    } else if d == 11 {
        'b'
    } else if d == 12 {
        'c'
    } else if d == 13 {
        'd'
    } else if d == 14 {
        'e'
    } else {
        'f'
    }
}

/// The lowercase hexadecimal rendering of `n`, no leading zeros (a lone `0`
/// for zero).
pub open spec fn hex_seq(n: nat) -> Seq<char>
    decreases n,
{
    if n < 16 {
        seq![hex_digit(n as int)]
    } else {
        hex_seq(n / 16) + seq![hex_digit(n as int % 16)]
    }
}

/// The one-character string for a hexadecimal digit.
fn hex_digit_str(d: u64) -> (s: &'static str)
    requires
        d < 16,
    ensures
        s@ =~= seq![hex_digit(d as int)],
{
    if d < 10 {
        dec_digit_str(d)
    } else {
        proof {
            reveal_strlit("a");
            reveal_strlit("b");
            reveal_strlit("c");
            reveal_strlit("d");
            reveal_strlit("e");
            reveal_strlit("f");
        }
        match d {
            10 => "a",
            11 => "b",
            12 => "c",
            13 => "d",
            14 => "e",
            _ => "f",
        }
    }
}

/// Renders `n` in lowercase hexadecimal.
pub fn u64_to_hex(n: u64) -> (s: String)
    ensures
        s@ == hex_seq(n as nat),
    decreases n,
{
    if n < 16 {
        hex_digit_str(n).to_owned()
    } else {
        let mut s = u64_to_hex(n / 16);
        s.append(hex_digit_str(n % 16));
        proof {
            assert(s@ =~= hex_seq(n as nat));
        }
        s
    }
}

/// Compares two string slices by their character sequences.
pub fn str_eq(a: &str, b: &str) -> (r: bool)
    ensures
        r == (a@ == b@),
{
    let a_len = a.unicode_len();
    let b_len = b.unicode_len();
    if a_len != b_len {
        proof {
            assert(a@ != b@);
        }
        return false;
    }
    let mut i: usize = 0;
    while i < a_len
        invariant
            i <= a_len,
            a_len == a@.len(),
            a_len == b@.len(),
            forall|j: int| 0 <= j < i ==> a@[j] == b@[j],
        decreases a_len - i,
    {
        if a.get_char(i) != b.get_char(i) {
            proof {
                assert(a@ != b@);
            }
            return false;
        }
        i = i + 1;
    }
    proof {
        assert(a@ =~= b@);
    }
    true
}

/// A line with a trailing carriage return dropped, as the line splitter
/// produces for lines terminated by a carriage return and newline pair.
pub open spec fn strip_cr(line: Seq<char>) -> Seq<char> {
    if line.len() > 0 && line[line.len() - 1] == '\r' {
        line.drop_last()
    } else {
        line
    }
}

/// The index of the first occurrence of `c` in `s`, or `s.len()` if there is
/// none.
pub open spec fn char_index_of(s: Seq<char>, c: char) -> int
    decreases s.len(),
{
    if s.len() == 0 {
        0
    } else if s[0] == c {
        0
    } else {
        1 + char_index_of(s.drop_first(), c)
    }
}

pub proof fn lemma_char_index_of(s: Seq<char>, c: char)
    ensures
        0 <= char_index_of(s, c) <= s.len(),
        char_index_of(s, c) < s.len() ==> s[char_index_of(s, c)] == c,
        forall|j: int| 0 <= j < char_index_of(s, c) ==> s[j] != c,
    decreases s.len(),
{
    if s.len() > 0 && s[0] != c {
        lemma_char_index_of(s.drop_first(), c);
        assert forall|j: int| 0 <= j < char_index_of(s, c) implies s[j] != c by {
            if j > 0 {
                assert(s.drop_first()[j - 1] != c);
            }
        }
    }
}

/// If `c` does not occur before `i` and `i` is the end of the sequence or an
/// occurrence of `c`, then `i` is the first occurrence.
pub proof fn lemma_char_index_of_is(s: Seq<char>, c: char, i: int)
    requires
        0 <= i <= s.len(),
        forall|j: int| 0 <= j < i ==> s[j] != c,
        i < s.len() ==> s[i] == c,
    ensures
        char_index_of(s, c) == i,
    decreases s.len(),
{
    if s.len() > 0 && s[0] != c {
        assert forall|j: int| 0 <= j < i - 1 implies s.drop_first()[j] != c by {
            assert(s[j + 1] != c);
        }
        lemma_char_index_of_is(s.drop_first(), c, i - 1);
    }
}

/// The index of the first newline in `s`, or `s.len()` if there is none.
pub open spec fn first_newline(s: Seq<char>) -> int {
    char_index_of(s, '\n')
}

/// The lines of `s`: pieces split at each newline, a carriage return directly
/// before a newline dropped, and no empty final piece after a terminating
/// newline.
pub open spec fn lines_of(s: Seq<char>) -> Seq<Seq<char>>
    decreases s.len(),
    via lines_of_decreases
{
    if s.len() == 0 {
        Seq::empty()
    } else {
        let i = first_newline(s);
        if i == s.len() {
            seq![s]
        } else {
            seq![strip_cr(s.subrange(0, i))] + lines_of(s.subrange(i + 1, s.len() as int))
        }
    }
}

#[via_fn]
proof fn lines_of_decreases(s: Seq<char>) {
    lemma_char_index_of(s, '\n');
}

/// Splits `s` into its lines, as `lines_of` describes.
pub fn split_lines(s: &str) -> (v: Vec<String>)
    ensures
        v@.len() == lines_of(s@).len(),
        forall|i: int| 0 <= i < v@.len() ==> v@[i]@ == lines_of(s@)[i],
{
    let len = s.unicode_len();
    let mut v: Vec<String> = Vec::new();
    let mut start: usize = 0;
    proof {
        assert(s@.subrange(0, len as int) =~= s@);
    }
    while start < len
        invariant
            start <= len,
            len == s@.len(),
            v@.len() + lines_of(s@.subrange(start as int, len as int)).len() == lines_of(
                s@,
            ).len(),
            forall|k: int| 0 <= k < v@.len() ==> v@[k]@ == lines_of(s@)[k],
            forall|j: int|
                0 <= j < lines_of(s@.subrange(start as int, len as int)).len() ==> lines_of(
                    s@.subrange(start as int, len as int),
                )[j] == lines_of(s@)[v@.len() + j],
        decreases len - start,
    {
        let ghost rem = s@.subrange(start as int, len as int);
        let mut i = start;
        while i < len && s.get_char(i) != '\n'
            invariant
                start <= i <= len,
                len == s@.len(),
                forall|j: int| start <= j < i ==> s@[j] != '\n',
            decreases len - i,
        {
            i = i + 1;
        }
        proof {
            assert forall|j: int| 0 <= j < i - start implies rem[j] != '\n' by {
                assert(s@[start + j] != '\n');
            }
            lemma_char_index_of_is(rem, '\n', i - start);
        }
        if i < len {
            let line_end = if i > start && s.get_char(i - 1) == '\r' {
                i - 1
            } else {
                i
            };
            let piece = s.substring_char(start, line_end).to_owned();
            proof {
                let head = rem.subrange(0, i - start);
                let tail = rem.subrange(i - start + 1, rem.len() as int);
                assert(head =~= s@.subrange(start as int, i as int));
                assert(piece@ =~= strip_cr(head));
                assert(tail =~= s@.subrange(i + 1, len as int));
                assert(lines_of(rem) == seq![strip_cr(head)] + lines_of(tail));
                assert(lines_of(rem)[0] == piece@);
                assert(piece@ == lines_of(s@)[v@.len() as int]);
                assert forall|j: int| 0 <= j < lines_of(tail).len() implies lines_of(tail)[j]
                    == lines_of(s@)[v@.len() + 1 + j] by {
                    assert(lines_of(rem)[j + 1] == lines_of(tail)[j]);
                }
            }
            v.push(piece);
            start = i + 1;
        } else {
            let piece = s.substring_char(start, len).to_owned();
            proof {
                assert(lines_of(rem) =~= seq![rem]);
                assert(s@.subrange(len as int, len as int) =~= Seq::<char>::empty());
                assert(lines_of(rem)[0] == piece@);
                assert(piece@ == lines_of(s@)[v@.len() as int]);
            }
            v.push(piece);
            start = len;
        }
    }
    proof {
        assert(s@.subrange(start as int, len as int) =~= Seq::<char>::empty());
    }
    v
}

/// Whether `c` is a hexadecimal digit, either case.
pub open spec fn is_hex_digit_char(c: char) -> bool {
    ('0' <= c <= '9') || ('a' <= c <= 'f') || ('A' <= c <= 'F')
}

/// The value of a hexadecimal digit character.
pub open spec fn hex_char_val(c: char) -> int {
    if '0' <= c <= '9' {
        c as int - '0' as int
    } else if 'a' <= c <= 'f' {
        c as int - 'a' as int + 10
    } else {
        c as int - 'A' as int + 10
    }
}

/// Whether `s` is a non-empty run of hexadecimal digits.
pub open spec fn is_hex_seq(s: Seq<char>) -> bool {
    s.len() > 0 && forall|i: int| 0 <= i < s.len() ==> is_hex_digit_char(s[i])
}

/// The value of `s` read as a base-16 numeral, most significant digit first.
pub open spec fn hex_value(s: Seq<char>) -> int
    decreases s.len(),
{
    if s.len() == 0 {
        0
    } else {
        16 * hex_value(s.drop_last()) + hex_char_val(s[s.len() - 1])
    }
}

proof fn lemma_hex_value_step(s: Seq<char>, i: int)
    requires
        0 <= i < s.len(),
    ensures
        hex_value(s.subrange(0, i + 1)) == 16 * hex_value(s.subrange(0, i)) + hex_char_val(s[i]),
{
    let p = s.subrange(0, i + 1);
    assert(p.drop_last() =~= s.subrange(0, i));
    assert(p[p.len() - 1] == s[i]);
}

proof fn lemma_hex_value_grows(s: Seq<char>, i: int)
    requires
        0 <= i <= s.len(),
        forall|j: int| 0 <= j < s.len() ==> is_hex_digit_char(s[j]),
        hex_value(s.subrange(0, i)) >= 0,
    ensures
        hex_value(s) >= hex_value(s.subrange(0, i)),
    decreases s.len() - i,
{
    if i == s.len() {
        assert(s.subrange(0, i) =~= s);
    } else {
        lemma_hex_value_step(s, i);
        lemma_hex_value_grows(s, i + 1);
    }
}

/// Whether `c` is a hexadecimal digit, and its value if so.
fn hex_digit_of(c: char) -> (r: Option<u32>)
    ensures
        r is Some <==> is_hex_digit_char(c),
        r is Some ==> r->0 == hex_char_val(c) && r->0 < 16,
{
    if '0' <= c && c <= '9' {
        Some(c as u32 - '0' as u32)
    } else if 'a' <= c && c <= 'f' {
        Some(c as u32 - 'a' as u32 + 10)
    } else if 'A' <= c && c <= 'F' {
        Some(c as u32 - 'A' as u32 + 10)
    } else {
        None
    }
}

/// Parses `s` as a base-16 numeral that fits in sixteen bits.
///
/// Returns the value exactly when `s` is a non-empty run of hexadecimal
/// digits whose value is at most `0xFFFF`.
pub fn parse_hex_u16(s: &str) -> (r: Option<u16>)
    ensures
        r is Some <==> is_hex_seq(s@) && hex_value(s@) <= 0xFFFF,
        r is Some ==> r->0 == hex_value(s@),
{
    let len = s.unicode_len();
    if len == 0 {
        return None;
    }
    let mut acc: u32 = 0;
    let mut i: usize = 0;
    proof {
        assert(s@.subrange(0, 0) =~= Seq::<char>::empty());
    }
    while i < len
        invariant
            0 < len == s@.len(),
            i <= len,
            acc <= 0xFFFF,
            acc == hex_value(s@.subrange(0, i as int)),
            forall|j: int| 0 <= j < i ==> is_hex_digit_char(s@[j]),
        decreases len - i,
    {
        let c = s.get_char(i);
        match hex_digit_of(c) {
            None => {
                proof {
                    assert(!is_hex_seq(s@));
                }
                return None;
            },
            Some(d) => {
                let next = acc * 16 + d;
                proof {
                    lemma_hex_value_step(s@, i as int);
                }
                if next > 0xFFFF {
                    proof {
                        if is_hex_seq(s@) {
                            lemma_hex_value_grows(s@, i + 1);
                        }
                    }
                    return None;
                }
                acc = next;
            },
        }
        i = i + 1;
    }
    proof {
        assert(s@.subrange(0, len as int) =~= s@);
    }
    Some(acc as u16)
}

/// Whether two characters are equal up to ASCII letter case.
pub open spec fn ascii_case_eq_char(a: char, b: char) -> bool {
    a == b || ('A' <= a <= 'Z' && b as int == a as int + 32) || ('A' <= b <= 'Z' && a as int
        == b as int + 32)
}

/// Whether two character sequences are equal up to ASCII letter case.
pub open spec fn ascii_case_eq(a: Seq<char>, b: Seq<char>) -> bool {
    a.len() == b.len() && forall|i: int| 0 <= i < a.len() ==> ascii_case_eq_char(a[i], b[i])
}

/// Compares two string slices, treating ASCII letters of either case alike.
pub fn str_eq_ignore_ascii_case(a: &str, b: &str) -> (r: bool)
    ensures
        r == ascii_case_eq(a@, b@),
{
    let a_len = a.unicode_len();
    let b_len = b.unicode_len();
    if a_len != b_len {
        return false;
    }
    let mut i: usize = 0;
    while i < a_len
        invariant
            i <= a_len,
            a_len == a@.len(),
            a_len == b@.len(),
            forall|j: int| 0 <= j < i ==> ascii_case_eq_char(a@[j], b@[j]),
        decreases a_len - i,
    {
        let x = a.get_char(i);
        let y = b.get_char(i);
        let same = if x == y {
            true
        } else {
            let xv = x as u32;
            let yv = y as u32;
            ('A' as u32 <= xv && xv <= 'Z' as u32 && yv == xv + 32) || ('A' as u32 <= yv && yv
                <= 'Z' as u32 && xv == yv + 32)
        };
        if !same {
            return false;
        }
        i = i + 1;
    }
    true
}

/// The character sequences of a sequence of strings.
pub open spec fn str_views(v: Seq<String>) -> Seq<Seq<char>> {
    v.map_values(|s: String| s@)
}

/// The character sequence of an optional string.
pub open spec fn opt_str_view(o: Option<String>) -> Option<Seq<char>> {
    match o {
        Some(s) => Some(s@),
        None => None,
    }
}

/// Whether one of the strings in `v` has the characters of `s`.
pub fn contains_str(v: &Vec<String>, s: &str) -> (r: bool)
    ensures
        r == str_views(v@).contains(s@),
{
    let n = v.len();
    let mut i: usize = 0;
    while i < n
        invariant
            i <= n,
            n == v@.len(),
            forall|j: int| 0 <= j < i ==> str_views(v@)[j] != s@,
        decreases n - i,
    {
        if str_eq(v[i].as_str(), s) {
            proof {
                assert(str_views(v@)[i as int] == s@);
            }
            return true;
        }
        i = i + 1;
    }
    proof {
        assert forall|j: int| 0 <= j < str_views(v@).len() implies str_views(v@)[j] != s@ by {}
    }
    false
}

/// Whether `c` is ASCII whitespace.
pub open spec fn is_space_char(c: char) -> bool {
    c == ' ' || c == '\t' || c == '\n' || c == '\r'
}

/// `s` with leading ASCII whitespace dropped.
pub open spec fn trim_start_spec(s: Seq<char>) -> Seq<char>
    decreases s.len(),
{
    if s.len() > 0 && is_space_char(s[0]) {
        trim_start_spec(s.drop_first())
    } else {
        s
    }
}

/// `s` with trailing ASCII whitespace dropped.
pub open spec fn trim_end_spec(s: Seq<char>) -> Seq<char>
    decreases s.len(),
{
    if s.len() > 0 && is_space_char(s[s.len() - 1]) {
        trim_end_spec(s.drop_last())
    } else {
        s
    }
}

/// `s` with surrounding ASCII whitespace dropped.
pub open spec fn trim_spec(s: Seq<char>) -> Seq<char> {
    trim_end_spec(trim_start_spec(s))
}

proof fn lemma_trim_start_at(s: Seq<char>, a: int)
    requires
        0 <= a <= s.len(),
        forall|j: int| 0 <= j < a ==> is_space_char(s[j]),
        a < s.len() ==> !is_space_char(s[a]),
    ensures
        trim_start_spec(s) =~= s.subrange(a, s.len() as int),
    decreases s.len(),
{
    if s.len() > 0 && is_space_char(s[0]) {
        assert(a > 0);
        let t = s.drop_first();
        assert forall|j: int| 0 <= j < a - 1 implies is_space_char(t[j]) by {
            assert(is_space_char(s[j + 1]));
        }
        lemma_trim_start_at(t, a - 1);
        assert(t.subrange(a - 1, t.len() as int) =~= s.subrange(a, s.len() as int));
    } else {
        assert(a == 0);
        assert(s.subrange(0, s.len() as int) =~= s);
    }
}

proof fn lemma_trim_end_at(s: Seq<char>, b: int)
    requires
        0 <= b <= s.len(),
        forall|j: int| b <= j < s.len() ==> is_space_char(s[j]),
        b > 0 ==> !is_space_char(s[b - 1]),
    ensures
        trim_end_spec(s) =~= s.subrange(0, b),
    decreases s.len(),
{
    if s.len() > 0 && is_space_char(s[s.len() - 1]) {
        assert(b < s.len());
        lemma_trim_end_at(s.drop_last(), b);
        assert(s.drop_last().subrange(0, b) =~= s.subrange(0, b));
    } else {
        assert(b == s.len());
        assert(s.subrange(0, s.len() as int) =~= s);
    }
}

fn is_space(c: char) -> (r: bool)
    ensures
        r == is_space_char(c),
{
    c == ' ' || c == '\t' || c == '\n' || c == '\r'
}

/// `s` with surrounding ASCII whitespace dropped.
pub fn trim_spaces(s: &str) -> (t: String)
    ensures
        t@ == trim_spec(s@),
{
    let len = s.unicode_len();
    let mut a: usize = 0;
    while a < len && is_space(s.get_char(a))
        invariant
            a <= len,
            len == s@.len(),
            forall|j: int| 0 <= j < a ==> is_space_char(s@[j]),
        decreases len - a,
    {
        a = a + 1;
    }
    proof {
        lemma_trim_start_at(s@, a as int);
    }
    let ghost mid = s@.subrange(a as int, len as int);
    let mut b: usize = len;
    while b > a && is_space(s.get_char(b - 1))
        invariant
            a <= b <= len,
            len == s@.len(),
            forall|j: int| b <= j < len ==> is_space_char(s@[j]),
        decreases b,
    {
        b = b - 1;
    }
    proof {
        assert forall|j: int| b - a <= j < mid.len() implies is_space_char(mid[j]) by {
            assert(is_space_char(s@[a + j]));
        }
        if b > a {
            assert(!is_space_char(mid[b - a - 1]));
        }
        lemma_trim_end_at(mid, b - a);
        assert(mid.subrange(0, b - a) =~= s@.subrange(a as int, b as int));
    }
    let t = s.substring_char(a, b).to_owned();
    t
}

} // verus!
