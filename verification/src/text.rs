//! Text helpers: decimal rendering of numbers.

use vstd::prelude::*;
use vstd::string::{StrSliceExecFns, StringExecFns};

verus! {

/// `str`'s `==`: whether two strings hold the same characters.
#[verifier::external_body]
pub(crate) fn str_eq(a: &str, b: &str) -> (same: bool)
    ensures
        same == (a@ == b@),
{
    a == b
}

/// The character of a decimal digit.
pub open spec fn digit_char(d: nat) -> char {
    if d == 0 {
        '0'
    } else if d == 1 {
        '1'
    } else if d == 2 {
        '2'
    } else if d == 3 {
        '3'
    } else if d == 4 {
        '4'
    } else if d == 5 {
        '5'
    } else if d == 6 {
        '6'
    } else if d == 7 {
        '7'
    } else if d == 8 {
        '8'
    } else {
        '9'
    }
}

/// The decimal digits of `n`, without leading zeros.
pub open spec fn decimal(n: nat) -> Seq<char>
    decreases n,
{
    if n < 10 {
        seq![digit_char(n)]
    } else {
        decimal(n / 10).push(digit_char(n % 10))
    }
}

/// The one-character string of a decimal digit.
fn digit_str(d: u8) -> (s: &'static str)
    requires
        d < 10,
    ensures
        s@ == seq![digit_char(d as nat)],
{
    proof {
        reveal_strlit("0");
        reveal_strlit("1");
        reveal_strlit("2");
        reveal_strlit("3");
        reveal_strlit("4");
        reveal_strlit("5");
        reveal_strlit("6");
        reveal_strlit("7");
        reveal_strlit("8");
        reveal_strlit("9");
    }
    let s = match d {
        0 => "0",
        1 => "1",
        2 => "2",
        3 => "3",
        4 => "4",
        5 => "5",
        6 => "6",
        7 => "7",
        8 => "8",
        _ => "9",
    };
    assert(s@ =~= seq![digit_char(d as nat)]);
    s
}

/// Appends the decimal digits of `n` to `out`.
pub fn push_decimal(out: &mut String, n: u64)
    ensures
        final(out)@ == old(out)@ + decimal(n as nat),
    decreases n,
{
    if n >= 10 {
        push_decimal(out, n / 10);
    }
    out.append(digit_str((n % 10) as u8));
    proof {
        let before = old(out)@;
        if n >= 10 {
            assert(out@ =~= before + decimal(n as nat));
        } else {
            assert(out@ =~= before + decimal(n as nat));
        }
    }
}


/// The character of a hexadecimal digit, in lower case.
pub open spec fn hex_char(d: nat) -> char {
    if d < 10 {
        digit_char(d)
    } else if d == 10 {
        'a'
    } else if d == 11 {
        'b'
    } else if d == 12 {
        'c'
    } else if d == 13 {
        'd'
    } else if d == 14 {
        'e'
    } else {
        'f'
    }
}

/// The hexadecimal digits of `n`, in lower case and without leading zeros.
pub open spec fn hexadecimal(n: nat) -> Seq<char>
    decreases n,
{
    if n < 16 {
        seq![hex_char(n)]
    } else {
        hexadecimal(n / 16).push(hex_char(n % 16))
    }
}

/// The one-character string of a hexadecimal digit.
fn hex_str(d: u8) -> (s: &'static str)
    requires
        d < 16,
    ensures
        s@ == seq![hex_char(d as nat)],
{
    if d < 10 {
        return digit_str(d);
    }
    proof {
        reveal_strlit("a");
        reveal_strlit("b");
        reveal_strlit("c");
        reveal_strlit("d");
        reveal_strlit("e");
        reveal_strlit("f");
    }
    let s = match d {
        10 => "a",
        11 => "b",
        12 => "c",
        13 => "d",
        14 => "e",
        _ => "f",
    };
    assert(s@ =~= seq![hex_char(d as nat)]);
    s
}

/// Appends the hexadecimal digits of `n` to `out`.
pub fn push_hex(out: &mut String, n: u64)
    ensures
        final(out)@ == old(out)@ + hexadecimal(n as nat),
    decreases n,
{
    if n >= 16 {
        push_hex(out, n / 16);
    }
    out.append(hex_str((n % 16) as u8));
    proof {
        assert(out@ =~= old(out)@ + hexadecimal(n as nat));
    }
}

/// The value of a digit in a radix of ten or sixteen, if the character is one.
pub open spec fn digit_value(c: char, radix: nat) -> Option<nat> {
    if '0' <= c <= '9' {
        Some((c as nat - '0' as nat) as nat)
    } else if radix == 16 && 'a' <= c <= 'f' {
        Some((c as nat - 'a' as nat + 10) as nat)
    } else if radix == 16 && 'A' <= c <= 'F' {
        Some((c as nat - 'A' as nat + 10) as nat)
    } else {
        None
    }
}

/// The number that a run of digits spells; nothing if a character is no digit.
pub open spec fn digits_value(s: Seq<char>, radix: nat) -> Option<nat>
    decreases s.len(),
{
    if s.len() == 0 {
        Some(0)
    } else {
        match (digits_value(s.drop_last(), radix), digit_value(s.last(), radix)) {
            (Some(v), Some(d)) => Some(v * radix + d),
            _ => None,
        }
    }
}

/// The number that a text spells: at least one digit, with or without a
/// plus sign before them.
pub open spec fn unsigned_value(s: Seq<char>, radix: nat) -> Option<nat> {
    let body = if s.len() > 0 && s[0] == '+' {
        s.drop_first()
    } else {
        s
    };
    if body.len() == 0 {
        None
    } else {
        digits_value(body, radix)
    }
}

/// The u64 that a text spells, in a radix of ten or sixteen.
pub open spec fn spelled_u64(s: Seq<char>, radix: nat) -> Option<u64> {
    match unsigned_value(s, radix) {
        Some(v) => if v <= u64::MAX {
            Some(v as u64)
        } else {
            None
        },
        None => None,
    }
}

/// The i32 that a decimal text spells: digits with or without a sign before them.
pub open spec fn spelled_i32(s: Seq<char>) -> Option<i32> {
    if s.len() > 0 && s[0] == '-' {
        if s.len() == 1 {
            None
        } else {
            match digits_value(s.drop_first(), 10) {
                Some(v) => if v <= 0x8000_0000 {
                    Some((-v) as i32)
                } else {
                    None
                },
                None => None,
            }
        }
    } else {
        match unsigned_value(s, 10) {
            Some(v) => if v <= 0x7fff_ffff {
                Some(v as i32)
            } else {
                None
            },
            None => None,
        }
    }
}

/// A run of digits spells at least what any of its beginnings spells.
pub proof fn lemma_digits_grow(s: Seq<char>, radix: nat, upto: int)
    requires
        0 <= upto <= s.len(),
        radix >= 1,
    ensures
        digits_value(s, radix) matches Some(v) ==> (digits_value(s.subrange(0, upto), radix)
            matches Some(front) && front <= v),
        digits_value(s.subrange(0, upto), radix) is None ==> digits_value(s, radix) is None,
    decreases s.len() - upto,
{
    if upto < s.len() {
        lemma_digits_grow(s, radix, upto + 1);
        let longer = s.subrange(0, upto + 1);
        assert(longer.drop_last() =~= s.subrange(0, upto));
        if let Some(v) = digits_value(longer.drop_last(), radix) {
            assert(v * radix >= v) by (nonlinear_arith)
                requires
                    radix >= 1,
                    v >= 0,
            ;
        }
    } else {
        assert(s.subrange(0, upto) =~= s);
    }
}

/// The characters of a text.
pub fn chars_of(s: &str) -> (chars: Vec<char>)
    ensures
        chars@ == s@,
{
    let n = s.unicode_len();
    let mut chars: Vec<char> = Vec::new();
    let mut i: usize = 0;
    while i < n
        invariant
            i <= n == s@.len(),
            chars@ =~= s@.subrange(0, i as int),
        decreases n - i,
    {
        chars.push(s.get_char(i));
        i += 1;
    }
    assert(s@.subrange(0, n as int) =~= s@);
    chars
}

/// The value of a digit character.
fn digit_of(c: char, radix: u32) -> (d: Option<u32>)
    requires
        radix == 10 || radix == 16,
    ensures
        d == match digit_value(c, radix as nat) {
            Some(v) => Some(v as u32),
            None => None,
        },
        d matches Some(v) ==> v < 16,
{
    let code = c as u32;
    if 0x30 <= code && code <= 0x39 {
        Some(code - 0x30)
    } else if radix == 16 && 0x61 <= code && code <= 0x66 {
        Some(code - 0x61 + 10)
    } else if radix == 16 && 0x41 <= code && code <= 0x46 {
        Some(code - 0x41 + 10)
    } else {
        None
    }
}

/// The number that the digits `chars[from..]` spell, if it is at most `max`.
fn parse_digits(chars: &Vec<char>, from: usize, radix: u32, max: u64) -> (r: Option<u64>)
    requires
        from <= chars@.len(),
        radix == 10 || radix == 16,
    ensures
        r == match digits_value(chars@.subrange(from as int, chars@.len() as int), radix as nat) {
            Some(v) => if v <= max {
                Some(v as u64)
            } else {
                None
            },
            None => None,
        },
{
    let ghost body = chars@.subrange(from as int, chars@.len() as int);
    let mut acc: u64 = 0;
    let mut i: usize = from;
    while i < chars.len()
        invariant
            from <= i <= chars@.len(),
            radix == 10 || radix == 16,
            body == chars@.subrange(from as int, chars@.len() as int),
            digits_value(body.subrange(0, i - from), radix as nat) == Some(acc as nat),
            acc <= max,
        decreases chars.len() - i,
    {
        proof {
            let longer = body.subrange(0, i + 1 - from);
            assert(longer.drop_last() =~= body.subrange(0, i - from));
            assert(longer.last() == chars@[i as int]);
            lemma_digits_grow(body, radix as nat, i + 1 - from);
        }
        let d = match digit_of(chars[i], radix) {
            Some(d) => d,
            None => {
                return None;
            },
        };
        let next: u128 = acc as u128 * radix as u128 + d as u128;
        if next > max as u128 {
            return None;
        }
        acc = next as u64;
        i += 1;
    }
    assert(body.subrange(0, i - from) =~= body);
    Some(acc)
}

/// Reads a u64 in a radix of ten or sixteen, as `u64::from_str_radix`
/// does: at least one digit, with or without a plus sign before them.
pub fn parse_u64(s: &str, radix: u32) -> (r: Option<u64>)
    requires
        radix == 10 || radix == 16,
    ensures
        r == spelled_u64(s@, radix as nat),
{
    let chars = chars_of(s);
    let from: usize = if chars.len() > 0 && chars[0] == '+' {
        1
    } else {
        0
    };
    if from == chars.len() {
        return None;
    }
    assert(from == 1 ==> chars@.subrange(1, chars@.len() as int) =~= chars@.drop_first());
    assert(from == 0 ==> chars@.subrange(0, chars@.len() as int) =~= chars@);
    parse_digits(&chars, from, radix, u64::MAX)
}

/// Reads a decimal i32, as `str::parse::<i32>` does: at least one digit,
/// with or without a sign before them.
pub fn parse_i32(s: &str) -> (r: Option<i32>)
    ensures
        r == spelled_i32(s@),
{
    let chars = chars_of(s);
    if chars.len() > 0 && chars[0] == '-' {
        if chars.len() == 1 {
            return None;
        }
        assert(chars@.subrange(1, chars@.len() as int) =~= chars@.drop_first());
        match parse_digits(&chars, 1, 10, 0x8000_0000) {
            Some(v) => Some((0 - v as i64) as i32),
            None => None,
        }
    } else {
        let from: usize = if chars.len() > 0 && chars[0] == '+' {
            1
        } else {
            0
        };
        if from == chars.len() {
            return None;
        }
        assert(from == 1 ==> chars@.subrange(1, chars@.len() as int) =~= chars@.drop_first());
        assert(from == 0 ==> chars@.subrange(0, chars@.len() as int) =~= chars@);
        match parse_digits(&chars, from, 10, 0x7fff_ffff) {
            Some(v) => Some(v as i32),
            None => None,
        }
    }
}

/// The place of the first `sep` in `s`, or the length of `s` if there is none.
pub open spec fn next_sep(s: Seq<char>, sep: char) -> int
    decreases s.len(),
{
    if s.len() == 0 || s[0] == sep {
        0
    } else {
        1 + next_sep(s.drop_first(), sep)
    }
}

/// `next_sep` is the least place of `sep` in `s`, and the length of `s`
/// only if `s` holds no `sep`.
pub proof fn lemma_next_sep(s: Seq<char>, sep: char)
    ensures
        0 <= next_sep(s, sep) <= s.len(),
        forall|i: int| 0 <= i < next_sep(s, sep) ==> s[i] != sep,
        next_sep(s, sep) < s.len() ==> s[next_sep(s, sep)] == sep,
    decreases s.len(),
{
    if s.len() == 0 || s[0] == sep {
    } else {
        let rest = s.drop_first();
        lemma_next_sep(rest, sep);
        assert forall|i: int| 0 <= i < next_sep(s, sep) implies s[i] != sep by {
            if i > 0 {
                assert(s[i] == rest[i - 1]);
            }
        }
    }
}

/// The pieces of `s` between the occurrences of `sep`. A text without `sep`
/// is one piece, and so is the empty text.
pub open spec fn split(s: Seq<char>, sep: char) -> Seq<Seq<char>>
    decreases s.len(),
{
    let k = next_sep(s, sep);
    if 0 <= k < s.len() {
        seq![s.subrange(0, k)] + split(s.subrange(k + 1, s.len() as int), sep)
    } else {
        seq![s]
    }
}

/// The texts of a list of strings.
pub open spec fn texts_of(v: Seq<String>) -> Seq<Seq<char>> {
    Seq::new(v.len(), |i: int| v[i]@)
}

/// Splits a text at every `sep`, as `str::split` does.
pub fn split_at_char(s: &str, sep: char) -> (pieces: Vec<String>)
    ensures
        texts_of(pieces@) == split(s@, sep),
{
    let chars = chars_of(s);
    let n = chars.len();
    let mut pieces: Vec<String> = Vec::new();
    let mut start: usize = 0;
    let mut i: usize = 0;
    proof {
        assert(s@.subrange(0, n as int) =~= s@);
        assert(texts_of(pieces@) + split(s@, sep) =~= split(s@, sep));
    }
    while i < n
        invariant
            start <= i <= n == chars@.len(),
            chars@ == s@,
            forall|j: int| start <= j < i ==> chars@[j] != sep,
            split(s@, sep) =~= texts_of(pieces@) + split(s@.subrange(start as int, n as int), sep),
        decreases n - i,
    {
        if chars[i] == sep {
            let ghost rest = s@.subrange(start as int, n as int);
            proof {
                lemma_next_sep(rest, sep);
                let k = next_sep(rest, sep);
                if k < i - start {
                    assert(rest[k] == chars@[start + k]);
                }
                if k > i - start {
                    assert(rest[i - start] == chars@[i as int]);
                }
                assert(k == i - start);
                assert(rest.subrange(0, k) =~= s@.subrange(start as int, i as int));
                assert(rest.subrange(k + 1, rest.len() as int) =~= s@.subrange(i + 1, n as int));
            }
            let ghost before = texts_of(pieces@);
            let piece = String::from_str(s.substring_char(start, i));
            pieces.push(piece);
            proof {
                assert(texts_of(pieces@) =~= before.push(s@.subrange(start as int, i as int)));
                assert(before + (seq![s@.subrange(start as int, i as int)] + split(
                    s@.subrange(i + 1, n as int),
                    sep,
                )) =~= before.push(s@.subrange(start as int, i as int)) + split(
                    s@.subrange(i + 1, n as int),
                    sep,
                ));
            }
            start = i + 1;
        }
        i += 1;
    }
    let ghost rest = s@.subrange(start as int, n as int);
    proof {
        lemma_next_sep(rest, sep);
        let k = next_sep(rest, sep);
        if k < rest.len() {
            assert(rest[k] == chars@[start + k]);
        }
    }
    let ghost before = texts_of(pieces@);
    pieces.push(String::from_str(s.substring_char(start, n)));
    assert(texts_of(pieces@) =~= before + seq![rest]);
    pieces
}

/// `s` without `prefix` before it, if it starts with `prefix`.
pub open spec fn without_prefix(s: Seq<char>, prefix: Seq<char>) -> Option<Seq<char>> {
    if prefix.len() <= s.len() && s.subrange(0, prefix.len() as int) == prefix {
        Some(s.subrange(prefix.len() as int, s.len() as int))
    } else {
        None
    }
}

/// `s` without `suffix` behind it, if it ends with `suffix`.
pub open spec fn without_suffix(s: Seq<char>, suffix: Seq<char>) -> Option<Seq<char>> {
    if suffix.len() <= s.len() && s.subrange(s.len() - suffix.len(), s.len() as int) == suffix {
        Some(s.subrange(0, s.len() - suffix.len()))
    } else {
        None
    }
}

/// Takes `prefix` off the front of `s`, as `str::strip_prefix` does.
pub fn strip_prefix<'a>(s: &'a str, prefix: &str) -> (r: Option<&'a str>)
    ensures
        match without_prefix(s@, prefix@) {
            Some(rest) => r matches Some(t) && t@ == rest,
            None => r is None,
        },
{
    let n = s.unicode_len();
    let k = prefix.unicode_len();
    if k > n {
        return None;
    }
    if str_eq(s.substring_char(0, k), prefix) {
        Some(s.substring_char(k, n))
    } else {
        None
    }
}

/// Takes `suffix` off the end of `s`, as `str::strip_suffix` does.
pub fn strip_suffix<'a>(s: &'a str, suffix: &str) -> (r: Option<&'a str>)
    ensures
        match without_suffix(s@, suffix@) {
            Some(rest) => r matches Some(t) && t@ == rest,
            None => r is None,
        },
{
    let n = s.unicode_len();
    let k = suffix.unicode_len();
    if k > n {
        return None;
    }
    if str_eq(s.substring_char(n - k, n), suffix) {
        Some(s.substring_char(0, n - k))
    } else {
        None
    }
}


/// The length of `s` without the run of `c` at its end.
pub open spec fn trimmed_len(s: Seq<char>, c: char) -> int
    decreases s.len(),
{
    if s.len() > 0 && s.last() == c {
        trimmed_len(s.drop_last(), c)
    } else {
        s.len() as int
    }
}

/// The place behind the last `c` in `s`, or the start of `s` if it holds no `c`.
pub open spec fn after_last(s: Seq<char>, c: char) -> int
    decreases s.len(),
{
    if s.len() == 0 || s.last() == c {
        s.len() as int
    } else {
        after_last(s.drop_last(), c)
    }
}

/// `trimmed_len` and `after_last` are places in `s`.
pub proof fn lemma_places(s: Seq<char>, c: char)
    ensures
        0 <= trimmed_len(s, c) <= s.len(),
        0 <= after_last(s, c) <= s.len(),
    decreases s.len(),
{
    if s.len() > 0 {
        lemma_places(s.drop_last(), c);
    }
}

/// The file name of a path, as `Path::file_name` gives it where `/` parts
/// the components: the last component, slashes at the end aside. A `.`
/// behind a slash is no component and is passed over. A path without
/// components has no file name, nor has one that is `.` or ends in `..`.
pub open spec fn base_name_of(path: Seq<char>) -> Option<Seq<char>>
    decreases path.len(),
{
    let end = trimmed_len(path, '/');
    let body = path.subrange(0, end);
    let start = after_last(body, '/');
    let name = body.subrange(start, end);
    if name == "."@ && start > 0 {
        proof {
            reveal_strlit(".");
            lemma_places(path, '/');
            lemma_places(body, '/');
            assert(body.len() == end);
            assert(name.len() == end - start);
            assert(name.len() == 1);
            assert(path.subrange(0, start).len() == start);
        }
        base_name_of(path.subrange(0, start))
    } else if name.len() == 0 || name == "."@ || name == ".."@ {
        None
    } else {
        Some(name)
    }
}

/// Where the run of `c` at the end of `s` starts and where the part
/// behind the last `c` before that starts, these are `trimmed_len` and
/// `after_last`.
proof fn lemma_name_bounds(s: Seq<char>, c: char, start: int, end: int)
    requires
        0 <= start <= end <= s.len(),
        forall|i: int| end <= i < s.len() ==> s[i] == c,
        end > 0 ==> s[end - 1] != c,
        forall|i: int| start <= i < end ==> s[i] != c,
        start > 0 ==> s[start - 1] == c,
    ensures
        trimmed_len(s, c) == end,
        after_last(s.subrange(0, end), c) == start,
    decreases s.len() - end, end - start,
{
    if end < s.len() {
        let shorter = s.drop_last();
        assert(s.last() == c);
        lemma_name_bounds(shorter, c, start, end);
        assert(shorter.subrange(0, end) =~= s.subrange(0, end));
    } else {
        let body = s.subrange(0, end);
        assert(body =~= s);
        if start < end {
            assert(s.last() != c);
            let shorter = s.drop_last();
            lemma_after_last_from(shorter, c, start);
        }
    }
}

/// If `s` holds no `c` from `start` on, and a `c` just before `start`,
/// the place behind its last `c` is `start`.
proof fn lemma_after_last_from(s: Seq<char>, c: char, start: int)
    requires
        0 <= start <= s.len(),
        forall|i: int| start <= i < s.len() ==> s[i] != c,
        start > 0 ==> s[start - 1] == c,
    ensures
        after_last(s, c) == start,
    decreases s.len() - start,
{
    if start < s.len() {
        lemma_after_last_from(s.drop_last(), c, start);
    }
}

/// The last component of the first `len` characters of a path: where it
/// starts and where it ends.
fn last_component(chars: &Vec<char>, len: usize) -> (r: (usize, usize))
    requires
        len <= chars@.len(),
    ensures
        r.0 <= r.1 <= len,
        trimmed_len(chars@.subrange(0, len as int), '/') == r.1,
        after_last(chars@.subrange(0, r.1 as int), '/') == r.0,
{
    let mut end: usize = len;
    while end > 0 && chars[end - 1] == '/'
        invariant
            end <= len <= chars@.len(),
            forall|i: int| end <= i < len ==> chars@[i] == '/',
        decreases end,
    {
        end -= 1;
    }
    let mut start: usize = end;
    while start > 0 && chars[start - 1] != '/'
        invariant
            start <= end <= len <= chars@.len(),
            forall|i: int| start <= i < end ==> chars@[i] != '/',
        decreases start,
    {
        start -= 1;
    }
    proof {
        let prefix = chars@.subrange(0, len as int);
        lemma_name_bounds(prefix, '/', start as int, end as int);
        assert(prefix.subrange(0, end as int) =~= chars@.subrange(0, end as int));
    }
    (start, end)
}

/// The file name of a path, as `Path::file_name` gives it where `/` parts
/// the components.
pub fn base_name(path: &str) -> (name: Option<&str>)
    ensures
        match base_name_of(path@) {
            Some(text) => name matches Some(n) && n@ == text,
            None => name is None,
        },
{
    let chars = chars_of(path);
    let mut len: usize = chars.len();
    proof {
        assert(path@.subrange(0, len as int) =~= path@);
    }
    loop
        invariant
            len <= chars@.len(),
            chars@ == path@,
            base_name_of(path@) == base_name_of(path@.subrange(0, len as int)),
        decreases len,
    {
        let (start, end) = last_component(&chars, len);
        let name = path.substring_char(start, end);
        proof {
            reveal_strlit(".");
            let prefix = path@.subrange(0, len as int);
            assert(prefix.subrange(0, end as int) =~= path@.subrange(0, end as int));
            assert(prefix.subrange(0, end as int).subrange(start as int, end as int) =~= path@.subrange(
                start as int,
                end as int,
            ));
            assert(prefix.subrange(0, start as int) =~= path@.subrange(0, start as int));
        }
        if start > 0 && str_eq(name, ".") {
            len = start;
        } else {
            return if start == end || str_eq(name, ".") || str_eq(name, "..") {
                None
            } else {
                Some(name)
            };
        }
    }
}

} // verus!
