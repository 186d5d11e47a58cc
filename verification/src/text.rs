use vstd::prelude::*;
use vstd::string::*;

verus! {

/// Appends `c` to `s`: std's `String::push`.
#[verifier::external_body]
pub(crate) fn push_char(s: &mut String, c: char)
    ensures
        final(s)@ == old(s)@.push(c),
{
    s.push(c)
}

/// What std's `str::to_lowercase` returns for a string with these characters.
pub uninterp spec fn lowercase(s: Seq<char>) -> Seq<char>;

/// std's `str::to_lowercase`: maps every character to its Unicode lower case
/// form. The contract names the result; the case mapping itself is Unicode's
/// table and is not written out here.
#[verifier::external_body]
pub(crate) fn to_lowercase(s: &str) -> (r: String)
    ensures
        r@ == lowercase(s@),
{
    s.to_lowercase()
}

/// Whether `c` has the Unicode `White_Space` property, the set std's
/// `char::is_whitespace` and `str::trim_end` go by.
pub open spec fn is_unicode_whitespace(c: char) -> bool {
    let u = c as u32;
    ||| 0x09 <= u <= 0x0d
    ||| u == 0x20
    ||| u == 0x85
    ||| u == 0xa0
    ||| u == 0x1680
    ||| 0x2000 <= u <= 0x200a
    ||| u == 0x2028
    ||| u == 0x2029
    ||| u == 0x202f
    ||| u == 0x205f
    ||| u == 0x3000
}

/// `s` without its trailing whitespace.
pub open spec fn trimmed_end(s: Seq<char>) -> Seq<char>
    decreases s.len(),
{
    if s.len() > 0 && is_unicode_whitespace(s.last()) {
        trimmed_end(s.drop_last())
    } else {
        s
    }
}

fn is_whitespace_char(c: char) -> (r: bool)
    ensures
        r == is_unicode_whitespace(c),
{
    let u = c as u32;
    (0x09 <= u && u <= 0x0d) || u == 0x20 || u == 0x85 || u == 0xa0 || u == 0x1680 || (0x2000 <= u && u
        <= 0x200a) || u == 0x2028 || u == 0x2029 || u == 0x202f || u == 0x205f || u == 0x3000
}

proof fn lemma_trimmed_end_prefix(s: Seq<char>, n: int)
    requires
        0 <= n <= s.len(),
        forall|i: int| n <= i < s.len() ==> is_unicode_whitespace(#[trigger] s[i]),
    ensures
        trimmed_end(s) == trimmed_end(s.subrange(0, n)),
    decreases s.len() - n,
{
    if n < s.len() {
        assert(s.drop_last() =~= s.subrange(0, s.len() - 1));
        let d = s.drop_last();
        assert forall|i: int| n <= i < d.len() implies is_unicode_whitespace(#[trigger] d[i]) by {
            assert(d[i] == s[i]);
        }
        lemma_trimmed_end_prefix(d, n);
        assert(d.subrange(0, n) =~= s.subrange(0, n));
    } else {
        assert(s.subrange(0, n) =~= s);
    }
}

/// The string without the longest suffix of whitespace characters, as
/// std's `str::trim_end` cuts it.
pub(crate) fn trim_end(s: &str) -> (r: String)
    ensures
        r@ == trimmed_end(s@),
{
    let mut n = s.unicode_len();
    while n > 0 && is_whitespace_char(s.get_char(n - 1))
        invariant
            n <= s@.len(),
            forall|i: int| n <= i < s@.len() ==> is_unicode_whitespace(#[trigger] s@[i]),
        decreases n,
    {
        n = n - 1;
    }
    proof {
        lemma_trimmed_end_prefix(s@, n as int);
        let p = s@.subrange(0, n as int);
        if n > 0 {
            assert(p.last() == s@[n - 1]);
        }
    }
    s.substring_char(0, n).to_string()
}

/// The lower case hexadecimal digit for `d`.
pub open spec fn hex_digit(d: int) -> char {
    if d == 0 {
        '0'
    } else if d == 1 {
        '1'
    } else if d == 2 {
        '2'
    } else if d == 3 {
        '3'
    } else if d == 4 {
        '4'
    } else if d == 5 {
        '5'
    } else if d == 6 {
        '6'
    } else if d == 7 {
        '7'
    } else if d == 8 {
        '8'
    } else if d == 9 {
        '9'
    } else if d == 10 {
        'a'
    } else if d == 11 {
        'b'
    } else if d == 12 {
        'c'
    } else if d == 13 {
        'd'
    } else if d == 14 {
        'e'
    } else {
        'f'
    }
}

/// `n` written in lower case hexadecimal, without leading zeros.
pub open spec fn hex_digits(n: nat) -> Seq<char>
    decreases n,
{
    if n < 16 {
        seq![hex_digit(n as int)]
    } else {
        hex_digits(n / 16).push(hex_digit((n % 16) as int))
    }
}

/// `n` written in decimal, without leading zeros.
pub open spec fn decimal_digits(n: nat) -> Seq<char>
    decreases n,
{
    if n < 10 {
        seq![hex_digit(n as int)]
    } else {
        decimal_digits(n / 10).push(hex_digit((n % 10) as int))
    }
}

/// `n` written in decimal, with a minus sign when negative.
pub open spec fn signed_decimal(n: int) -> Seq<char> {
    if n < 0 {
        seq!['-'] + decimal_digits((-n) as nat)
    } else {
        decimal_digits(n as nat)
    }
}

fn digit_char(d: u64) -> (c: char)
    requires
        d < 16,
    ensures
        c == hex_digit(d as int),
{
    match d {
        0 => '0',
        1 => '1',
        2 => '2',
        3 => '3',
        4 => '4',
        5 => '5',
        6 => '6',
        7 => '7',
        8 => '8',
        9 => '9',
        10 => 'a',
        11 => 'b',
        12 => 'c',
        13 => 'd',
        14 => 'e',
        _ => 'f',
    }
}

/// Appends `n` in lower case hexadecimal to `s`.
pub fn push_hex(s: &mut String, n: u64)
    ensures
        final(s)@ == old(s)@ + hex_digits(n as nat),
    decreases n,
{
    if n >= 16 {
        push_hex(s, n / 16);
    }
    push_char(s, digit_char(n % 16));
}

/// Appends `n` in decimal to `s`.
pub fn push_decimal(s: &mut String, n: u64)
    ensures
        final(s)@ == old(s)@ + decimal_digits(n as nat),
    decreases n,
{
    if n >= 10 {
        push_decimal(s, n / 10);
    }
    push_char(s, digit_char(n % 10));
}

/// Appends `n` in decimal to `s`, with a minus sign when negative.
pub fn push_signed_decimal(s: &mut String, n: i64)
    ensures
        final(s)@ == old(s)@ + signed_decimal(n as int),
{
    if n < 0 {
        push_char(s, '-');
        let magnitude: u64 = ((-(n + 1)) as u64) + 1;
        push_decimal(s, magnitude);
    } else {
        push_decimal(s, n as u64);
    }
}

/// `n` in decimal.
pub fn decimal_string(n: u64) -> (r: String)
    ensures
        r@ == decimal_digits(n as nat),
{
    let mut s = String::new();
    push_decimal(&mut s, n);
    s
}

/// `n` in decimal, with a minus sign when negative.
pub fn signed_decimal_string(n: i64) -> (r: String)
    ensures
        r@ == signed_decimal(n as int),
{
    let mut s = String::new();
    push_signed_decimal(&mut s, n);
    s
}

} // verus!

verus! {

/// The non-empty strings of `ts`, in order, joined by single spaces.
pub open spec fn joined_nonempty(ts: Seq<Seq<char>>) -> Seq<char>
    decreases ts.len(),
{
    if ts.len() == 0 {
        Seq::empty()
    } else {
        let prev = joined_nonempty(ts.drop_last());
        let t = ts.last();
        if t.len() == 0 {
            prev
        } else if prev.len() == 0 {
            t
        } else {
            prev + seq![' '] + t
        }
    }
}

/// The views of a sequence of strings.
pub open spec fn views(ts: Seq<String>) -> Seq<Seq<char>> {
    ts.map_values(|t: String| t@)
}

/// Joins the non-empty strings of `tokens` with single spaces.
pub fn join_nonempty(tokens: &Vec<String>) -> (r: String)
    ensures
        r@ == joined_nonempty(views(tokens@)),
{
    let mut r = String::new();
    let mut i: usize = 0;
    while i < tokens.len()
        invariant
            0 <= i <= tokens.len(),
            r@ == joined_nonempty(views(tokens@).take(i as int)),
        decreases tokens.len() - i,
    {
        let t = tokens[i].as_str();
        proof {
            assert(views(tokens@).take(i + 1).drop_last() =~= views(tokens@).take(i as int));
            assert(views(tokens@).take(i + 1).last() == tokens@[i as int]@);
        }
        if t.unicode_len() != 0 {
            if r.as_str().unicode_len() != 0 {
                push_char(&mut r, ' ');
            }
            r.append(t);
        }
        i = i + 1;
    }
    proof {
        assert(views(tokens@).take(tokens.len() as int) =~= views(tokens@));
    }
    r
}

/// Whether the two strings hold the same characters.
pub(crate) fn str_eq(a: &str, b: &str) -> (r: bool)
    ensures
        r == (a@ == b@),
{
    let n = a.unicode_len();
    if n != b.unicode_len() {
        return false;
    }
    let mut i: usize = 0;
    while i < n
        invariant
            n == a@.len() && n == b@.len(),
            i <= n,
            forall|j: int| 0 <= j < i ==> a@[j] == b@[j],
        decreases n - i,
    {
        if a.get_char(i) != b.get_char(i) {
            return false;
        }
        i = i + 1;
    }
    proof {
        assert(a@ =~= b@);
    }
    true
}

} // verus!
