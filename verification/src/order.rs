//! The order of strings: lexicographic by code point, the order of std's
//! `str` and `String` (which compare their UTF-8 bytes, and UTF-8 keeps the
//! order of code points).
use vstd::prelude::*;
use vstd::std_specs::iter::IteratorSpec;
use vstd::string::*;

verus! {

broadcast use vstd::string::group_string_axioms;

/// Three-way comparison of two strings: -1, 0 or 1.
pub open spec fn text_order(a: Seq<char>, b: Seq<char>) -> int
    decreases a.len(),
{
    if a.len() == 0 {
        if b.len() == 0 {
            0
        } else {
            -1
        }
    } else if b.len() == 0 {
        1
    } else if (a[0] as u32) < (b[0] as u32) {
        -1
    } else if (a[0] as u32) > (b[0] as u32) {
        1
    } else {
        text_order(a.drop_first(), b.drop_first())
    }
}

/// Three-way comparison of two integers: -1, 0 or 1.
pub open spec fn int_order(a: int, b: int) -> int {
    if a < b {
        -1
    } else if a > b {
        1
    } else {
        0
    }
}

/// The first comparison unless it is a tie, then the second.
pub open spec fn then_order(first: int, second: int) -> int {
    if first != 0 {
        first
    } else {
        second
    }
}

/// A character is its code point, and two characters with the same code
/// point are the same character.
pub proof fn lemma_char_code(c: char, d: char)
    ensures
        (c as u32 == d as u32) == (c == d),
        c as u32 == c as int,
{
}

/// Swapping the strings negates their comparison.
pub proof fn lemma_text_order_antisymmetric(a: Seq<char>, b: Seq<char>)
    ensures
        text_order(a, b) == -text_order(b, a),
        -1 <= text_order(a, b) <= 1,
    decreases a.len(),
{
    if a.len() > 0 && b.len() > 0 && a[0] as u32 == b[0] as u32 {
        lemma_text_order_antisymmetric(a.drop_first(), b.drop_first());
    }
}

/// Two strings compare equal exactly when they are the same string.
pub proof fn lemma_text_order_equal(a: Seq<char>, b: Seq<char>)
    ensures
        (text_order(a, b) == 0) == (a == b),
    decreases a.len(),
{
    if a.len() > 0 && b.len() > 0 {
        lemma_char_code(a[0], b[0]);
        if a[0] as u32 == b[0] as u32 {
            lemma_text_order_equal(a.drop_first(), b.drop_first());
            assert(a[0] == b[0]);
            if a.drop_first() == b.drop_first() {
                assert(a =~= seq![a[0]] + a.drop_first());
                assert(b =~= seq![b[0]] + b.drop_first());
            }
            if a == b {
                assert(a.drop_first() == b.drop_first());
            }
        } else {
            assert(a[0] != b[0]);
        }
    } else if a.len() == 0 && b.len() == 0 {
        assert(a =~= b);
    }
}

/// The order of strings is transitive.
pub proof fn lemma_text_order_transitive(a: Seq<char>, b: Seq<char>, c: Seq<char>)
    requires
        text_order(a, b) <= 0,
        text_order(b, c) <= 0,
    ensures
        text_order(a, c) <= 0,
        text_order(a, b) < 0 || text_order(b, c) < 0 ==> text_order(a, c) < 0,
    decreases a.len(),
{
    if a.len() > 0 && b.len() > 0 && c.len() > 0 && a[0] as u32 == b[0] as u32 && b[0] as u32
        == c[0] as u32 {
        lemma_text_order_transitive(a.drop_first(), b.drop_first(), c.drop_first());
    }
}

/// A string compares to another as its tail after a common prefix does.
pub proof fn lemma_text_order_skip(a: Seq<char>, b: Seq<char>, i: int)
    requires
        0 <= i <= a.len(),
        i <= b.len(),
        a.take(i) == b.take(i),
    ensures
        text_order(a, b) == text_order(a.skip(i), b.skip(i)),
    decreases i,
{
    if i > 0 {
        assert(a[0] == a.take(i)[0]);
        assert(b[0] == b.take(i)[0]);
        assert(a.drop_first().take(i - 1) =~= a.take(i).drop_first());
        assert(b.drop_first().take(i - 1) =~= b.take(i).drop_first());
        lemma_text_order_skip(a.drop_first(), b.drop_first(), i - 1);
        assert(a.drop_first().skip(i - 1) =~= a.skip(i));
        assert(b.drop_first().skip(i - 1) =~= b.skip(i));
    } else {
        assert(a.skip(0) =~= a);
        assert(b.skip(0) =~= b);
    }
}

/// The characters of `s`, in order.
pub fn chars_of(s: &str) -> (r: Vec<char>)
    ensures
        r@ == s@,
{
    let mut r: Vec<char> = Vec::new();
    for c in it: s.chars()
        invariant
            it.seq() == spec_iter(s).remaining(),
            r@ == it.seq().take(it.index()),
            r.len() == it.index(),
    {
        r.push(c);
    }
    r
}

/// Compares two strings as std orders them: -1 when `a` comes first, 1 when
/// `b` does, 0 when they are equal.
pub fn compare_text(a: &str, b: &str) -> (r: i8)
    ensures
        r == text_order(a@, b@),
{
    let x = chars_of(a);
    let y = chars_of(b);
    let mut i: usize = 0;
    proof {
        lemma_text_order_skip(x@, y@, 0);
    }
    while i < x.len() && i < y.len()
        invariant
            i <= x.len(),
            i <= y.len(),
            x@ == a@,
            y@ == b@,
            x@.take(i as int) == y@.take(i as int),
            text_order(a@, b@) == text_order(x@.skip(i as int), y@.skip(i as int)),
        decreases x.len() - i,
    {
        let cx = x[i];
        let cy = y[i];
        let ux = cx as u32;
        let uy = cy as u32;
        assert(x@.skip(i as int)[0] == cx);
        assert(y@.skip(i as int)[0] == cy);
        if ux < uy {
            return -1;
        } else if ux > uy {
            return 1;
        }
        proof {
            lemma_char_code(cx, cy);
            assert(cx == cy);
            assert(x@.take(i + 1) =~= x@.take(i as int).push(cx));
            assert(y@.take(i + 1) =~= y@.take(i as int).push(cy));
            assert(x@.skip(i as int).drop_first() =~= x@.skip(i + 1));
            assert(y@.skip(i as int).drop_first() =~= y@.skip(i + 1));
        }
        i = i + 1;
    }
    if i < y.len() {
        assert(x@.skip(i as int).len() == 0);
        -1
    } else if i < x.len() {
        assert(y@.skip(i as int).len() == 0);
        1
    } else {
        assert(x@.skip(i as int).len() == 0);
        0
    }
}

} // verus!
