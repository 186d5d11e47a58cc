//! The node list: which nodes the filter lets through and the order they
//! are listed in.
use vstd::prelude::*;
use std::collections::{HashMap, HashSet};
use vstd::std_specs::hash::spec_hash_map_iter;
use vstd::std_specs::iter::IteratorSpec;
use crate::node::Node;
use crate::order::{
    chars_of, compare_text, int_order, lemma_text_order_antisymmetric, lemma_text_order_transitive,
    text_order, then_order,
};
use crate::text::is_unicode_whitespace;
use crate::types::NodesSortBy;

verus! {

broadcast use vstd::std_specs::hash::group_hash_axioms;

/// A node heard within this many seconds is online.
pub const ONLINE_NODE_THRESHOLD_SECS: i64 = 7200;

/// The words of `s`: its maximal runs of non-whitespace characters, in order.
pub open spec fn words(s: Seq<char>) -> Seq<Seq<char>>
    decreases s.len(),
{
    if s.len() == 0 {
        Seq::empty()
    } else {
        let w = words(s.drop_last());
        let c = s.last();
        if is_unicode_whitespace(c) {
            w
        } else if s.len() >= 2 && !is_unicode_whitespace(s[s.len() - 2]) {
            w.update(w.len() - 1, w.last().push(c))
        } else {
            w.push(seq![c])
        }
    }
}

/// Whether a character is whitespace: std's `char::is_whitespace`.
fn is_whitespace(c: char) -> (r: bool)
    ensures
        r == is_unicode_whitespace(c),
{
    let u = c as u32;
    (0x09 <= u && u <= 0x0d) || u == 0x20 || u == 0x85 || u == 0xa0 || u == 0x1680 || (0x2000 <= u
        && u <= 0x200a) || u == 0x2028 || u == 0x2029 || u == 0x202f || u == 0x205f || u == 0x3000
}

/// Splits `s` into its words, as std's `str::split_whitespace` does.
pub fn split_words(s: &str) -> (r: Vec<String>)
    ensures
        r@.map_values(|w: String| w@) == words(s@),
{
    let cs = chars_of(s);
    let mut out: Vec<String> = Vec::new();
    let mut cur = String::new();
    let mut i: usize = 0;
    while i < cs.len()
        invariant
            cs@ == s@,
            i <= cs.len(),
            cur@.len() > 0 <==> (i > 0 && !is_unicode_whitespace(cs@[i - 1])),
            cur@.len() > 0 ==> words(cs@.take(i as int)) == out@.map_values(|w: String| w@).push(
                cur@,
            ),
            cur@.len() == 0 ==> words(cs@.take(i as int)) == out@.map_values(|w: String| w@),
        decreases cs.len() - i,
    {
        let c = cs[i];
        let ghost pre = cs@.take(i as int);
        let ghost next = cs@.take(i + 1);
        assert(next.drop_last() =~= pre);
        assert(next.last() == c);
        if is_whitespace(c) {
            if cur.as_str().unicode_len() > 0 {
                let w = cur;
                out.push(w);
                cur = String::new();
                proof {
                    assert(out@.map_values(|w: String| w@) =~= old_views_push(out@));
                }
            }
        } else {
            let ghost old_cur = cur@;
            crate::text::push_char(&mut cur, c);
            proof {
                if i > 0 {
                    assert(next[next.len() - 2] == cs@[i - 1]);
                }
                let ov = out@.map_values(|w: String| w@);
                if old_cur.len() > 0 {
                    assert(ov.push(old_cur).update(ov.len() as int, old_cur.push(c)) =~= ov.push(cur@));
                } else {
                    assert(old_cur =~= Seq::<char>::empty());
                    assert(cur@ =~= seq![c]);
                }
            }
        }
        i = i + 1;
    }
    if cur.as_str().unicode_len() > 0 {
        out.push(cur);
    }
    proof {
        assert(cs@.take(cs.len() as int) =~= s@);
    }
    out
}

spec fn old_views_push(v: Seq<String>) -> Seq<Seq<char>> {
    v.map_values(|w: String| w@)
}

/// Whether `needle` occurs in `hay`.
pub open spec fn occurs_in(needle: Seq<char>, hay: Seq<char>) -> bool {
    exists|i: int|
        0 <= i && i + needle.len() <= hay.len() && #[trigger] hay.subrange(i, i + needle.len())
            == needle
}

/// Whether `needle` occurs in `hay`: std's `str::contains` with a string pattern.
pub fn contains_text(hay: &str, needle: &str) -> (r: bool)
    ensures
        r == occurs_in(needle@, hay@),
{
    let h = chars_of(hay);
    let n = chars_of(needle);
    if n.len() > h.len() {
        return false;
    }
    let mut i: usize = 0;
    while i <= h.len() - n.len()
        invariant
            h@ == hay@,
            n@ == needle@,
            n.len() <= h.len(),
            i <= h.len() - n.len() + 1,
            forall|j: int| 0 <= j < i ==> #[trigger] h@.subrange(j, j + n.len()) != n@,
        decreases h.len() - i,
    {
        let mut j: usize = 0;
        let mut same = true;
        while j < n.len()
            invariant
                h@ == hay@,
                n@ == needle@,
                i + n.len() <= h.len(),
                j <= n.len(),
                same == (forall|m: int| 0 <= m < j ==> h@[i + m] == n@[m]),
            decreases n.len() - j,
        {
            if h[i + j] != n[j] {
                same = false;
            }
            j = j + 1;
        }
        if same {
            assert(h@.subrange(i as int, i + n.len()) =~= n@);
            return true;
        }
        assert(h@.subrange(i as int, i + n.len()) != n@) by {
            let m = choose|m: int| 0 <= m < n.len() && h@[i + m] != n@[m];
            assert(h@.subrange(i as int, i + n.len())[m] == h@[i + m]);
        }
        i = i + 1;
    }
    proof {
        if occurs_in(needle@, hay@) {
            let k = choose|k: int|
                0 <= k && k + needle@.len() <= hay@.len() && #[trigger] hay@.subrange(
                    k,
                    k + needle@.len(),
                ) == needle@;
            assert(h@.subrange(k, k + n.len()) != n@);
        }
    }
    false
}

/// Whether the node was heard less than the online threshold before `now`.
pub open spec fn is_online(node: Node, now: i64) -> bool {
    match node.last_heard {
        Some(t) => now - t < ONLINE_NODE_THRESHOLD_SECS,
        None => false,
    }
}

pub fn node_is_online(node: &Node, now: i64) -> (r: bool)
    ensures
        r == is_online(*node, now),
{
    match node.last_heard {
        Some(t) => (now as i128) - (t as i128) < (ONLINE_NODE_THRESHOLD_SECS as i128),
        None => false,
    }
}

/// The pseudo word the node's reachability adds to the filter.
pub open spec fn online_word(node: Node, now: i64) -> Seq<char> {
    if is_online(node, now) {
        "$online"@
    } else {
        "$offline"@
    }
}

/// The pseudo word a telemetry report adds to the filter.
pub open spec fn telemetry_word(has_telemetry: bool) -> Seq<char> {
    if has_telemetry {
        "$telemetry"@
    } else {
        ""@
    }
}

/// A decimal digit.
pub open spec fn is_digit(c: char) -> bool {
    '0' <= c && c <= '9'
}

/// The number the decimal digits `d` write.
pub open spec fn digits_value(d: Seq<char>) -> nat
    decreases d.len(),
{
    if d.len() == 0 {
        0
    } else {
        digits_value(d.drop_last()) * 10 + (d.last() as nat - '0' as nat) as nat
    }
}

/// The digits of a `$hopsX` filter word, which asks for the nodes exactly
/// X hops away.
pub open spec fn hops_word_digits(t: Seq<char>) -> Option<Seq<char>> {
    if t.len() > 5 && t.subrange(0, 5) == "$hops"@ && forall|i: int| 5 <= i < t.len() ==> is_digit(#[trigger] t[i]) {
        Some(t.subrange(5, t.len() as int))
    } else {
        None
    }
}

/// Whether one filter word lets the node through: a `$hopsX` word when the
/// node is exactly X hops away; another word when it occurs in the node's
/// search text or in one of its pseudo words.
pub open spec fn word_passes(node: Node, t: Seq<char>, now: i64, has_telemetry: bool) -> bool {
    match hops_word_digits(t) {
        Some(d) => node.hops matches Some(h) && h as nat == digits_value(d),
        None => occurs_in(t, node.fulltext@) || occurs_in(t, online_word(node, now)) || occurs_in(
            t,
            telemetry_word(has_telemetry),
        ),
    }
}

/// Whether the filter lets the node through: with no words, every node;
/// otherwise every word must let it through.
pub open spec fn passes_filter(node: Node, tokens: Seq<Seq<char>>, now: i64, has_telemetry: bool) -> bool {
    tokens.len() == 0 || forall|i: int|
        0 <= i < tokens.len() ==> word_passes(node, #[trigger] tokens[i], now, has_telemetry)
}

/// Reads a `$hopsX` word: `None` for another word, `Some(None)` when X is
/// beyond any hop count, `Some(Some(X))` otherwise.
fn hops_word_value(t: &str) -> (r: Option<Option<u32>>)
    ensures
        r is None <==> hops_word_digits(t@) is None,
        r matches Some(Some(v)) ==> digits_value(hops_word_digits(t@)->0) == v as nat,
        r matches Some(None) ==> digits_value(hops_word_digits(t@)->0) > u32::MAX,
{
    let n = t.unicode_len();
    proof {
        reveal_strlit("$hops");
    }
    if n <= 5 {
        return None;
    }
    if !(t.get_char(0) == '$' && t.get_char(1) == 'h' && t.get_char(2) == 'o' && t.get_char(3) == 'p' && t.get_char(4)
        == 's') {
        proof {
            if t@.subrange(0, 5) == "$hops"@ {
                assert(t@[0] == t@.subrange(0, 5)[0]);
                assert(t@[1] == t@.subrange(0, 5)[1]);
                assert(t@[2] == t@.subrange(0, 5)[2]);
                assert(t@[3] == t@.subrange(0, 5)[3]);
                assert(t@[4] == t@.subrange(0, 5)[4]);
            }
        }
        return None;
    }
    proof {
        assert(t@.subrange(0, 5) =~= "$hops"@);
    }
    let ghost d = t@.subrange(5, n as int);
    let mut value: u64 = 0;
    let mut over = false;
    let mut i: usize = 5;
    while i < n
        invariant
            5 <= i <= n,
            n == t@.len(),
            d == t@.subrange(5, n as int),
            forall|j: int| 5 <= j < i ==> is_digit(#[trigger] t@[j]),
            !over ==> value as nat == digits_value(t@.subrange(5, i as int)) && value <= u32::MAX,
            over ==> digits_value(t@.subrange(5, i as int)) > u32::MAX,
        decreases n - i,
    {
        let c = t.get_char(i);
        if !('0' <= c && c <= '9') {
            proof {
                assert(d[i - 5] == c);
            }
            return None;
        }
        proof {
            let a = t@.subrange(5, i as int);
            let b = t@.subrange(5, i + 1);
            assert(b.drop_last() =~= a);
            assert(b.last() == c);
        }
        if !over {
            let digit = (c as u32 - '0' as u32) as u64;
            value = value * 10 + digit;
            if value > 0xffff_ffff {
                over = true;
            }
        }
        i = i + 1;
    }
    proof {
        assert(t@.subrange(5, n as int) =~= d);
        assert forall|j: int| 5 <= j < t@.len() implies is_digit(#[trigger] t@[j]) by {}
    }
    if over {
        Some(None)
    } else {
        Some(Some(value as u32))
    }
}

pub fn node_passes_filter(node: &Node, tokens: &Vec<String>, now: i64, has_telemetry: bool) -> (r: bool)
    ensures
        r == passes_filter(*node, tokens@.map_values(|w: String| w@), now, has_telemetry),
{
    let ghost ts = tokens@.map_values(|w: String| w@);
    let online = node_is_online(node, now);
    let mut i: usize = 0;
    while i < tokens.len()
        invariant
            ts == tokens@.map_values(|w: String| w@),
            online == is_online(*node, now),
            i <= tokens.len(),
            forall|j: int| 0 <= j < i ==> word_passes(*node, #[trigger] ts[j], now, has_telemetry),
        decreases tokens.len() - i,
    {
        let t = tokens[i].as_str();
        assert(ts[i as int] == t@);
        let pass = match hops_word_value(t) {
            Some(Some(x)) => match node.hops {
                Some(h) => h == x,
                None => false,
            },
            Some(None) => false,
            None => {
                let in_text = contains_text(node.fulltext.as_str(), t);
                let in_online = if online {
                    contains_text("$online", t)
                } else {
                    contains_text("$offline", t)
                };
                let in_telemetry = if has_telemetry {
                    contains_text("$telemetry", t)
                } else {
                    contains_text("", t)
                };
                in_text || in_online || in_telemetry
            },
        };
        if !pass {
            assert(!word_passes(*node, ts[i as int], now, has_telemetry));
            return false;
        }
        i = i + 1;
    }
    true
}

/// The key the floating point signal to noise ratio with these bits is
/// ordered by: the order of std's `f32::total_cmp`.
pub open spec fn snr_rank(bits: u32) -> int {
    if bits < 0x8000_0000 {
        bits as int
    } else {
        0x7fff_ffff - bits
    }
}

fn snr_rank_of(bits: u32) -> (r: i64)
    ensures
        r == snr_rank(bits),
{
    if bits < 0x8000_0000 {
        bits as i64
    } else {
        0x7fff_ffffi64 - bits as i64
    }
}

/// Hops to the node, unknown counting as the most.
pub open spec fn hops_rank(node: Node) -> int {
    match node.hops {
        Some(h) => h as int,
        None => u32::MAX as int,
    }
}

/// The time the node was last heard, never counting as the epoch.
pub open spec fn heard_rank(node: Node) -> int {
    match node.last_heard {
        Some(t) => t as int,
        None => 0,
    }
}

/// By hops, fewest first, then by signal to noise ratio, best first.
pub open spec fn hops_order(a: Node, b: Node) -> int {
    then_order(int_order(hops_rank(a), hops_rank(b)), -int_order(snr_rank(a.snr_bits), snr_rank(b.snr_bits)))
}

/// Three-way comparison of two nodes in the node list: the node
/// `my_node_key` first, the others by the chosen ordering.
pub open spec fn node_order(a: Node, b: Node, sort_by: NodesSortBy, my_node_key: Option<u32>) -> int {
    let am = my_node_key == Some(a.key);
    let bm = my_node_key == Some(b.key);
    if am && bm {
        0
    } else if !am && bm {
        1
    } else if am && !bm {
        -1
    } else {
        match sort_by {
            NodesSortBy::Hops => hops_order(a, b),
            NodesSortBy::LastHeard => -int_order(heard_rank(a), heard_rank(b)),
            NodesSortBy::ShortName => text_order(a.spec_short_name(), b.spec_short_name()),
            NodesSortBy::LongName => text_order(a.spec_long_name(), b.spec_long_name()),
            NodesSortBy::HwModel => then_order(
                text_order(a.spec_hw_model(), b.spec_hw_model()),
                text_order(a.spec_short_name(), b.spec_short_name()),
            ),
            NodesSortBy::Role => then_order(text_order(a.spec_role(), b.spec_role()), hops_order(a, b)),
        }
    }
}

fn int_compare(a: i64, b: i64) -> (r: i8)
    ensures
        r == int_order(a as int, b as int),
{
    if a < b {
        -1
    } else if a > b {
        1
    } else {
        0
    }
}

fn hops_compare(a: &Node, b: &Node) -> (r: i8)
    ensures
        r == hops_order(*a, *b),
{
    let ha: i64 = match a.hops {
        Some(h) => h as i64,
        None => u32::MAX as i64,
    };
    let hb: i64 = match b.hops {
        Some(h) => h as i64,
        None => u32::MAX as i64,
    };
    let first = int_compare(ha, hb);
    if first != 0 {
        first
    } else {
        -int_compare(snr_rank_of(a.snr_bits), snr_rank_of(b.snr_bits))
    }
}

/// Compares two nodes for the node list: -1 when `a` is listed first, 1
/// when `b` is, 0 when the ordering does not tell them apart.
pub fn node_compare(a: &Node, b: &Node, sort_by: NodesSortBy, my_node_key: Option<u32>) -> (r: i8)
    ensures
        r == node_order(*a, *b, sort_by, my_node_key),
{
    let am = match my_node_key {
        Some(k) => k == a.key,
        None => false,
    };
    let bm = match my_node_key {
        Some(k) => k == b.key,
        None => false,
    };
    if am && bm {
        return 0;
    } else if !am && bm {
        return 1;
    } else if am && !bm {
        return -1;
    }
    match sort_by {
        NodesSortBy::Hops => hops_compare(a, b),
        NodesSortBy::LastHeard => {
            let ta: i64 = match a.last_heard {
                Some(t) => t,
                None => 0,
            };
            let tb: i64 = match b.last_heard {
                Some(t) => t,
                None => 0,
            };
            -int_compare(ta, tb)
        },
        NodesSortBy::ShortName => compare_text(a.short_name().as_str(), b.short_name().as_str()),
        NodesSortBy::LongName => compare_text(a.long_name().as_str(), b.long_name().as_str()),
        NodesSortBy::HwModel => {
            let first = compare_text(a.hw_model().as_str(), b.hw_model().as_str());
            if first != 0 {
                first
            } else {
                compare_text(a.short_name().as_str(), b.short_name().as_str())
            }
        },
        NodesSortBy::Role => {
            let first = compare_text(a.role().as_str(), b.role().as_str());
            if first != 0 {
                first
            } else {
                hops_compare(a, b)
            }
        },
    }
}

/// Swapping two nodes negates their comparison.
pub proof fn lemma_node_order_antisymmetric(a: Node, b: Node, sort_by: NodesSortBy, my_node_key: Option<u32>)
    ensures
        node_order(a, b, sort_by, my_node_key) == -node_order(b, a, sort_by, my_node_key),
{
    lemma_text_order_antisymmetric(a.spec_short_name(), b.spec_short_name());
    lemma_text_order_antisymmetric(a.spec_long_name(), b.spec_long_name());
    lemma_text_order_antisymmetric(a.spec_hw_model(), b.spec_hw_model());
    lemma_text_order_antisymmetric(a.spec_role(), b.spec_role());
}

proof fn lemma_text_then(
    a1: Seq<char>,
    b1: Seq<char>,
    c1: Seq<char>,
    x: int,
    y: int,
    z: int,
)
    requires
        then_order(text_order(a1, b1), x) <= 0,
        then_order(text_order(b1, c1), y) <= 0,
        text_order(a1, b1) == 0 && text_order(b1, c1) == 0 ==> z <= 0,
    ensures
        then_order(text_order(a1, c1), z) <= 0,
{
    lemma_text_order_antisymmetric(a1, b1);
    lemma_text_order_antisymmetric(b1, c1);
    lemma_text_order_transitive(a1, b1, c1);
}

proof fn lemma_hops_transitive(a: Node, b: Node, c: Node)
    requires
        hops_order(a, b) <= 0,
        hops_order(b, c) <= 0,
    ensures
        hops_order(a, c) <= 0,
        hops_order(a, b) == 0 && hops_order(b, c) == 0 ==> hops_order(a, c) == 0,
        hops_order(a, c) == 0 ==> hops_order(a, b) == 0 && hops_order(b, c) == 0,
{
}

/// The node ordering is transitive.
pub proof fn lemma_node_order_transitive(
    a: Node,
    b: Node,
    c: Node,
    sort_by: NodesSortBy,
    my_node_key: Option<u32>,
)
    requires
        node_order(a, b, sort_by, my_node_key) <= 0,
        node_order(b, c, sort_by, my_node_key) <= 0,
    ensures
        node_order(a, c, sort_by, my_node_key) <= 0,
{
    let am = my_node_key == Some(a.key);
    let bm = my_node_key == Some(b.key);
    let cm = my_node_key == Some(c.key);
    if !am && !bm && !cm {
        match sort_by {
            NodesSortBy::Hops => {
                lemma_hops_transitive(a, b, c);
            },
            NodesSortBy::LastHeard => {},
            NodesSortBy::ShortName => {
                lemma_text_order_transitive(a.spec_short_name(), b.spec_short_name(), c.spec_short_name());
            },
            NodesSortBy::LongName => {
                lemma_text_order_transitive(a.spec_long_name(), b.spec_long_name(), c.spec_long_name());
            },
            NodesSortBy::HwModel => {
                lemma_text_order_antisymmetric(a.spec_short_name(), b.spec_short_name());
                lemma_text_order_antisymmetric(b.spec_short_name(), c.spec_short_name());
                if text_order(a.spec_hw_model(), b.spec_hw_model()) == 0 && text_order(
                    b.spec_hw_model(),
                    c.spec_hw_model(),
                ) == 0 {
                    lemma_text_order_transitive(
                        a.spec_short_name(),
                        b.spec_short_name(),
                        c.spec_short_name(),
                    );
                }
                lemma_text_then(
                    a.spec_hw_model(),
                    b.spec_hw_model(),
                    c.spec_hw_model(),
                    text_order(a.spec_short_name(), b.spec_short_name()),
                    text_order(b.spec_short_name(), c.spec_short_name()),
                    text_order(a.spec_short_name(), c.spec_short_name()),
                );
            },
            NodesSortBy::Role => {
                if text_order(a.spec_role(), b.spec_role()) == 0 && text_order(b.spec_role(), c.spec_role())
                    == 0 {
                    lemma_hops_transitive(a, b, c);
                }
                lemma_text_then(
                    a.spec_role(),
                    b.spec_role(),
                    c.spec_role(),
                    hops_order(a, b),
                    hops_order(b, c),
                    hops_order(a, c),
                );
            },
        }
    }
}

/// Whether `keys` lists the nodes in order.
pub open spec fn is_listed_in_order(
    nodes: Map<u32, Node>,
    keys: Seq<u32>,
    sort_by: NodesSortBy,
    my_node_key: Option<u32>,
) -> bool {
    forall|i: int, j: int|
        0 <= i < j < keys.len() ==> node_order(
            nodes[#[trigger] keys[i]],
            nodes[#[trigger] keys[j]],
            sort_by,
            my_node_key,
        ) <= 0
}

/// Each node is stored under its own key.
pub open spec fn keyed_by_own_key(nodes: Map<u32, Node>) -> bool {
    forall|k: u32| #[trigger] nodes.contains_key(k) ==> nodes[k].key == k
}

/// Inserts `k` into the ordered list `keys` after the keys of the nodes that
/// do not come after it.
fn insert_in_order(
    nodes: &HashMap<u32, Node>,
    keys: &mut Vec<u32>,
    k: u32,
    sort_by: NodesSortBy,
    my_node_key: Option<u32>,
)
    requires
        nodes@.contains_key(k),
        forall|i: int| 0 <= i < old(keys).len() ==> nodes@.contains_key(#[trigger] old(keys)@[i]),
        is_listed_in_order(nodes@, old(keys)@, sort_by, my_node_key),
    ensures
        exists|p: int| 0 <= p <= old(keys).len() && final(keys)@ == old(keys)@.insert(p, k),
        forall|i: int| 0 <= i < final(keys).len() ==> nodes@.contains_key(#[trigger] final(keys)@[i]),
        is_listed_in_order(nodes@, final(keys)@, sort_by, my_node_key),
{
    let node = nodes.get(&k).unwrap();
    let mut p: usize = 0;
    while p < keys.len()
        invariant_except_break
            p <= keys.len(),
            *node == nodes@[k],
            keys@ == old(keys)@,
            forall|i: int| 0 <= i < keys.len() ==> nodes@.contains_key(#[trigger] keys@[i]),
            forall|i: int|
                0 <= i < p ==> node_order(nodes@[#[trigger] keys@[i]], nodes@[k], sort_by, my_node_key)
                    <= 0,
        ensures
            p <= keys.len(),
            *node == nodes@[k],
            keys@ == old(keys)@,
            forall|i: int| 0 <= i < keys.len() ==> nodes@.contains_key(#[trigger] keys@[i]),
            forall|i: int|
                0 <= i < p ==> node_order(nodes@[#[trigger] keys@[i]], nodes@[k], sort_by, my_node_key)
                    <= 0,
            p < keys.len() ==> node_order(nodes@[k], nodes@[keys@[p as int]], sort_by, my_node_key) < 0,
        decreases keys.len() - p,
    {
        let other = nodes.get(&keys[p]).unwrap();
        if node_compare(node, other, sort_by, my_node_key) < 0 {
            break;
        }
        proof {
            lemma_node_order_antisymmetric(nodes@[k], nodes@[keys@[p as int]], sort_by, my_node_key);
        }
        p = p + 1;
    }
    let ghost olds = keys@;
    keys.insert(p, k);
    proof {
        assert forall|a: int, b: int| 0 <= a < b < keys.len() implies node_order(
            nodes@[#[trigger] keys@[a]],
            nodes@[#[trigger] keys@[b]],
            sort_by,
            my_node_key,
        ) <= 0 by {
            if a < p && b < p {
                assert(node_order(nodes@[olds[a]], nodes@[olds[b]], sort_by, my_node_key) <= 0);
            } else if a < p && b == p {
            } else if a < p {
                assert(node_order(nodes@[olds[a]], nodes@[olds[b - 1]], sort_by, my_node_key) <= 0);
            } else if a == p {
                assert(node_order(nodes@[k], nodes@[olds[p as int]], sort_by, my_node_key) < 0);
                if b - 1 > p {
                    assert(node_order(nodes@[olds[p as int]], nodes@[olds[b - 1]], sort_by, my_node_key)
                        <= 0);
                    lemma_node_order_transitive(
                        nodes@[k],
                        nodes@[olds[p as int]],
                        nodes@[olds[b - 1]],
                        sort_by,
                        my_node_key,
                    );
                }
            } else {
                assert(node_order(nodes@[olds[a - 1]], nodes@[olds[b - 1]], sort_by, my_node_key) <= 0);
            }
        }
    }
}

/// The keys of the nodes that are online at `now`.
pub open spec fn online_keys(nodes: Map<u32, Node>, now: i64) -> Set<u32> {
    nodes.dom().filter(|k: u32| is_online(nodes[k], now))
}

/// Counts the nodes that are online at `now`.
pub fn count_online(nodes: &HashMap<u32, Node>, now: i64) -> (r: u16)
    requires
        online_keys(nodes@, now).len() <= u16::MAX,
    ensures
        r as nat == online_keys(nodes@, now).len(),
{
    let ghost pairs = spec_hash_map_iter(nodes).remaining();
    let ghost mut seen: Set<u32> = Set::empty();
    let ghost mut all: Set<u32> = Set::empty();
    let mut count: u16 = 0;
    proof {
        vstd::set_lib::lemma_len_subset(online_keys(nodes@, now), nodes@.dom());
        assert(online_keys(nodes@, now).finite());
    }
    for kv in it: nodes.iter()
        invariant
            it.seq() == pairs,
            pairs == spec_hash_map_iter(nodes).remaining(),
            pairs.no_duplicates(),
            pairs.len() == nodes@.dom().len(),
            online_keys(nodes@, now).len() <= u16::MAX,
            online_keys(nodes@, now).finite(),
            seen.finite(),
            all.finite(),
            count as nat == seen.len(),
            seen.subset_of(all),
            all.len() == it.index(),
            forall|x: u32| all.contains(x) <==> exists|j: int| 0 <= j < it.index() && *(#[trigger] pairs[j]).0 == x,
            forall|x: u32| seen.contains(x) <==> all.contains(x) && nodes@.contains_key(x) && is_online(nodes@[x], now),
    {
        let ghost idx = it.index();
        assert(kv == pairs[idx]);
        let (k, node) = kv;
        proof {
            assert(nodes@.contains_key(*pairs[idx].0));
            assert(nodes@[*pairs[idx].0] == *pairs[idx].1);
            if all.contains(*k) {
                let j = choose|j: int| 0 <= j < idx && *(#[trigger] pairs[j]).0 == *k;
                assert(nodes@[*pairs[j].0] == *pairs[j].1);
                assert(pairs[j] == pairs[idx]);
            }
        }
        let online = node_is_online(node, now);
        if online {
            proof {
                assert(!seen.contains(*k));
                vstd::set_lib::lemma_len_subset(seen.insert(*k), online_keys(nodes@, now));
            }
            count = count + 1;
            proof {
                seen = seen.insert(*k);
            }
        }
        proof {
            let old_all = all;
            all = all.insert(*k);
            assert forall|x: u32| all.contains(x) <==> exists|j: int| 0 <= j < idx + 1 && *(#[trigger] pairs[j]).0 == x by {
                if x == *k {
                    assert(*pairs[idx].0 == x);
                }
                if exists|j: int| 0 <= j < idx + 1 && *(#[trigger] pairs[j]).0 == x {
                    let j = choose|j: int| 0 <= j < idx + 1 && *(#[trigger] pairs[j]).0 == x;
                    if j < idx {
                        assert(old_all.contains(x));
                    }
                }
            }
        }
    }
    proof {
        assert forall|x: u32| nodes@.contains_key(x) implies all.contains(x) by {
            assert(pairs.contains((&x, &nodes@[x])));
            let j = choose|j: int| 0 <= j < pairs.len() && pairs[j] == (&x, &nodes@[x]);
            assert(*pairs[j].0 == x);
        }
        assert(seen =~= online_keys(nodes@, now));
    }
    count
}

/// Whether one of the first `n` entries of `pairs` is the node `x` and the
/// filter lets it through.
pub open spec fn seen_passing(
    pairs: Seq<(&u32, &Node)>,
    n: int,
    x: u32,
    nodes: Map<u32, Node>,
    tokens: Seq<Seq<char>>,
    now: i64,
    telemetry: Set<u32>,
) -> bool {
    exists|j: int|
        0 <= j < n && *(#[trigger] pairs[j]).0 == x && passes_filter(
            nodes[x],
            tokens,
            now,
            telemetry.contains(x),
        )
}

proof fn lemma_seen_passing_step(
    pairs: Seq<(&u32, &Node)>,
    n: int,
    x: u32,
    nodes: Map<u32, Node>,
    tokens: Seq<Seq<char>>,
    now: i64,
    telemetry: Set<u32>,
)
    requires
        0 <= n < pairs.len(),
    ensures
        seen_passing(pairs, n + 1, x, nodes, tokens, now, telemetry) <==> (seen_passing(
            pairs,
            n,
            x,
            nodes,
            tokens,
            now,
            telemetry,
        ) || (*pairs[n].0 == x && passes_filter(nodes[x], tokens, now, telemetry.contains(x)))),
{
    if seen_passing(pairs, n + 1, x, nodes, tokens, now, telemetry) {
        let j = choose|j: int|
            0 <= j < n + 1 && *(#[trigger] pairs[j]).0 == x && passes_filter(
                nodes[x],
                tokens,
                now,
                telemetry.contains(x),
            );
        if j < n {
            assert(seen_passing(pairs, n, x, nodes, tokens, now, telemetry));
        }
    }
    if *pairs[n].0 == x && passes_filter(nodes[x], tokens, now, telemetry.contains(x)) {
        assert(seen_passing(pairs, n + 1, x, nodes, tokens, now, telemetry));
    }
}

proof fn lemma_insert_members(before: Seq<u32>, p: int, key: u32)
    requires
        0 <= p <= before.len(),
        before.no_duplicates(),
        !before.contains(key),
    ensures
        before.insert(p, key).no_duplicates(),
        forall|x: u32| before.insert(p, key).contains(x) <==> (before.contains(x) || x == key),
{
    let r = before.insert(p, key);
    assert forall|x: u32| r.contains(x) <==> (before.contains(x) || x == key) by {
        if r.contains(x) {
            let q = choose|q: int| 0 <= q < r.len() && r[q] == x;
            if q < p {
                assert(before[q] == x);
            } else if q > p {
                assert(before[q - 1] == x);
            }
        }
        if before.contains(x) {
            let q = choose|q: int| 0 <= q < before.len() && before[q] == x;
            if q < p {
                assert(r[q] == x);
            } else {
                assert(r[q + 1] == x);
            }
        }
        if x == key {
            assert(r[p] == x);
        }
    }
    assert forall|a: int, b: int| 0 <= a < b < r.len() implies r[a] != r[b] by {
        if a < p && b < p {
        } else if a < p && b == p {
            assert(before.contains(before[a]));
        } else if a < p {
            assert(before[a] != before[b - 1]);
        } else if a == p {
            assert(before.contains(before[b - 1]));
        } else {
            assert(before[a - 1] != before[b - 1]);
        }
    }
}

/// The node list: the keys of the nodes that `filter` lets through, each
/// once, in list order.
pub fn nodes_view(
    nodes: &HashMap<u32, Node>,
    telemetry: &HashSet<u32>,
    filter: &str,
    sort_by: NodesSortBy,
    my_node_key: Option<u32>,
    now: i64,
) -> (r: Vec<u32>)
    requires
        keyed_by_own_key(nodes@),
    ensures
        r@.no_duplicates(),
        forall|k: u32|
            r@.contains(k) <==> nodes@.contains_key(k) && passes_filter(
                nodes@[k],
                words(filter@),
                now,
                telemetry@.contains(k),
            ),
        is_listed_in_order(nodes@, r@, sort_by, my_node_key),
{
    let tokens = split_words(filter);
    let ghost ts = words(filter@);
    let ghost pairs = spec_hash_map_iter(nodes).remaining();
    let mut r: Vec<u32> = Vec::new();
    for kv in it: nodes.iter()
        invariant
            it.seq() == pairs,
            pairs == spec_hash_map_iter(nodes).remaining(),
            pairs.no_duplicates(),
            tokens@.map_values(|w: String| w@) == ts,
            ts == words(filter@),
            keyed_by_own_key(nodes@),
            forall|i: int| 0 <= i < r.len() ==> nodes@.contains_key(#[trigger] r@[i]),
            is_listed_in_order(nodes@, r@, sort_by, my_node_key),
            r@.no_duplicates(),
            forall|x: u32|
                r@.contains(x) <==> seen_passing(pairs, it.index(), x, nodes@, ts, now, telemetry@),
    {
        let ghost idx = it.index();
        assert(kv == pairs[idx]);
        let (k, node) = kv;
        proof {
            assert(nodes@.contains_key(*pairs[idx].0));
            assert(nodes@[*pairs[idx].0] == *pairs[idx].1);
        }
        let key = node.key;
        assert(key == *k);
        let has = telemetry.contains(&key);
        let ghost before = r@;
        assert(forall|x: u32| before.contains(x) <==> seen_passing(pairs, idx, x, nodes@, ts, now, telemetry@));
        let pass = node_passes_filter(node, &tokens, now, has);
        if pass {
            proof {
                if before.contains(key) {
                    let j = choose|j: int|
                        0 <= j < idx && *(#[trigger] pairs[j]).0 == key && passes_filter(
                            nodes@[key],
                            ts,
                            now,
                            telemetry@.contains(key),
                        );
                    assert(nodes@[*pairs[j].0] == *pairs[j].1);
                    assert(pairs[j] == pairs[idx]);
                }
            }
            insert_in_order(nodes, &mut r, key, sort_by, my_node_key);
            proof {
                let p = choose|p: int| 0 <= p <= before.len() && r@ == before.insert(p, key);
                lemma_insert_members(before, p, key);
            }
        }
        proof {
            assert(*pairs[idx].0 == key);
            assert(*node == nodes@[key]);
            assert(has == telemetry@.contains(key));
            assert(pass == passes_filter(nodes@[key], ts, now, telemetry@.contains(key)));
            assert(forall|x: u32| r@.contains(x) <==> (before.contains(x) || (pass && x == key)));
            assert forall|x: u32|
                r@.contains(x) <==> seen_passing(pairs, idx + 1, x, nodes@, ts, now, telemetry@) by {
                lemma_seen_passing_step(pairs, idx, x, nodes@, ts, now, telemetry@);
                assert(before.contains(x) <==> seen_passing(pairs, idx, x, nodes@, ts, now, telemetry@));
            }
        }
    }
    proof {
        assert forall|x: u32|
            r@.contains(x) <==> nodes@.contains_key(x) && passes_filter(
                nodes@[x],
                words(filter@),
                now,
                telemetry@.contains(x),
            ) by {
            if nodes@.contains_key(x) {
                assert(pairs.contains((&x, &nodes@[x])));
                let j = choose|j: int| 0 <= j < pairs.len() && pairs[j] == (&x, &nodes@[x]);
                assert(*pairs[j].0 == x);
            }
            if r@.contains(x) {
                let j = choose|j: int|
                    0 <= j < pairs.len() && *(#[trigger] pairs[j]).0 == x && passes_filter(
                        nodes@[x],
                        ts,
                        now,
                        telemetry@.contains(x),
                    );
                assert(nodes@.contains_key(*pairs[j].0));
            }
        }
    }
    r
}

} // verus!
