//! The line of reactions under a message: each emoji once, in the order of
//! its first use, with the number of reactions when there are several.
use vstd::prelude::*;
use crate::chat::Message;
use crate::chat_label::{parts_view, LabelPart, PartStyle};
use crate::text::{decimal_digits, push_char, push_decimal, str_eq};

verus! {

/// A reaction as its emoji text and its time.
pub type Reaction = (Seq<char>, i64);

/// The reactions of `ms`, in their order.
pub open spec fn reactions_of(ms: Seq<Message>) -> Seq<Reaction> {
    ms.map_values(|m: Message| (m.text@, m.datetime))
}

/// `x` put into `s` after every reaction that is not later than it.
pub open spec fn insert_by_time(s: Seq<Reaction>, x: Reaction) -> Seq<Reaction>
    decreases s.len(),
{
    if s.len() == 0 {
        seq![x]
    } else if x.1 < s[0].1 {
        seq![x] + s
    } else {
        seq![s[0]] + insert_by_time(s.drop_first(), x)
    }
}

/// The reactions ordered by time; reactions of the same time keep their
/// order.
pub open spec fn sorted_by_time(rs: Seq<Reaction>) -> Seq<Reaction>
    decreases rs.len(),
{
    if rs.len() == 0 {
        Seq::empty()
    } else {
        insert_by_time(sorted_by_time(rs.drop_last()), rs.last())
    }
}

/// Where the emoji `t` is in the tally, if it is.
pub open spec fn find_text(acc: Seq<(Seq<char>, nat)>, t: Seq<char>) -> Option<int>
    decreases acc.len(),
{
    if acc.len() == 0 {
        None
    } else {
        match find_text(acc.drop_last(), t) {
            Some(i) => Some(i),
            None => if acc.last().0 == t {
                Some(acc.len() - 1)
            } else {
                None
            },
        }
    }
}

/// Each emoji of the reactions once, in the order of its first reaction,
/// with its number of reactions.
pub open spec fn tally(rs: Seq<Reaction>) -> Seq<(Seq<char>, nat)>
    decreases rs.len(),
{
    if rs.len() == 0 {
        Seq::empty()
    } else {
        let acc = tally(rs.drop_last());
        let t = rs.last().0;
        match find_text(acc, t) {
            Some(i) => acc.update(i, (t, acc[i].1 + 1)),
            None => acc.push((t, 1)),
        }
    }
}

/// The parts an emoji and its count make: a space, the emoji, and (dim)
/// a colon and the count when it is above one.
pub open spec fn item_parts(item: (Seq<char>, nat)) -> Seq<(Seq<char>, PartStyle)> {
    seq![(seq![' '], PartStyle::Plain), (item.0, PartStyle::Plain)] + if item.1 > 1 {
        seq![(seq![':'] + decimal_digits(item.1), PartStyle::Dim)]
    } else {
        Seq::empty()
    }
}

/// The parts of the whole tally.
pub open spec fn tally_parts(items: Seq<(Seq<char>, nat)>) -> Seq<(Seq<char>, PartStyle)>
    decreases items.len(),
{
    if items.len() == 0 {
        Seq::empty()
    } else {
        tally_parts(items.drop_last()) + item_parts(items.last())
    }
}

/// The line of the reactions to a message.
pub open spec fn spec_reactions_line(ms: Seq<Message>) -> Seq<(Seq<char>, PartStyle)> {
    tally_parts(tally(sorted_by_time(reactions_of(ms))))
}

proof fn lemma_insert_at(s: Seq<Reaction>, x: Reaction, p: int)
    requires
        0 <= p <= s.len(),
        forall|j: int| 0 <= j < p ==> #[trigger] s[j].1 <= x.1,
        p < s.len() ==> x.1 < s[p].1,
    ensures
        insert_by_time(s, x) == s.insert(p, x),
    decreases s.len(),
{
    if s.len() == 0 {
        assert(s.insert(p, x) =~= seq![x]);
    } else if x.1 < s[0].1 {
        if p > 0 {
            assert(s[0].1 <= x.1);
        }
        assert(s.insert(p, x) =~= seq![x] + s);
    } else {
        assert(p > 0);
        let t = s.drop_first();
        assert forall|j: int| 0 <= j < p - 1 implies #[trigger] t[j].1 <= x.1 by {
            assert(t[j] == s[j + 1]);
        }
        lemma_insert_at(t, x, p - 1);
        assert(s.insert(p, x) =~= seq![s[0]] + t.insert(p - 1, x));
    }
}

proof fn lemma_find_text_bounds(acc: Seq<(Seq<char>, nat)>, t: Seq<char>)
    ensures
        find_text(acc, t) matches Some(i) ==> 0 <= i < acc.len() && acc[i].0 == t && forall|j: int|
            0 <= j < i ==> #[trigger] acc[j].0 != t,
        find_text(acc, t) is None ==> forall|j: int| 0 <= j < acc.len() ==> #[trigger] acc[j].0 != t,
    decreases acc.len(),
{
    if acc.len() > 0 {
        let d = acc.drop_last();
        lemma_find_text_bounds(d, t);
        assert forall|j: int| 0 <= j < d.len() implies #[trigger] acc[j] == d[j] by {}
        match find_text(d, t) {
            Some(i) => {
                assert(find_text(acc, t) == Some(i));
                assert forall|j: int| 0 <= j < i implies #[trigger] acc[j].0 != t by {
                    assert(acc[j] == d[j]);
                }
            },
            None => {
                assert forall|j: int| 0 <= j < acc.len() - 1 implies #[trigger] acc[j].0 != t by {
                    assert(acc[j] == d[j]);
                }
            },
        }
    }
}

proof fn lemma_tally_prefix(rs: Seq<Reaction>, i: int)
    requires
        0 <= i < rs.len(),
    ensures
        rs.take(i + 1).drop_last() == rs.take(i),
        rs.take(i + 1).last() == rs[i],
{
    assert(rs.take(i + 1).drop_last() =~= rs.take(i));
}

/// Puts the reactions in order of time, keeping the order of reactions of
/// the same time.
fn sort_by_time(ms: &Vec<Message>) -> (r: Vec<(String, i64)>)
    ensures
        r@.map_values(|p: (String, i64)| (p.0@, p.1)) == sorted_by_time(reactions_of(ms@)),
{
    let mut r: Vec<(String, i64)> = Vec::new();
    let mut i: usize = 0;
    while i < ms.len()
        invariant
            0 <= i <= ms.len(),
            r@.map_values(|p: (String, i64)| (p.0@, p.1)) == sorted_by_time(reactions_of(ms@).take(i as int)),
        decreases ms.len() - i,
    {
        let ghost s = r@.map_values(|p: (String, i64)| (p.0@, p.1));
        let t = ms[i].datetime;
        let mut p: usize = 0;
        while p < r.len() && r[p].1 <= t
            invariant
                0 <= p <= r.len(),
                s == r@.map_values(|q: (String, i64)| (q.0@, q.1)),
                forall|j: int| 0 <= j < p ==> #[trigger] s[j].1 <= t,
            decreases r.len() - p,
        {
            p = p + 1;
        }
        let x = (ms[i].text.clone(), t);
        r.insert(p, x);
        proof {
            let xv: Reaction = (ms@[i as int].text@, t);
            lemma_insert_at(s, xv, p as int);
            assert(r@.map_values(|q: (String, i64)| (q.0@, q.1)) =~= s.insert(p as int, xv));
            let all = reactions_of(ms@);
            lemma_tally_prefix(all, i as int);
            assert(all[i as int] == xv);
        }
        i = i + 1;
    }
    proof {
        assert(reactions_of(ms@).take(ms@.len() as int) =~= reactions_of(ms@));
    }
    r
}

/// Where the emoji `t` is among the counted ones.
fn find_counted(acc: &Vec<(String, usize)>, t: &String) -> (r: Option<usize>)
    ensures
        r matches Some(i) ==> find_text(acc@.map_values(|q: (String, usize)| (q.0@, q.1 as nat)), t@) == Some(
            i as int,
        ),
        r is None ==> find_text(acc@.map_values(|q: (String, usize)| (q.0@, q.1 as nat)), t@) is None,
{
    let ghost a = acc@.map_values(|q: (String, usize)| (q.0@, q.1 as nat));
    let mut j: usize = 0;
    while j < acc.len()
        invariant
            0 <= j <= acc.len(),
            a == acc@.map_values(|q: (String, usize)| (q.0@, q.1 as nat)),
            forall|k: int| 0 <= k < j ==> #[trigger] a[k].0 != t@,
        decreases acc.len() - j,
    {
        proof {
            assert(a[j as int].0 == acc@[j as int].0@);
        }
        if str_eq(acc[j].0.as_str(), t.as_str()) {
            proof {
                lemma_find_text_bounds(a, t@);
            }
            return Some(j);
        }
        j = j + 1;
    }
    proof {
        lemma_find_text_bounds(a, t@);
    }
    None
}

/// Counts the reactions of each emoji, in the order of their first use.
fn count_reactions(sorted: &Vec<(String, i64)>) -> (r: Vec<(String, usize)>)
    ensures
        r@.map_values(|q: (String, usize)| (q.0@, q.1 as nat)) == tally(
            sorted@.map_values(|p: (String, i64)| (p.0@, p.1)),
        ),
{
    let ghost all = sorted@.map_values(|p: (String, i64)| (p.0@, p.1));
    let mut acc: Vec<(String, usize)> = Vec::new();
    let mut i: usize = 0;
    while i < sorted.len()
        invariant
            0 <= i <= sorted.len(),
            all == sorted@.map_values(|p: (String, i64)| (p.0@, p.1)),
            acc@.map_values(|q: (String, usize)| (q.0@, q.1 as nat)) == tally(all.take(i as int)),
            forall|k: int| 0 <= k < acc.len() ==> #[trigger] acc@[k].1 <= i,
        decreases sorted.len() - i,
    {
        let ghost a = acc@.map_values(|q: (String, usize)| (q.0@, q.1 as nat));
        let t = &sorted[i].0;
        proof {
            lemma_tally_prefix(all, i as int);
        }
        match find_counted(&acc, t) {
            Some(k) => {
                proof {
                    lemma_find_text_bounds(a, t@);
                    assert(acc@[k as int].1 <= i);
                }
                let c = acc[k].1 + 1;
                let name = acc[k].0.clone();
                acc.set(k, (name, c));
                proof {
                    lemma_find_text_bounds(a, t@);
                    assert(acc@.map_values(|q: (String, usize)| (q.0@, q.1 as nat)) =~= a.update(
                        k as int,
                        (t@, a[k as int].1 + 1),
                    ));
                }
            },
            None => {
                acc.push((t.clone(), 1));
                proof {
                    assert(acc@.map_values(|q: (String, usize)| (q.0@, q.1 as nat)) =~= a.push((t@, 1)));
                }
            },
        }
        i = i + 1;
    }
    proof {
        assert(all.take(sorted.len() as int) =~= all);
    }
    acc
}

fn plain(text: String) -> (r: LabelPart)
    ensures
        r.text@ == text@,
        r.style == PartStyle::Plain,
{
    LabelPart { text, style: PartStyle::Plain }
}

/// The line of the reactions to a message, `reactions` being the reaction
/// messages: each emoji once, ordered by the time of its first reaction,
/// with a dim count where more than one node reacted with it.
pub fn reactions_line(reactions: &Vec<Message>) -> (r: Vec<LabelPart>)
    ensures
        parts_view(r@) == spec_reactions_line(reactions@),
{
    let sorted = sort_by_time(reactions);
    let counts = count_reactions(&sorted);
    let ghost items = counts@.map_values(|q: (String, usize)| (q.0@, q.1 as nat));
    let mut r: Vec<LabelPart> = Vec::new();
    let mut i: usize = 0;
    while i < counts.len()
        invariant
            0 <= i <= counts.len(),
            items == counts@.map_values(|q: (String, usize)| (q.0@, q.1 as nat)),
            parts_view(r@) == tally_parts(items.take(i as int)),
        decreases counts.len() - i,
    {
        let ghost before = parts_view(r@);
        let mut space = String::new();
        push_char(&mut space, ' ');
        r.push(plain(space));
        r.push(plain(counts[i].0.clone()));
        if counts[i].1 > 1 {
            let mut count = String::new();
            push_char(&mut count, ':');
            push_decimal(&mut count, counts[i].1 as u64);
            r.push(LabelPart { text: count, style: PartStyle::Dim });
        }
        proof {
            assert(items.take(i + 1).drop_last() =~= items.take(i as int));
            assert(items.take(i + 1).last() == items[i as int]);
            assert(Seq::<char>::empty().push(' ') =~= seq![' ']);
            assert(Seq::<char>::empty().push(':') =~= seq![':']);
            assert(parts_view(r@) =~= before + item_parts(items[i as int]));
        }
        i = i + 1;
    }
    proof {
        assert(items.take(counts.len() as int) =~= items);
    }
    r
}

} // verus!
