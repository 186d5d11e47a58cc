//! Properties of the library that span several functions or every state.
use vstd::prelude::*;
use crate::chat::Chat;
use crate::device::{lemma_device_order_antisymmetric, Device, DeviceSet};
use crate::formdata::{data_eq, insert_entry, lookup, FormValueView};
use crate::forms::FormItemKey;
use crate::link::backoff_millis;
use crate::node::Node;
use crate::nodes_view::{
    digits_value, is_digit, is_listed_in_order, keyed_by_own_key, node_order, occurs_in, passes_filter, word_passes, words,
};
use crate::text::{is_unicode_whitespace, joined_nonempty, lowercase};
use crate::state::{
    changed_by, elapsed, form_differs, is_node_list_of, next_state, reduced, State, StateAction, StateField, ticked,
    watched_by_nodes_view, TOAST_QUICK_TIMEOUT_MILLIS,
};
use crate::types::{NodesSortBy, Tab, Toast};
use crate::order::text_order;
use crate::ui::NodeInfoTab;
use vstd::arithmetic::power2::{lemma2_to64, lemma_pow2_strictly_increases};

verus! {

/// Stepping to the next tab and back to the previous one returns to the
/// first tab, and so does stepping back and then forward.
pub proof fn law_tab_next_prev(t: Tab, u: Tab, v: Tab)
    ensures
        u.spec_index() == (t.spec_index() + 1) % 5 && v.spec_index() == (u.spec_index() + 4) % 5
            ==> v == t,
        u.spec_index() == (t.spec_index() + 4) % 5 && v.spec_index() == (u.spec_index() + 1) % 5
            ==> v == t,
{
}

/// Stepping to the next tab of the node window and back to the previous
/// one returns to the first tab, and so does stepping back and then forward.
pub proof fn law_nodeinfo_tab_next_prev(t: NodeInfoTab, u: NodeInfoTab, v: NodeInfoTab)
    ensures
        u.spec_index() == (t.spec_index() + 1) % 4 && v.spec_index() == (u.spec_index() + 3) % 4
            ==> v == t,
        u.spec_index() == (t.spec_index() + 3) % 4 && v.spec_index() == (u.spec_index() + 1) % 4
            ==> v == t,
{
}

/// Stepping to the next ordering of the node list and back returns to the
/// first ordering, and so does stepping back and then forward.
pub proof fn law_sort_by_next_prev(t: NodesSortBy, u: NodesSortBy, v: NodesSortBy)
    ensures
        u.spec_index() == (t.spec_index() + 1) % 6 && v.spec_index() == (u.spec_index() + 5) % 6
            ==> v == t,
        u.spec_index() == (t.spec_index() + 5) % 6 && v.spec_index() == (u.spec_index() + 1) % 6
            ==> v == t,
{
}

/// Reading a field of form data after storing a value under its name gives
/// that value; the other fields read as before.
pub proof fn law_form_data_read_after_write(
    es: Seq<(Seq<char>, FormValueView)>,
    k: Seq<char>,
    v: FormValueView,
    n: Seq<char>,
)
    ensures
        lookup(insert_entry(es, k, v), n) == if n == k {
            Some(v)
        } else {
            lookup(es, n)
        },
    decreases es.len(),
{
    if es.len() == 0 {
        let one = seq![(k, v)];
        assert(one[0] == (k, v));
        assert(one.drop_first() =~= Seq::<(Seq<char>, FormValueView)>::empty());
        assert(insert_entry(es, k, v) == one);
        assert(lookup(one.drop_first(), n) is None);
        assert(lookup(es, n) is None);
    } else if es[0].0 == k {
        let up = es.update(0, (k, v));
        assert(up.drop_first() =~= es.drop_first());
        assert(insert_entry(es, k, v) == up);
        assert(up[0] == (k, v));
        if n != k {
            assert(lookup(up, n) == lookup(up.drop_first(), n));
            assert(lookup(es, n) == lookup(es.drop_first(), n));
        }
    } else {
        law_form_data_read_after_write(es.drop_first(), k, v, n);
        let rest = insert_entry(es.drop_first(), k, v);
        let whole = seq![es[0]] + rest;
        assert(whole[0] == es[0]);
        assert(whole.drop_first() =~= rest);
        assert(insert_entry(es, k, v) == whole);
        if es[0].0 != n {
            assert(lookup(whole, n) == lookup(rest, n));
            assert(lookup(es, n) == lookup(es.drop_first(), n));
        }
    }
}

/// Reading through a form key after writing a value through it gives that
/// value, for every key that stores something.
pub proof fn law_form_key_read_after_write(
    key: FormItemKey,
    data: Seq<(Seq<char>, FormValueView)>,
    v: FormValueView,
)
    requires
        key.fits(data),
        !(key is NoField),
    ensures
        key.spec_read(key.spec_write(data, v)) == Some(v),
{
    match key {
        FormItemKey::Simple(k) => {
            law_form_data_read_after_write(data, k@, v, k@);
        },
        FormItemKey::NestedOption { outer, inner, default_record, .. } => {
            let rec = crate::forms::record_after_set(data, outer@, inner@, default_record@, v);
            let stored = FormValueView::Option(Some(Box::new(FormValueView::Nested(rec))));
            law_form_data_read_after_write(data, outer@, stored, outer@);
            let base = match crate::forms::optional_record(data, outer@) {
                Some(es) => es,
                None => default_record@,
            };
            law_form_data_read_after_write(base, inner@, v, inner@);
        },
        FormItemKey::NoField => {},
    }
}

/// A device added to a set is in it, and the devices it held stay.
pub proof fn law_device_set_insert_has(pre: DeviceSet, post: DeviceSet, d: Device, e: Device)
    requires
        exists|p: int| 0 <= p <= pre.items.len() && post.items@ == pre.items@.insert(p, d),
    ensures
        post.has(d),
        pre.has(e) ==> post.has(e),
{
    let p = choose|p: int| 0 <= p <= pre.items.len() && post.items@ == pre.items@.insert(p, d);
    assert(post.items@[p] == d);
    lemma_device_order_antisymmetric(d, d);
    if pre.has(e) {
        let i = choose|i: int| 0 <= i < pre.items.len() && (#[trigger] pre.items@[i]).same(e);
        if i < p {
            assert(post.items@[i] == pre.items@[i]);
        } else {
            assert(post.items@[i + 1] == pre.items@[i]);
        }
    }
}

/// A device removed from a well formed set is no longer in it.
pub proof fn law_device_set_remove_lacks(pre: DeviceSet, post: DeviceSet, d: Device, i: int)
    requires
        pre.wf(),
        0 <= i < pre.items.len(),
        pre.items@[i].same(d),
        post.items@ == pre.items@.remove(i),
    ensures
        !post.has(d),
{
    if post.has(d) {
        let j = choose|j: int| 0 <= j < post.items.len() && (#[trigger] post.items@[j]).same(d);
        let k = if j < i {
            j
        } else {
            j + 1
        };
        assert(post.items@[j] == pre.items@[k]);
        lemma_device_order_antisymmetric(pre.items@[k], pre.items@[i]);
        lemma_device_order_antisymmetric(pre.items@[i], pre.items@[k]);
        lemma_device_order_antisymmetric(pre.items@[k], d);
        lemma_device_order_antisymmetric(pre.items@[i], d);
        if k < i {
            assert(pre.items@[k].spec_order(pre.items@[i]) < 0);
        } else {
            assert(pre.items@[i].spec_order(pre.items@[k]) < 0);
        }
    }
}

/// In the node list, the user's own node comes first.
pub proof fn law_own_node_listed_first(
    nodes: Map<u32, Node>,
    keys: Seq<u32>,
    sort_by: NodesSortBy,
    my: u32,
)
    requires
        keyed_by_own_key(nodes),
        forall|i: int| 0 <= i < keys.len() ==> nodes.contains_key(#[trigger] keys[i]),
        keys.no_duplicates(),
        is_listed_in_order(nodes, keys, sort_by, Some(my)),
        keys.contains(my),
    ensures
        keys[0] == my,
{
    let j = choose|j: int| 0 <= j < keys.len() && keys[j] == my;
    if j > 0 {
        assert(node_order(nodes[keys[0]], nodes[keys[j]], sort_by, Some(my)) <= 0);
        assert(nodes[keys[0]].key == keys[0]);
        assert(nodes[my].key == my);
        assert(keys[0] != keys[j]);
    }
}

/// Purging a chat leaves no message of it.
pub proof fn law_purged_chat_is_empty(pre: State, post: State, chat: Chat, id: u32)
    requires
        next_state(pre, StateAction::ChatPurge(chat), 0, 0, post),
        post.messages@.contains_key(id),
    ensures
        !chat.spec_holds(
            post.messages@[id],
            match pre.my_node_key {
                Some(k) => k,
                None => 0,
            },
        ),
{
}

/// Editing a value of the settings form and then resetting the form brings
/// back the data as it was loaded, and the form reads as unchanged.
pub proof fn law_form_reset_restores(
    pre: State,
    mid: State,
    post: State,
    key: FormItemKey,
    value: crate::formdata::FormValue,
)
    requires
        next_state(pre, StateAction::SettingsFormValueSet { key, value }, 0, 0, mid),
        next_state(mid, StateAction::SettingsFormReset, 0, 0, post),
        pre.settings_form_original_data is Some,
    ensures
        post.settings_form_data matches Some(d) && d@ == pre.settings_form_original_data->0@,
        !post.settings_form_is_changed,
{
}

/// The settings form's changed flag says whether its data differs from
/// the data as loaded.
pub open spec fn form_flag_consistent(s: State) -> bool {
    s.settings_form_is_changed == form_differs(s.settings_form_data, s.settings_form_original_data)
}

/// The actions that may replace the data a settings form was loaded with.
pub open spec fn replaces_loaded_form(action: StateAction) -> bool {
    ||| action is SettingsFormLoadingStart
    ||| action is SettingsFormLoadingFail
    ||| action is SettingsFormLoadingDone
    ||| action is SettingsFormClose
    ||| action is ConnectionStop
}

/// The data a settings form was loaded with changes only when a form
/// starts loading, fails to load, is loaded or closed, or when the radio is
/// disconnected; and writing a value while no form is loaded changes
/// nothing.
pub proof fn law_form_original_kept(pre: State, action: StateAction, now_ms: u64, now_s: i64, post: State)
    requires
        next_state(pre, action, now_ms, now_s, post),
    ensures
        !replaces_loaded_form(action) ==> post.settings_form_original_data == pre.settings_form_original_data,
        (action is SettingsFormValueSet && pre.settings_form_data is None) ==> (post == State {
            nodes_view: post.nodes_view,
            ..pre
        }),
{
}

/// Every action keeps the changed flag of the settings form equal to
/// whether the form's data differs from the data as loaded. (Data holding
/// a floating point not-a-number differs from itself, so loaded or reset
/// data must equal itself.)
pub proof fn law_form_changed_flag_kept(pre: State, action: StateAction, now_ms: u64, now_s: i64, post: State)
    requires
        form_flag_consistent(pre),
        next_state(pre, action, now_ms, now_s, post),
        action matches StateAction::SettingsFormLoadingDone { data, .. } ==> data_eq(data@, data@),
        pre.settings_form_original_data matches Some(o) ==> data_eq(o@, o@),
    ensures
        form_flag_consistent(post),
{
}

/// Writing one value into the settings form sets the changed flag exactly
/// when the written data differs from the data as loaded.
pub proof fn law_form_value_write_flag(
    pre: State,
    post: State,
    key: FormItemKey,
    value: crate::formdata::FormValue,
)
    requires
        pre.settings_form_data is Some,
        pre.settings_form_original_data is Some,
        next_state(pre, StateAction::SettingsFormValueSet { key, value }, 0, 0, post),
    ensures
        post.settings_form_is_changed == !data_eq(
            key.spec_write(pre.settings_form_data->0@, value@),
            pre.settings_form_original_data->0@,
        ),
{
}

/// The words of the node filter combine: a node passes two lists of words
/// together exactly when it passes each.
pub proof fn law_filter_words_combine(node: Node, a: Seq<Seq<char>>, b: Seq<Seq<char>>, now: i64, has_telemetry: bool)
    ensures
        passes_filter(node, a + b, now, has_telemetry) == (passes_filter(node, a, now, has_telemetry)
            && passes_filter(node, b, now, has_telemetry)),
{
    let ab = a + b;
    if passes_filter(node, a, now, has_telemetry) && passes_filter(node, b, now, has_telemetry) {
        assert forall|i: int| 0 <= i < ab.len() implies word_passes(node, #[trigger] ab[i], now, has_telemetry) by {
            if i < a.len() {
                assert(ab[i] == a[i]);
            } else {
                assert(ab[i] == b[i - a.len()]);
            }
        }
    }
    if passes_filter(node, ab, now, has_telemetry) {
        assert forall|i: int| 0 <= i < a.len() implies word_passes(node, #[trigger] a[i], now, has_telemetry) by {
            assert(ab[i] == a[i]);
        }
        assert forall|i: int| 0 <= i < b.len() implies word_passes(node, #[trigger] b[i], now, has_telemetry) by {
            assert(ab[i + a.len()] == b[i]);
        }
    }
}

proof fn lemma_words_nonempty(t: Seq<char>)
    requires
        t.len() > 0,
        !is_unicode_whitespace(t.last()),
    ensures
        words(t).len() > 0,
    decreases t.len(),
{
    if t.len() >= 2 && !is_unicode_whitespace(t[t.len() - 2]) {
        let d = t.drop_last();
        assert(d.last() == t[t.len() - 2]);
        lemma_words_nonempty(d);
    }
}

/// The words of a text made of `s`, ending in white space, and `t` are the
/// words of `s` followed by the words of `t`.
proof fn lemma_words_concat(s: Seq<char>, t: Seq<char>)
    requires
        s.len() == 0 || is_unicode_whitespace(s.last()),
    ensures
        words(s + t) == words(s) + words(t),
    decreases t.len(),
{
    if t.len() == 0 {
        assert(s + t =~= s);
        assert(words(s) + words(t) =~= words(s));
    } else {
        let st = s + t;
        let d = t.drop_last();
        assert(st.drop_last() =~= s + d);
        lemma_words_concat(s, d);
        let c = t.last();
        assert(st.last() == c);
        let ws = words(s);
        let wd = words(d);
        if is_unicode_whitespace(c) {
        } else if t.len() >= 2 && !is_unicode_whitespace(t[t.len() - 2]) {
            assert(st[st.len() - 2] == t[t.len() - 2]);
            assert(d.last() == t[t.len() - 2]);
            lemma_words_nonempty(d);
            assert((ws + wd).update((ws + wd).len() - 1, (ws + wd).last().push(c)) =~= ws + wd.update(
                wd.len() - 1,
                wd.last().push(c),
            ));
        } else {
            if t.len() == 1 && s.len() > 0 {
                assert(st[st.len() - 2] == s.last());
            }
            if t.len() >= 2 {
                assert(st[st.len() - 2] == t[t.len() - 2]);
            }
            assert((ws + wd).push(seq![c]) =~= ws + wd.push(seq![c]));
        }
    }
}

/// Filter texts combine: a node passes the filter `a b` (the two texts
/// with a space between) exactly when it passes `a` and passes `b`.
pub proof fn law_filter_texts_combine(node: Node, a: Seq<char>, b: Seq<char>, now: i64, has_telemetry: bool)
    ensures
        passes_filter(node, words(a + seq![' '] + b), now, has_telemetry) == (passes_filter(
            node,
            words(a),
            now,
            has_telemetry,
        ) && passes_filter(node, words(b), now, has_telemetry)),
{
    let sp = a + seq![' '];
    assert(sp.drop_last() =~= a);
    assert(words(sp) == words(a));
    lemma_words_concat(sp, b);
    law_filter_words_combine(node, words(a), words(b), now, has_telemetry);
}

/// Three node lists built from the same nodes under the filters `a`, `b`
/// and `a b`: a node is listed under `a b` exactly when it is listed under
/// `a` and under `b`.
pub proof fn law_node_lists_filter_and(
    s1: State,
    s2: State,
    s3: State,
    now: i64,
    k1: Seq<u32>,
    k2: Seq<u32>,
    k3: Seq<u32>,
    key: u32,
)
    requires
        s3.nodes_filter@ == s1.nodes_filter@ + seq![' '] + s2.nodes_filter@,
        s1.nodes@ == s3.nodes@,
        s2.nodes@ == s3.nodes@,
        s1.nodes_last_telemetry@ == s3.nodes_last_telemetry@,
        s2.nodes_last_telemetry@ == s3.nodes_last_telemetry@,
        is_node_list_of(s1, now, k1),
        is_node_list_of(s2, now, k2),
        is_node_list_of(s3, now, k3),
    ensures
        k3.contains(key) == (k1.contains(key) && k2.contains(key)),
{
    if s3.nodes@.contains_key(key) {
        law_filter_texts_combine(
            s3.nodes@[key],
            s1.nodes_filter@,
            s2.nodes_filter@,
            now,
            s3.nodes_last_telemetry@.contains(key),
        );
    }
}

/// A toast raised while nothing is shown or waiting is shown at the next
/// tick.
pub proof fn law_toast_shown_at_next_tick(
    pre: State,
    mid: State,
    post: State,
    t: Toast,
    now: u64,
    changed: Seq<crate::state::StateField>,
)
    requires
        pre.toast is None,
        pre.toast_queue@.len() == 0,
        next_state(pre, StateAction::Toast(t), 0, 0, mid),
        ticked(mid, now, post, changed),
    ensures
        post.toast == Some(t),
        post.toast_queue@.len() == 0,
        post.toast_t == now,
{
    assert(mid.toast_queue@ =~= seq![t]);
}

/// While another toast waits, the toast shown stays until its own timeout
/// or the quick timeout, whichever is shorter, has passed; then the waiting
/// toast takes its place.
pub proof fn law_toast_skipped_quickly(
    pre: State,
    post: State,
    now: u64,
    changed: Seq<crate::state::StateField>,
)
    requires
        pre.toast is Some,
        pre.toast_queue@.len() > 0,
        ticked(pre, now, post, changed),
    ensures
        elapsed(now, pre.toast_t) <= min_int(
            pre.toast->0.kind.spec_timeout() as int,
            TOAST_QUICK_TIMEOUT_MILLIS as int,
        ) ==> post.toast == pre.toast && post.toast_t == pre.toast_t && post.toast_queue@ == pre.toast_queue@,
        elapsed(now, pre.toast_t) > min_int(
            pre.toast->0.kind.spec_timeout() as int,
            TOAST_QUICK_TIMEOUT_MILLIS as int,
        ) ==> post.toast == Some(pre.toast_queue@[0]) && post.toast_t == now && post.toast_queue@
            == pre.toast_queue@.drop_first(),
{
}

/// The smaller of two numbers.
pub open spec fn min_int(a: int, b: int) -> int {
    if a <= b {
        a
    } else {
        b
    }
}

/// The reconnection wait starts at the base wait, never shrinks from one
/// attempt to the next, and never exceeds the longest wait.
pub proof fn law_backoff_grows_to_cap(attempt: u32)
    requires
        attempt < u32::MAX,
    ensures
        backoff_millis(0) == 1000,
        backoff_millis(attempt) <= backoff_millis((attempt + 1) as u32),
        backoff_millis(attempt) <= 30_000,
{
    lemma2_to64();
    lemma_pow2_strictly_increases(attempt as nat, (attempt + 1) as nat);
}

/// After every action that changes the owner node, the nodes, the node
/// filter or the node ordering, the node list is rebuilt from the new state
/// and named last among the changed fields; after any other action it stays
/// as it was. Setting the filter stores it in lower case and so always
/// rebuilds the list.
pub proof fn law_node_list_rebuilt(
    pre: State,
    action: StateAction,
    now_ms: u64,
    now_s: i64,
    post: State,
    changed: Seq<StateField>,
)
    requires
        reduced(pre, action, now_ms, now_s, post, changed),
    ensures
        (exists|i: int| 0 <= i < changed_by(pre, action).len() && watched_by_nodes_view(#[trigger] changed_by(pre, action)[i]))
            ==> changed.len() > 0 && changed.last() == StateField::NodesView && is_node_list_of(post, now_s, post.nodes_view@),
        !(exists|i: int| 0 <= i < changed_by(pre, action).len() && watched_by_nodes_view(#[trigger] changed_by(pre, action)[i]))
            ==> post.nodes_view == pre.nodes_view,
        action matches StateAction::NodesFilterSet(f) ==> post.nodes_filter@ == lowercase(f@) && changed.last()
            == StateField::NodesView && is_node_list_of(post, now_s, post.nodes_view@),
{
    if action is NodesFilterSet {
        assert(watched_by_nodes_view(changed_by(pre, action)[0]));
    }
}

/// `f32::total_cmp` of std on two numbers given by their bits: `x` is
/// greater than `y`. Numbers are ordered by sign, then positive ones by
/// growing magnitude and negative ones by shrinking magnitude (the
/// magnitude being the bits without the sign).
pub open spec fn f32_total_gt(x: u32, y: u32) -> bool {
    let x_negative = x >= 0x8000_0000;
    let y_negative = y >= 0x8000_0000;
    let x_magnitude = x % 0x8000_0000;
    let y_magnitude = y % 0x8000_0000;
    if !x_negative && !y_negative {
        x_magnitude > y_magnitude
    } else if !x_negative && y_negative {
        true
    } else if x_negative && !y_negative {
        false
    } else {
        x_magnitude < y_magnitude
    }
}

/// The user's own node comes first in the node list, whatever the
/// ordering.
pub proof fn law_own_node_sorts_first(a: Node, b: Node, sort_by: NodesSortBy, my: u32)
    requires
        a.key == my,
        b.key != my,
    ensures
        node_order(a, b, sort_by, Some(my)) < 0,
        node_order(b, a, sort_by, Some(my)) > 0,
{
}

/// Sorting by hops (neither node being the user's own) lists a node fewer
/// hops away first, a node with a known hop count before one whose count is
/// unknown, and, among nodes equally far away, the one heard with the
/// higher signal to noise ratio first.
pub proof fn law_hops_sort_fewest_then_best_signal(a: Node, b: Node, my: Option<u32>)
    requires
        my != Some(a.key),
        my != Some(b.key),
    ensures
        (a.hops matches Some(x) && b.hops matches Some(y) && x < y) ==> node_order(a, b, NodesSortBy::Hops, my) < 0,
        (a.hops is Some && b.hops is None && a.hops != Some(u32::MAX)) ==> node_order(a, b, NodesSortBy::Hops, my) < 0,
        a.hops == b.hops && f32_total_gt(a.snr_bits, b.snr_bits) ==> node_order(a, b, NodesSortBy::Hops, my) < 0
            && node_order(b, a, NodesSortBy::Hops, my) > 0,
{
}

/// Sorting by role (neither node being the user's own) lists the roles in
/// text order, and, within a role, nodes as sorting by hops does.
pub proof fn law_role_sort_then_hops(a: Node, b: Node, my: Option<u32>)
    requires
        my != Some(a.key),
        my != Some(b.key),
    ensures
        text_order(a.spec_role(), b.spec_role()) < 0 ==> node_order(a, b, NodesSortBy::Role, my) < 0,
        a.spec_role() == b.spec_role() && a.hops == b.hops && f32_total_gt(a.snr_bits, b.snr_bits) ==> node_order(
            a,
            b,
            NodesSortBy::Role,
            my,
        ) < 0,
        (a.spec_role() == b.spec_role() && (a.hops matches Some(x) && b.hops matches Some(y) && x < y)) ==> node_order(
            a,
            b,
            NodesSortBy::Role,
            my,
        ) < 0,
{
    crate::order::lemma_text_order_equal(a.spec_role(), b.spec_role());
}

/// Sorting by last heard (neither node being the user's own) lists the
/// node heard most recently first, and a node heard after the epoch before
/// one never heard.
pub proof fn law_last_heard_sort_most_recent_first(a: Node, b: Node, my: Option<u32>)
    requires
        my != Some(a.key),
        my != Some(b.key),
    ensures
        (a.last_heard matches Some(s) && b.last_heard matches Some(t) && s > t) ==> node_order(
            a,
            b,
            NodesSortBy::LastHeard,
            my,
        ) < 0,
        (a.last_heard matches Some(s) && s > 0 && b.last_heard is None) ==> node_order(
            a,
            b,
            NodesSortBy::LastHeard,
            my,
        ) < 0,
{
}

/// Sorting by names (neither node being the user's own) lists them in the
/// text order of the short or long name; sorting by hardware lists the
/// models in text order, and one model by short name.
pub proof fn law_name_sorts_follow_text_order(a: Node, b: Node, my: Option<u32>)
    requires
        my != Some(a.key),
        my != Some(b.key),
    ensures
        text_order(a.spec_short_name(), b.spec_short_name()) < 0 ==> node_order(a, b, NodesSortBy::ShortName, my)
            < 0,
        text_order(a.spec_long_name(), b.spec_long_name()) < 0 ==> node_order(a, b, NodesSortBy::LongName, my) < 0,
        text_order(a.spec_hw_model(), b.spec_hw_model()) < 0 ==> node_order(a, b, NodesSortBy::HwModel, my) < 0,
        a.spec_hw_model() == b.spec_hw_model() && text_order(a.spec_short_name(), b.spec_short_name()) < 0
            ==> node_order(a, b, NodesSortBy::HwModel, my) < 0,
{
    crate::order::lemma_text_order_equal(a.spec_hw_model(), b.spec_hw_model());
}

/// A text occurs in itself.
proof fn lemma_occurs_in_self(t: Seq<char>)
    ensures
        occurs_in(t, t),
{
    let i: int = 0;
    assert(t.subrange(i, i + t.len()) =~= t);
}

/// A word whose second character is not `h` is no `$hops` word, so it lets
/// through the nodes whose search text or pseudo words hold it.
proof fn lemma_plain_word(node: Node, t: Seq<char>, now: i64, has_telemetry: bool)
    requires
        t.len() >= 5,
        t[1] != 'h',
    ensures
        word_passes(node, t, now, has_telemetry) == (occurs_in(t, node.fulltext@) || occurs_in(
            t,
            crate::nodes_view::online_word(node, now),
        ) || occurs_in(t, crate::nodes_view::telemetry_word(has_telemetry))),
{
    reveal_strlit("$hops");
    if t.subrange(0, 5) == "$hops"@ {
        assert(t.subrange(0, 5)[1] == t[1]);
    }
}

/// The special words of the node filter: `$online` lets through the nodes
/// heard less than two hours ago, `$offline` the others, and `$telemetry`
/// the nodes that sent telemetry.
pub proof fn law_filter_reach_words(node: Node, now: i64, has_telemetry: bool)
    ensures
        (node.last_heard matches Some(t) && now - t < 7200) ==> word_passes(node, "$online"@, now, has_telemetry),
        (node.last_heard matches Some(t) && now - t >= 7200) ==> word_passes(node, "$offline"@, now, has_telemetry),
        node.last_heard is None ==> word_passes(node, "$offline"@, now, has_telemetry),
        has_telemetry ==> word_passes(node, "$telemetry"@, now, has_telemetry),
{
    reveal_strlit("$online");
    reveal_strlit("$offline");
    reveal_strlit("$telemetry");
    lemma_plain_word(node, "$online"@, now, has_telemetry);
    lemma_plain_word(node, "$offline"@, now, has_telemetry);
    lemma_plain_word(node, "$telemetry"@, now, has_telemetry);
    lemma_occurs_in_self("$online"@);
    lemma_occurs_in_self("$offline"@);
    lemma_occurs_in_self("$telemetry"@);
}

/// The word `$hops` followed by the decimal digits of a number lets through
/// exactly the nodes that number of hops away.
pub proof fn law_filter_hops_word(node: Node, d: Seq<char>, now: i64, has_telemetry: bool)
    requires
        d.len() > 0,
        forall|i: int| 0 <= i < d.len() ==> is_digit(#[trigger] d[i]),
    ensures
        word_passes(node, "$hops"@ + d, now, has_telemetry) == (node.hops matches Some(h) && h as nat
            == digits_value(d)),
{
    reveal_strlit("$hops");
    let t = "$hops"@ + d;
    assert(t.subrange(0, 5) =~= "$hops"@);
    assert(t.subrange(5, t.len() as int) =~= d);
    assert forall|i: int| 5 <= i < t.len() implies is_digit(#[trigger] t[i]) by {
        assert(t[i] == d[i - 5]);
    }
}

/// A text that occurs in `h` occurs in any text that holds `h`.
proof fn lemma_occurs_in_extended(n: Seq<char>, h: Seq<char>, pre: Seq<char>, post: Seq<char>)
    requires
        occurs_in(n, h),
    ensures
        occurs_in(n, pre + h + post),
{
    let i = choose|i: int| 0 <= i && i + n.len() <= h.len() && #[trigger] h.subrange(i, i + n.len()) == n;
    let whole = pre + h + post;
    let j = i + pre.len();
    assert(whole.subrange(j, j + n.len()) =~= h.subrange(i, i + n.len()));
}

/// Every word of a list occurs in the list's non-empty words joined by
/// spaces.
proof fn lemma_word_occurs_in_joined(ts: Seq<Seq<char>>, i: int)
    requires
        0 <= i < ts.len(),
    ensures
        occurs_in(ts[i], joined_nonempty(ts)),
    decreases ts.len(),
{
    let prev = joined_nonempty(ts.drop_last());
    let t = ts.last();
    let e = Seq::<char>::empty();
    if ts[i].len() == 0 {
        let z: int = 0;
        assert(joined_nonempty(ts).subrange(z, z + ts[i].len()) =~= ts[i]);
    } else if i == ts.len() - 1 {
        lemma_occurs_in_self(t);
        if prev.len() == 0 {
            assert(e + t + e =~= t);
            lemma_occurs_in_extended(t, t, e, e);
        } else {
            lemma_occurs_in_extended(t, t, prev + seq![' '], e);
            assert(prev + seq![' '] + t + e =~= prev + seq![' '] + t);
        }
    } else {
        lemma_word_occurs_in_joined(ts.drop_last(), i);
        assert(ts.drop_last()[i] == ts[i]);
        if t.len() == 0 {
        } else if prev.len() == 0 {
            assert(!occurs_in(ts[i], prev));
        } else {
            lemma_occurs_in_extended(ts[i], prev, e, seq![' '] + t);
            assert(e + prev + (seq![' '] + t) =~= prev + seq![' '] + t);
        }
    }
}

/// The node filter finds a node whose search text is up to date by its
/// reach and marks: `$direct` when it is heard directly, `$remote` when it
/// is one or more hops away, `$favorite` when it is a favorite, and
/// `$stored` or `$unknown` by whether its user is known.
pub proof fn law_filter_mark_words(node: Node, now: i64, has_telemetry: bool)
    requires
        node.has_fulltext(),
    ensures
        node.hops == Some(0u32) ==> word_passes(node, "$direct"@, now, has_telemetry),
        (node.hops matches Some(h) && h > 0) ==> word_passes(node, "$remote"@, now, has_telemetry),
        node.is_favorite ==> word_passes(node, "$favorite"@, now, has_telemetry),
        node.user is Some ==> word_passes(node, "$stored"@, now, has_telemetry),
        node.user is None ==> word_passes(node, "$unknown"@, now, has_telemetry),
{
    reveal_strlit("$direct");
    reveal_strlit("$remote");
    reveal_strlit("$favorite");
    reveal_strlit("$stored");
    reveal_strlit("$unknown");
    let ts = node.spec_fulltext_tokens();
    lemma_word_occurs_in_joined(ts, 5);
    lemma_word_occurs_in_joined(ts, 7);
    lemma_word_occurs_in_joined(ts, 10);
    lemma_plain_word(node, "$direct"@, now, has_telemetry);
    lemma_plain_word(node, "$remote"@, now, has_telemetry);
    lemma_plain_word(node, "$favorite"@, now, has_telemetry);
    lemma_plain_word(node, "$stored"@, now, has_telemetry);
    lemma_plain_word(node, "$unknown"@, now, has_telemetry);
}

/// In the node list, of two listed nodes, one that sorts strictly before the
/// other is listed earlier; so the user's own node, when listed, comes
/// first.
pub proof fn law_node_list_earlier_first(s: State, now: i64, keys: Seq<u32>, i: int, j: int)
    requires
        is_node_list_of(s, now, keys),
        0 <= i < keys.len(),
        0 <= j < keys.len(),
    ensures
        node_order(s.nodes@[keys[i]], s.nodes@[keys[j]], s.nodes_sort_by, s.my_node_key) < 0 ==> i < j,
        s.my_node_key == Some(keys[i]) && keys[j] != keys[i] && s.nodes@[keys[i]].key == keys[i]
            && s.nodes@[keys[j]].key == keys[j] ==> i < j,
{
    crate::nodes_view::lemma_node_order_antisymmetric(
        s.nodes@[keys[i]],
        s.nodes@[keys[j]],
        s.nodes_sort_by,
        s.my_node_key,
    );
    if j < i {
        assert(node_order(s.nodes@[keys[j]], s.nodes@[keys[i]], s.nodes_sort_by, s.my_node_key) <= 0);
    }
}

} // verus!
