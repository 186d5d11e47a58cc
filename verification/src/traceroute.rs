//! The hops of a traceroute, there and back, with the signal to noise
//! ratio measured at each.
use vstd::prelude::*;
use vstd::string::*;
use std::collections::HashMap;
use crate::node::{node_id_text, Node};
use crate::text::{hex_digits, push_char, push_hex};

verus! {

broadcast use vstd::std_specs::hash::group_hash_axioms;

/// The raw signal to noise ratio that stands for "not measured".
pub const SNR_UNKNOWN: i32 = -128;

/// A measured signal to noise ratio, in quarters of a decibel: `None` for
/// the value that stands for "not measured".
pub open spec fn spec_snr_q4(raw: i32) -> Option<i32> {
    if raw == SNR_UNKNOWN {
        None
    } else {
        Some(raw)
    }
}

pub fn snr_q4(raw: i32) -> (r: Option<i32>)
    ensures
        r == spec_snr_q4(raw),
{
    if raw == SNR_UNKNOWN {
        None
    } else {
        Some(raw)
    }
}

/// A hop of a route: the node and the signal to noise ratio it was reached
/// with, in quarters of a decibel.
#[derive(Debug, Clone, Copy, PartialEq, Eq, Structural)]
pub struct TracerouteHop {
    pub node: u32,
    pub snr_q4: Option<i32>,
}

/// The hops along `path`: the first one has no measurement, the one at
/// `i` the `i - 1`-th of `snrs`, if there is one.
pub open spec fn hops_along(path: Seq<u32>, snrs: Seq<i32>) -> Seq<TracerouteHop> {
    Seq::new(
        path.len(),
        |i: int|
            TracerouteHop {
                node: path[i],
                snr_q4: if i == 0 || i - 1 >= snrs.len() {
                    None
                } else {
                    spec_snr_q4(snrs[i - 1])
                },
            },
    )
}

/// The path from `start` over `middle` to `end`, the ends that are there.
pub open spec fn path_of(start: Option<u32>, middle: Seq<u32>, end: Option<u32>) -> Seq<u32> {
    let head: Seq<u32> = match start {
        Some(s) => seq![s],
        None => Seq::empty(),
    };
    let tail: Seq<u32> = match end {
        Some(e) => seq![e],
        None => Seq::empty(),
    };
    head + middle + tail
}

/// The hops along the path from `start` over `middle` to `end`.
pub fn route_hops(start: Option<u32>, middle: &Vec<u32>, end: Option<u32>, snrs: &Vec<i32>) -> (r: Vec<
    TracerouteHop,
>)
    ensures
        r@ == hops_along(path_of(start, middle@, end), snrs@),
{
    let mut path: Vec<u32> = Vec::new();
    match start {
        Some(s) => path.push(s),
        None => {},
    }
    let mut i: usize = 0;
    let ghost head = path@;
    while i < middle.len()
        invariant
            i <= middle.len(),
            path@ == head + middle@.take(i as int),
        decreases middle.len() - i,
    {
        path.push(middle[i]);
        proof {
            assert(middle@.take(i + 1) =~= middle@.take(i as int).push(middle@[i as int]));
        }
        i = i + 1;
    }
    match end {
        Some(e) => path.push(e),
        None => {},
    }
    proof {
        assert(middle@.take(middle.len() as int) =~= middle@);
        assert(path@ =~= path_of(start, middle@, end));
    }
    let ghost whole = path@;
    let mut r: Vec<TracerouteHop> = Vec::new();
    let mut j: usize = 0;
    while j < path.len()
        invariant
            j <= path.len(),
            path@ == whole,
            r@ =~= hops_along(whole, snrs@).take(j as int),
        decreases path.len() - j,
    {
        let snr = if j == 0 || j - 1 >= snrs.len() {
            None
        } else {
            snr_q4(snrs[j - 1])
        };
        r.push(TracerouteHop { node: path[j], snr_q4: snr });
        j = j + 1;
    }
    r
}

/// A group of the traceroute view: its title, the time of the traceroute
/// (seconds since the Unix epoch), the route's numbers as JSON text, and
/// the hops of the route.
#[derive(Debug, Clone, PartialEq, Eq)]
pub struct RouteGroup {
    pub title: &'static str,
    pub time: i64,
    pub text: String,
    pub hops: Vec<TracerouteHop>,
}

/// The pretty JSON text that `serde_json` makes of the object holding the
/// list `first` under `first_name` and the list `second` under
/// `second_name`; none when it fails.
pub uninterp spec fn lists_json(
    first_name: Seq<char>,
    first: Seq<u32>,
    second_name: Seq<char>,
    second: Seq<i32>,
) -> Option<Seq<char>>;

/// `serde_json::to_string_pretty` of the JSON object with the two lists
/// under the two names. The text is named, not written out; a failure
/// carries the message of its `serde_json::Error`, which is not stated.
#[verifier::external_body]
fn lists_json_text(first_name: &str, first: &Vec<u32>, second_name: &str, second: &Vec<i32>) -> (r: Result<
    String,
    String,
>)
    ensures
        r matches Ok(t) ==> lists_json(first_name@, first@, second_name@, second@) == Some(t@),
        r is Err ==> lists_json(first_name@, first@, second_name@, second@) is None,
{
    let mut m = serde_json::Map::new();
    m.insert(first_name.to_string(), serde_json::Value::from(first.clone()));
    m.insert(second_name.to_string(), serde_json::Value::from(second.clone()));
    serde_json::to_string_pretty(&serde_json::Value::Object(m)).map_err(|e| e.to_string())
}

/// The JSON text of a group, or `serialize failed` when there is none.
pub open spec fn json_or_failed(t: Option<Seq<char>>) -> Seq<char> {
    match t {
        Some(x) => x,
        None => "serialize failed"@,
    }
}

fn group_text(first_name: &str, first: &Vec<u32>, second_name: &str, second: &Vec<i32>) -> (r: String)
    ensures
        r@ == json_or_failed(lists_json(first_name@, first@, second_name@, second@)),
{
    match lists_json_text(first_name, first, second_name, second) {
        Ok(t) => t,
        Err(_) => {
            let r = "serialize failed".to_string();
            proof {
                reveal_strlit("serialize failed");
            }
            r
        },
    }
}

/// The groups of a traceroute to `node` from the user's node `my`: the
/// route there, from the user's node over `route` to the node; then, when
/// the answer carries a route or measurements back, the route back, from
/// the node over `route_back` to the user's node.
pub open spec fn spec_route_groups(
    my: Option<u32>,
    node: u32,
    route: Seq<u32>,
    snr_towards: Seq<i32>,
    route_back: Seq<u32>,
    snr_back: Seq<i32>,
) -> Seq<(&'static str, Seq<TracerouteHop>)> {
    let there = ("Route there", hops_along(path_of(my, route, Some(node)), snr_towards));
    if route_back.len() > 0 || snr_back.len() > 0 {
        seq![there, ("Route back", hops_along(path_of(Some(node), route_back, my), snr_back))]
    } else {
        seq![there]
    }
}

/// The texts of the groups of a traceroute: the route there and the
/// measurements towards the node as JSON, then, when there is a route
/// back, the route back and its measurements.
pub open spec fn spec_route_texts(
    route: Seq<u32>,
    snr_towards: Seq<i32>,
    route_back: Seq<u32>,
    snr_back: Seq<i32>,
) -> Seq<Seq<char>> {
    let there = json_or_failed(lists_json("route"@, route, "snr_towards"@, snr_towards));
    if route_back.len() > 0 || snr_back.len() > 0 {
        seq![there, json_or_failed(lists_json("route_back"@, route_back, "snr_back"@, snr_back))]
    } else {
        seq![there]
    }
}

/// The groups of the traceroute of `time` (see `spec_route_groups` and
/// `spec_route_texts`), each carrying the time.
pub fn route_groups(
    my: Option<u32>,
    node: u32,
    time: i64,
    route: &Vec<u32>,
    snr_towards: &Vec<i32>,
    route_back: &Vec<u32>,
    snr_back: &Vec<i32>,
) -> (r: Vec<RouteGroup>)
    ensures
        r@.map_values(|g: RouteGroup| (g.title, g.hops@)) == spec_route_groups(
            my,
            node,
            route@,
            snr_towards@,
            route_back@,
            snr_back@,
        ),
        r@.map_values(|g: RouteGroup| g.text@) == spec_route_texts(route@, snr_towards@, route_back@, snr_back@),
        forall|i: int| 0 <= i < r@.len() ==> (#[trigger] r@[i]).time == time,
{
    let mut r: Vec<RouteGroup> = Vec::new();
    let there_text = group_text("route", route, "snr_towards", snr_towards);
    r.push(
        RouteGroup {
            title: "Route there",
            time,
            text: there_text,
            hops: route_hops(my, route, Some(node), snr_towards),
        },
    );
    if route_back.len() > 0 || snr_back.len() > 0 {
        let back_text = group_text("route_back", route_back, "snr_back", snr_back);
        r.push(
            RouteGroup {
                title: "Route back",
                time,
                text: back_text,
                hops: route_hops(Some(node), route_back, my, snr_back),
            },
        );
    }
    proof {
        assert(r@.map_values(|g: RouteGroup| (g.title, g.hops@)) =~= spec_route_groups(
            my,
            node,
            route@,
            snr_towards@,
            route_back@,
            snr_back@,
        ));
        assert(r@.map_values(|g: RouteGroup| g.text@) =~= spec_route_texts(
            route@,
            snr_towards@,
            route_back@,
            snr_back@,
        ));
    }
    r
}

/// The latest traceroute to a node: when it was answered (seconds since the
/// Unix epoch), the nodes on the way there and back, and the signal to
/// noise ratios measured along each.
#[derive(Debug, Clone)]
pub struct NodeTraceroute {
    pub time: i64,
    pub route: Vec<u32>,
    pub snr_towards: Vec<i32>,
    pub route_back: Vec<u32>,
    pub snr_back: Vec<i32>,
}

/// The groups as titles and hops.
pub open spec fn groups_view(gs: Seq<RouteGroup>) -> Seq<(&'static str, Seq<TracerouteHop>)> {
    gs.map_values(|g: RouteGroup| (g.title, g.hops@))
}

/// Refreshes the traceroute groups the node window shows, for the node in
/// view `nodeinfo`, from the user's node `my` and that node's latest
/// traceroute. With no node in view nothing changes. With no traceroute of
/// the node the groups are cleared. Otherwise they become the groups of
/// the traceroute, with their texts and its time. Returns whether the
/// groups were changed.
pub fn update_nodeinfo_traceroute(
    shown: &mut Vec<RouteGroup>,
    nodeinfo: Option<u32>,
    my: Option<u32>,
    traceroute: Option<&NodeTraceroute>,
) -> (changed: bool)
    ensures
        nodeinfo is None ==> !changed && *final(shown) == *old(shown),
        nodeinfo is Some && traceroute is None ==> final(shown)@.len() == 0 && changed == (old(
            shown,
        )@.len() > 0),
        nodeinfo matches Some(node) ==> (traceroute matches Some(t) ==> changed && groups_view(final(shown)@)
            == spec_route_groups(my, node, t.route@, t.snr_towards@, t.route_back@, t.snr_back@)
            && final(shown)@.map_values(|g: RouteGroup| g.text@) == spec_route_texts(
            t.route@,
            t.snr_towards@,
            t.route_back@,
            t.snr_back@,
        ) && forall|i: int| 0 <= i < final(shown)@.len() ==> (#[trigger] final(shown)@[i]).time == t.time),
{
    let node = match nodeinfo {
        Some(n) => n,
        None => return false,
    };
    match traceroute {
        None => {
            if shown.len() == 0 {
                false
            } else {
                shown.clear();
                true
            }
        },
        Some(t) => {
            *shown = route_groups(my, node, t.time, &t.route, &t.snr_towards, &t.route_back, &t.snr_back);
            true
        },
    }
}

/// How a node of a route is shown: its long name and id when it is known,
/// otherwise `!` and its number in hexadecimal.
pub open spec fn spec_node_label(nodes: Map<u32, Node>, num: u32) -> Seq<char> {
    if nodes.contains_key(num) {
        nodes[num].spec_long_name() + " ("@ + node_id_text(nodes[num].key) + ")"@
    } else {
        seq!['!'] + hex_digits(num as nat)
    }
}

pub fn node_label(nodes: &HashMap<u32, Node>, num: u32) -> (r: String)
    ensures
        r@ == spec_node_label(nodes@, num),
{
    match nodes.get(&num) {
        Some(node) => {
            let mut s = node.long_name();
            s.append(" (");
            let id = node.id();
            s.append(id.as_str());
            s.append(")");
            s
        },
        None => {
            let mut s = String::new();
            push_char(&mut s, '!');
            push_hex(&mut s, num as u64);
            s
        },
    }
}

} // verus!
