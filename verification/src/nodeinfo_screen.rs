//! What the node information window does with the keys: its tabs, the
//! confirmation before a node is removed, the lists of telemetry and
//! traceroutes, and what it asks the application for.
use vstd::prelude::*;
use crate::input::{base64_encode, base64_text};
use crate::screens::{is_plain, list_move, spec_list_move, Input, Key, ListMove};
use crate::ui::NodeInfoTab;

verus! {

/// What the window asks of the application.
#[derive(Debug, Clone, PartialEq, Eq)]
pub enum NodeInfoRequest {
    Close,
    Copy(String),
    DeleteNode,
    Traceroute,
}

/// A request as plain values.
pub enum Requested {
    Close,
    Copy(Seq<char>),
    DeleteNode,
    Traceroute,
}

impl NodeInfoRequest {
    pub open spec fn spec_requested(self) -> Requested {
        match self {
            NodeInfoRequest::Close => Requested::Close,
            NodeInfoRequest::Copy(t) => Requested::Copy(t@),
            NodeInfoRequest::DeleteNode => Requested::DeleteNode,
            NodeInfoRequest::Traceroute => Requested::Traceroute,
        }
    }
}

/// The request of a step, as plain values.
pub open spec fn requested_of(r: Option<NodeInfoRequest>) -> Option<Requested> {
    match r {
        Some(q) => Some(q.spec_requested()),
        None => None,
    }
}

/// The state of the window: the open tab, and whether the removal of the
/// node waits for confirmation.
#[derive(Debug, Clone, Copy, PartialEq, Eq, Structural)]
pub struct NodeInfoScreen {
    pub active_tab: NodeInfoTab,
    pub is_delete_node_popup_visible: bool,
}

/// What one input did: whether the window used it, what it asks for, and
/// how the list of the open tab moves.
pub struct NodeInfoStep {
    pub handled: bool,
    pub request: Option<NodeInfoRequest>,
    pub list_move: Option<ListMove>,
}

/// What the window shows of the node and its lists: the node's public key
/// when the node has a user, the number of telemetry rows and, when a row
/// is selected, the text it copies (`None` for a row with nothing to
/// copy), and the number of traceroute rows and the text of the selected
/// one when it is a traceroute.
pub struct NodeInfoView {
    pub public_key: Option<Vec<u8>>,
    pub telemetry_count: usize,
    pub selected_telemetry: Option<Option<String>>,
    pub traceroute_count: usize,
    pub selected_traceroute: Option<String>,
}

/// The tab at position `i` of the display order.
pub open spec fn tab_at(i: int) -> NodeInfoTab {
    if i == 0 {
        NodeInfoTab::Info
    } else if i == 1 {
        NodeInfoTab::Traceroutes
    } else if i == 2 {
        NodeInfoTab::Position
    } else {
        NodeInfoTab::Telemetry
    }
}

pub open spec fn opt_view(o: Option<String>) -> Option<Seq<char>> {
    match o {
        Some(t) => Some(t@),
        None => None,
    }
}

/// The window after an input, whether it used the input, what it asks for
/// and how the open tab's list moves.
pub open spec fn spec_nodeinfo_step(s: NodeInfoScreen, input: Input, view: NodeInfoView) -> (
    NodeInfoScreen,
    bool,
    Option<Requested>,
    Option<ListMove>,
) {
    let hidden = NodeInfoScreen { is_delete_node_popup_visible: false, ..s };
    let tab = s.active_tab;
    if s.is_delete_node_popup_visible {
        if is_plain(input, Key::Enter) {
            (hidden, true, Some(Requested::DeleteNode), None)
        } else if is_plain(input, Key::Esc) {
            (hidden, true, None, None)
        } else {
            (s, true, None, None)
        }
    } else if tab == NodeInfoTab::Telemetry && spec_list_move(input, view.telemetry_count) is Some {
        (s, true, None, spec_list_move(input, view.telemetry_count))
    } else if tab == NodeInfoTab::Traceroutes && spec_list_move(input, view.traceroute_count) is Some {
        (s, true, None, spec_list_move(input, view.traceroute_count))
    } else if is_plain(input, Key::Tab) {
        (NodeInfoScreen { active_tab: tab_at((tab.spec_index() + 1) % 4), ..s }, true, None, None)
    } else if input matches Input::Press { key: Key::BackTab, .. } {
        (NodeInfoScreen { active_tab: tab_at((tab.spec_index() + 3) % 4), ..s }, true, None, None)
    } else if tab == NodeInfoTab::Info && is_plain(input, Key::Char('k')) && view.public_key is Some {
        (s, true, Some(Requested::Copy(base64_text(view.public_key->0@))), None)
    } else if tab == NodeInfoTab::Info && (is_plain(input, Key::Delete) || is_plain(input, Key::Backspace)) {
        (NodeInfoScreen { is_delete_node_popup_visible: true, ..s }, true, None, None)
    } else if tab == NodeInfoTab::Telemetry && is_plain(input, Key::Char('c'))
        && view.selected_telemetry is Some {
        (
            s,
            true,
            match opt_view(view.selected_telemetry->0) {
                Some(t) => Some(Requested::Copy(t)),
                None => None,
            },
            None,
        )
    } else if tab == NodeInfoTab::Traceroutes && is_plain(input, Key::Char('r')) {
        (s, true, Some(Requested::Traceroute), None)
    } else if tab == NodeInfoTab::Traceroutes && is_plain(input, Key::Char('c'))
        && view.selected_traceroute is Some {
        (s, true, Some(Requested::Copy(view.selected_traceroute->0@)), None)
    } else if is_plain(input, Key::Esc) {
        (s, true, Some(Requested::Close), None)
    } else {
        (s, false, None, None)
    }
}

/// The key of a press with no modifier key held.
fn plain_key(input: &Input) -> (r: Option<Key>)
    ensures
        forall|k: Key| #[trigger] is_plain(*input, k) <==> r == Some(k),
{
    match input {
        Input::Press { key, plain, .. } => if *plain {
            Some(*key)
        } else {
            None
        },
        _ => None,
    }
}

impl NodeInfoScreen {
    pub fn new() -> (r: NodeInfoScreen)
        ensures
            r.active_tab == NodeInfoTab::Info,
            !r.is_delete_node_popup_visible,
    {
        NodeInfoScreen { active_tab: NodeInfoTab::Info, is_delete_node_popup_visible: false }
    }

    /// What the window does with an input. While the removal waits for
    /// confirmation, enter asks for it and escape drops it, and the window
    /// takes every input. Otherwise the list of the telemetry or traceroute
    /// tab moves by the navigation keys; tab and shift+tab go to the next
    /// and previous tab; on the info tab, k copies the node's public key as
    /// base64 and delete or backspace asks to confirm the removal; c copies
    /// the selected row of the telemetry or traceroute list; r asks for a
    /// traceroute; escape closes the window.
    pub fn handle_input(&mut self, input: &Input, view: &NodeInfoView) -> (r: NodeInfoStep)
        ensures
            ({
                let (s, handled, request, moved) = spec_nodeinfo_step(*old(self), *input, *view);
                &&& *final(self) == s
                &&& r.handled == handled
                &&& requested_of(r.request) == request
                &&& r.list_move == moved
            }),
    {
        let key = plain_key(input);
        let tab = self.active_tab;
        let none = NodeInfoStep { handled: true, request: None, list_move: None };
        if self.is_delete_node_popup_visible {
            if key == Some(Key::Enter) {
                self.is_delete_node_popup_visible = false;
                return NodeInfoStep { handled: true, request: Some(NodeInfoRequest::DeleteNode), list_move: None };
            } else if key == Some(Key::Esc) {
                self.is_delete_node_popup_visible = false;
            }
            return none;
        }
        if tab == NodeInfoTab::Telemetry {
            let m = list_move(input, view.telemetry_count);
            if m.is_some() {
                return NodeInfoStep { handled: true, request: None, list_move: m };
            }
        }
        if tab == NodeInfoTab::Traceroutes {
            let m = list_move(input, view.traceroute_count);
            if m.is_some() {
                return NodeInfoStep { handled: true, request: None, list_move: m };
            }
        }
        if key == Some(Key::Tab) {
            self.active_tab = tab.next();
            return none;
        }
        if let Input::Press { key: Key::BackTab, .. } = input {
            self.active_tab = tab.prev();
            return none;
        }
        if tab == NodeInfoTab::Info && key == Some(Key::Char('k')) {
            if let Some(public_key) = &view.public_key {
                let text = base64_encode(public_key.as_slice());
                return NodeInfoStep { handled: true, request: Some(NodeInfoRequest::Copy(text)), list_move: None };
            }
        }
        if tab == NodeInfoTab::Info && (key == Some(Key::Delete) || key == Some(Key::Backspace)) {
            self.is_delete_node_popup_visible = true;
            return none;
        }
        if tab == NodeInfoTab::Telemetry && key == Some(Key::Char('c')) {
            if let Some(row) = &view.selected_telemetry {
                return match row {
                    Some(t) => NodeInfoStep {
                        handled: true,
                        request: Some(NodeInfoRequest::Copy(t.clone())),
                        list_move: None,
                    },
                    None => none,
                };
            }
        }
        if tab == NodeInfoTab::Traceroutes && key == Some(Key::Char('r')) {
            return NodeInfoStep { handled: true, request: Some(NodeInfoRequest::Traceroute), list_move: None };
        }
        if tab == NodeInfoTab::Traceroutes && key == Some(Key::Char('c')) {
            if let Some(json) = &view.selected_traceroute {
                return NodeInfoStep {
                    handled: true,
                    request: Some(NodeInfoRequest::Copy(json.clone())),
                    list_move: None,
                };
            }
        }
        if key == Some(Key::Esc) {
            return NodeInfoStep { handled: true, request: Some(NodeInfoRequest::Close), list_move: None };
        }
        NodeInfoStep { handled: false, request: None, list_move: None }
    }
}

} // verus!
