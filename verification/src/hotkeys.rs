//! The hints of the keys each screen takes, as the footer shows them.
use vstd::prelude::*;
use vstd::string::*;
use crate::helpers::{text_char_len, trimmed_len, trimmed_lines_of};
use crate::messenger::{emoji_glyph, is_empty_text, lines_empty, lookup_emoji, MessengerScreen, INPUT_VALUE_MAX_LENGTH};
use crate::screens::{ConnectionScreen, NodesScreen};
use crate::settings_screen::{Popup, SettingsScreen};
use crate::text::views;
use crate::types::{Hotkey, SettingsFormState};
use crate::ui::NodeInfoTab;
use crate::chat_label::{parts_view, LabelPart, PartStyle};

verus! {

/// The hints as key and label texts.
pub open spec fn hints_of(hs: Seq<Hotkey>) -> Seq<(Seq<char>, Seq<char>)> {
    hs.map_values(|h: Hotkey| (h.key@, h.label@))
}

/// A hint by its key and label.
pub open spec fn hint(key: &str, label: &str) -> (Seq<char>, Seq<char>) {
    (key@, label@)
}

/// The hint when `b` holds, nothing otherwise.
pub open spec fn when(b: bool, h: (Seq<char>, Seq<char>)) -> Seq<(Seq<char>, Seq<char>)> {
    if b {
        seq![h]
    } else {
        Seq::empty()
    }
}

fn push_hint(hs: &mut Vec<Hotkey>, key: &str, label: &str)
    ensures
        hints_of(final(hs)@) == hints_of(old(hs)@).push(hint(key, label)),
{
    let ghost before = hs@;
    hs.push(Hotkey::new(key, label));
    assert(hints_of(hs@) =~= hints_of(before).push(hint(key, label)));
}

fn push_hint_when(hs: &mut Vec<Hotkey>, b: bool, key: &str, label: &str)
    ensures
        hints_of(final(hs)@) == hints_of(old(hs)@) + when(b, hint(key, label)),
{
    if b {
        push_hint(hs, key, label);
    } else {
        assert(hints_of(hs@) + when(b, hint(key, label)) =~= hints_of(hs@));
    }
}

/// The hints of the node screen.
pub open spec fn spec_nodes_hints(s: NodesScreen) -> Seq<(Seq<char>, Seq<char>)> {
    if s.is_emoji_selector_visible {
        seq![hint("↑↓", "scroll"), hint("enter", "insert"), hint("esc", "close")]
    } else if s.is_filter_help_visible {
        seq![hint("↑↓", "scroll"), hint("esc", "close")]
    } else {
        seq![
            hint("↑↓", "scroll"),
            hint("F1", "help"),
            hint("enter (F4)", "node info"),
            hint("F2", "direct"),
            hint("F5", "emoji"),
            hint("F6", "sort by"),
        ]
    }
}

pub fn nodes_hotkeys(s: &NodesScreen) -> (r: Vec<Hotkey>)
    ensures
        hints_of(r@) == spec_nodes_hints(*s),
{
    let mut r: Vec<Hotkey> = Vec::new();
    push_hint(&mut r, "↑↓", "scroll");
    if s.is_emoji_selector_visible {
        push_hint(&mut r, "enter", "insert");
        push_hint(&mut r, "esc", "close");
    } else if s.is_filter_help_visible {
        push_hint(&mut r, "esc", "close");
    } else {
        push_hint(&mut r, "F1", "help");
        push_hint(&mut r, "enter (F4)", "node info");
        push_hint(&mut r, "F2", "direct");
        push_hint(&mut r, "F5", "emoji");
        push_hint(&mut r, "F6", "sort by");
    }
    r
}

/// The hints of the connection screen, given whether a device is in use and
/// whether a device of the list is selected.
pub open spec fn spec_connection_hints(s: ConnectionScreen, device_active: bool, selected: bool) -> Seq<
    (Seq<char>, Seq<char>),
> {
    if device_active {
        seq![hint("esc", "disconnect")]
    } else if s.is_tcp_form_visible {
        seq![hint("enter", "submit"), hint("esc", "cancel")]
    } else if s.is_discovery_popup_visible {
        seq![hint("enter", "select"), hint("esc", "close")]
    } else {
        seq![hint("↑↓", "scroll"), hint("enter", "connect"), hint("t", "add TCP"), hint("d", "discover")] + when(
            selected,
            hint("delete", "remove"),
        )
    }
}

pub fn connection_hotkeys(s: &ConnectionScreen, device_active: bool, selected: bool) -> (r: Vec<Hotkey>)
    ensures
        hints_of(r@) == spec_connection_hints(*s, device_active, selected),
{
    let mut r: Vec<Hotkey> = Vec::new();
    if device_active {
        push_hint(&mut r, "esc", "disconnect");
    } else if s.is_tcp_form_visible {
        push_hint(&mut r, "enter", "submit");
        push_hint(&mut r, "esc", "cancel");
    } else if s.is_discovery_popup_visible {
        push_hint(&mut r, "enter", "select");
        push_hint(&mut r, "esc", "close");
    } else {
        push_hint(&mut r, "↑↓", "scroll");
        push_hint(&mut r, "enter", "connect");
        push_hint(&mut r, "t", "add TCP");
        push_hint(&mut r, "d", "discover");
        push_hint_when(&mut r, selected, "delete", "remove");
    }
    r
}

/// The hints of the settings screen, given the state of the form, whether
/// a field is selected and whether the form was changed.
pub open spec fn spec_settings_hints(
    s: SettingsScreen,
    form_state: SettingsFormState,
    field_selected: bool,
    is_changed: bool,
) -> Seq<(Seq<char>, Seq<char>)> {
    match form_state {
        SettingsFormState::Inactive => seq![hint("↑↓", "scroll"), hint("Enter", "open")],
        SettingsFormState::Loading { .. } => seq![hint("Esc", "cancel")],
        SettingsFormState::LoadingFailed { .. } => seq![hint("Esc", "return")],
        SettingsFormState::Loaded { .. } => match s.popup {
            Some(Popup::Input) => seq![hint("Enter", "submit"), hint("Esc", "cancel")],
            Some(Popup::Choices) => seq![hint("Enter", "select"), hint("Esc", "cancel")],
            Some(Popup::BitMask) => seq![hint("Space", "toggle"), hint("Enter", "submit"), hint("Esc", "cancel")],
            None => seq![hint("↑↓", "scroll")] + when(field_selected, hint("Enter", "edit")) + when(
                is_changed,
                hint("s", "save"),
            ) + when(is_changed, hint("r", "reset")) + seq![hint("Esc", "return")],
        },
        SettingsFormState::Saving { .. } => Seq::empty(),
    }
}

pub fn settings_hotkeys(
    s: &SettingsScreen,
    form_state: &SettingsFormState,
    field_selected: bool,
    is_changed: bool,
) -> (r: Vec<Hotkey>)
    ensures
        hints_of(r@) == spec_settings_hints(*s, *form_state, field_selected, is_changed),
{
    let mut r: Vec<Hotkey> = Vec::new();
    match form_state {
        SettingsFormState::Inactive => {
            push_hint(&mut r, "↑↓", "scroll");
            push_hint(&mut r, "Enter", "open");
        },
        SettingsFormState::Loading { .. } => {
            push_hint(&mut r, "Esc", "cancel");
        },
        SettingsFormState::LoadingFailed { .. } => {
            push_hint(&mut r, "Esc", "return");
        },
        SettingsFormState::Loaded { .. } => match s.popup {
            Some(Popup::Input) => {
                push_hint(&mut r, "Enter", "submit");
                push_hint(&mut r, "Esc", "cancel");
            },
            Some(Popup::Choices) => {
                push_hint(&mut r, "Enter", "select");
                push_hint(&mut r, "Esc", "cancel");
            },
            Some(Popup::BitMask) => {
                push_hint(&mut r, "Space", "toggle");
                push_hint(&mut r, "Enter", "submit");
                push_hint(&mut r, "Esc", "cancel");
            },
            None => {
                push_hint(&mut r, "↑↓", "scroll");
                push_hint_when(&mut r, field_selected, "Enter", "edit");
                push_hint_when(&mut r, is_changed, "s", "save");
                push_hint_when(&mut r, is_changed, "r", "reset");
                push_hint(&mut r, "Esc", "return");
            },
        },
        SettingsFormState::Saving { .. } => {},
    }
    r
}

/// The key that starts a new line in a message, as the platform names it.
pub open spec fn newline_key(macos: bool) -> &'static str {
    if macos {
        "⌥ enter"
    } else {
        "alt+enter"
    }
}

/// The hints of the chat screen, given whether a message is being
/// answered, the typed lines, whether a message is selected, and whether
/// the platform is macOS.
pub open spec fn spec_messenger_hints(
    s: MessengerScreen,
    replying: bool,
    lines: Seq<Seq<char>>,
    message_selected: bool,
    macos: bool,
) -> Seq<(Seq<char>, Seq<char>)> {
    let single_emoji = lines.len() == 1 && emoji_glyph(lines[0]) is Some;
    let valid = 1 <= text_char_len(trimmed_lines_of(lines)) <= INPUT_VALUE_MAX_LENGTH;
    let something = !lines_empty(lines);
    let browsing = message_selected && !something;
    if s.is_reaction_viewer_visible {
        seq![hint("↑↓", "scroll"), hint("esc", "close")]
    } else if s.is_emoji_selector_visible {
        seq![hint("↑↓", "scroll"), hint("enter", "insert"), hint("esc", "close")]
    } else if replying {
        when(something, hint(newline_key(macos), "new line")) + seq![hint("F5", "emoji")] + when(
            single_emoji,
            hint("enter", "send reaction"),
        ) + when(!single_emoji && valid, hint("enter", "send reply")) + seq![hint("esc", "cancel reply")]
    } else {
        when(something, hint(newline_key(macos), "new line")) + when(!something, hint("↑↓", "scroll")) + when(
            browsing,
            hint("F2", "reply"),
        ) + when(browsing, hint("F4", "node info")) + seq![hint("F5", "emoji")] + when(
            browsing,
            hint("F7", "reactions"),
        ) + when(valid, hint("enter", "send")) + seq![hint("esc", "switch channel")]
    }
}

pub fn messenger_hotkeys(
    s: &MessengerScreen,
    replying: bool,
    lines: &Vec<String>,
    message_selected: bool,
    macos: bool,
) -> (r: Vec<Hotkey>)
    ensures
        hints_of(r@) == spec_messenger_hints(*s, replying, views(lines@), message_selected, macos),
{
    let mut r: Vec<Hotkey> = Vec::new();
    if s.is_reaction_viewer_visible {
        push_hint(&mut r, "↑↓", "scroll");
        push_hint(&mut r, "esc", "close");
        return r;
    }
    if s.is_emoji_selector_visible {
        push_hint(&mut r, "↑↓", "scroll");
        push_hint(&mut r, "enter", "insert");
        push_hint(&mut r, "esc", "close");
        return r;
    }
    let single_emoji = lines.len() == 1 && lookup_emoji(lines[0].as_str()).is_some();
    let n = trimmed_len(lines);
    let valid = 1 <= n && n <= INPUT_VALUE_MAX_LENGTH;
    let something = !is_empty_text(lines);
    let browsing = message_selected && !something;
    let newline: &str = if macos {
        "⌥ enter"
    } else {
        "alt+enter"
    };
    proof {
        assert(views(lines@).len() == lines@.len());
        if lines@.len() == 1 {
            assert(views(lines@)[0] == lines@[0]@);
        }
    }
    if replying {
        push_hint_when(&mut r, something, newline, "new line");
        push_hint(&mut r, "F5", "emoji");
        push_hint_when(&mut r, single_emoji, "enter", "send reaction");
        push_hint_when(&mut r, !single_emoji && valid, "enter", "send reply");
        push_hint(&mut r, "esc", "cancel reply");
    } else {
        push_hint_when(&mut r, something, newline, "new line");
        push_hint_when(&mut r, !something, "↑↓", "scroll");
        push_hint_when(&mut r, browsing, "F2", "reply");
        push_hint_when(&mut r, browsing, "F4", "node info");
        push_hint(&mut r, "F5", "emoji");
        push_hint_when(&mut r, browsing, "F7", "reactions");
        push_hint_when(&mut r, valid, "enter", "send");
        push_hint(&mut r, "esc", "switch channel");
    }
    assert(hints_of(r@) =~= spec_messenger_hints(*s, replying, views(lines@), message_selected, macos));
    r
}

/// The hints of the chat list, when no chat is open.
pub open spec fn spec_chat_list_hints() -> Seq<(Seq<char>, Seq<char>)> {
    seq![hint("↑↓", "scroll"), hint("enter", "open"), hint("delete", "purge chat")]
}

pub fn chat_list_hotkeys() -> (r: Vec<Hotkey>)
    ensures
        hints_of(r@) == spec_chat_list_hints(),
{
    let mut r: Vec<Hotkey> = Vec::new();
    push_hint(&mut r, "↑↓", "scroll");
    push_hint(&mut r, "enter", "open");
    push_hint(&mut r, "delete", "purge chat");
    r
}

/// The hints of the channel list.
pub open spec fn spec_channels_hints() -> Seq<(Seq<char>, Seq<char>)> {
    seq![hint("↑↓", "scroll"), hint("enter", "open"), hint("del", "purge chat")]
}

pub fn channels_hotkeys() -> (r: Vec<Hotkey>)
    ensures
        hints_of(r@) == spec_channels_hints(),
{
    let mut r: Vec<Hotkey> = Vec::new();
    push_hint(&mut r, "↑↓", "scroll");
    push_hint(&mut r, "enter", "open");
    push_hint(&mut r, "del", "purge chat");
    r
}

/// The hints of the log screen, given whether a record is open in a popup.
pub open spec fn spec_logs_hints(record_open: bool) -> Seq<(Seq<char>, Seq<char>)> {
    if record_open {
        seq![hint("↑↓", "scroll"), hint("c", "copy"), hint("Esc", "close")]
    } else {
        seq![
            hint("↑↓", "scroll"),
            hint("Enter", "expand"),
            hint("c", "copy"),
            hint("Home", "to top"),
            hint("End", "to bottom"),
        ]
    }
}

pub fn logs_hotkeys(record_open: bool) -> (r: Vec<Hotkey>)
    ensures
        hints_of(r@) == spec_logs_hints(record_open),
{
    let mut r: Vec<Hotkey> = Vec::new();
    push_hint(&mut r, "↑↓", "scroll");
    if record_open {
        push_hint(&mut r, "c", "copy");
        push_hint(&mut r, "Esc", "close");
    } else {
        push_hint(&mut r, "Enter", "expand");
        push_hint(&mut r, "c", "copy");
        push_hint(&mut r, "Home", "to top");
        push_hint(&mut r, "End", "to bottom");
    }
    r
}

/// The hints of the node information window, given its tab and whether the
/// node shown is the user's own.
pub open spec fn spec_nodeinfo_hints(tab: NodeInfoTab, is_my_node: bool) -> Seq<(Seq<char>, Seq<char>)> {
    match tab {
        NodeInfoTab::Info => seq![hint("esc", "close"), hint("k", "copy public key")] + when(
            !is_my_node,
            hint("delete", "remove"),
        ),
        NodeInfoTab::Telemetry => seq![hint("esc", "close"), hint("c", "copy")],
        NodeInfoTab::Traceroutes => seq![hint("esc", "close"), hint("r", "run traceroute"), hint("c", "copy")],
        NodeInfoTab::Position => Seq::empty(),
    }
}

pub fn nodeinfo_hotkeys(tab: NodeInfoTab, is_my_node: bool) -> (r: Vec<Hotkey>)
    ensures
        hints_of(r@) == spec_nodeinfo_hints(tab, is_my_node),
{
    let mut r: Vec<Hotkey> = Vec::new();
    match tab {
        NodeInfoTab::Info => {
            push_hint(&mut r, "esc", "close");
            push_hint(&mut r, "k", "copy public key");
            push_hint_when(&mut r, !is_my_node, "delete", "remove");
        },
        NodeInfoTab::Telemetry => {
            push_hint(&mut r, "esc", "close");
            push_hint(&mut r, "c", "copy");
        },
        NodeInfoTab::Traceroutes => {
            push_hint(&mut r, "esc", "close");
            push_hint(&mut r, "r", "run traceroute");
            push_hint(&mut r, "c", "copy");
        },
        NodeInfoTab::Position => {},
    }
    r
}

/// The parts of the hints line: each key, a no-break space, its label
/// (dim), and two spaces.
pub open spec fn spec_hints_line(hs: Seq<(Seq<char>, Seq<char>)>) -> Seq<(Seq<char>, PartStyle)>
    decreases hs.len(),
{
    if hs.len() == 0 {
        Seq::empty()
    } else {
        spec_hints_line(hs.drop_last()) + seq![
            (hs.last().0, PartStyle::Plain),
            (seq!['\u{00A0}'], PartStyle::Plain),
            (hs.last().1, PartStyle::Dim),
            (seq![' ', ' '], PartStyle::Plain),
        ]
    }
}

fn text_part(t: &str, style: PartStyle) -> (r: LabelPart)
    ensures
        r.text@ == t@,
        r.style == style,
{
    let mut s = String::new();
    s.append(t);
    LabelPart { text: s, style }
}

/// The line of hints under the screen.
pub fn hints_line(hs: &Vec<Hotkey>) -> (r: Vec<LabelPart>)
    ensures
        parts_view(r@) == spec_hints_line(hints_of(hs@)),
{
    let ghost all = hints_of(hs@);
    let mut r: Vec<LabelPart> = Vec::new();
    let mut i: usize = 0;
    while i < hs.len()
        invariant
            0 <= i <= hs.len(),
            all == hints_of(hs@),
            parts_view(r@) == spec_hints_line(all.take(i as int)),
        decreases hs.len() - i,
    {
        let ghost before = parts_view(r@);
        r.push(text_part(hs[i].key.as_str(), PartStyle::Plain));
        r.push(text_part("\u{00A0}", PartStyle::Plain));
        r.push(text_part(hs[i].label.as_str(), PartStyle::Dim));
        r.push(text_part("  ", PartStyle::Plain));
        proof {
            reveal_strlit("\u{00A0}");
            reveal_strlit("  ");
            assert("\u{00A0}"@ =~= seq!['\u{00A0}']);
            assert("  "@ =~= seq![' ', ' ']);
            assert(all.take(i + 1).drop_last() =~= all.take(i as int));
            assert(all.take(i + 1).last() == all[i as int]);
            assert(parts_view(r@) =~= spec_hints_line(all.take(i + 1)));
        }
        i = i + 1;
    }
    proof {
        assert(all.take(hs.len() as int) =~= all);
    }
    r
}

} // verus!
