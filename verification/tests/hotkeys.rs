use termtastic::chat_label::PartStyle;
use termtastic::hotkeys::{
    hints_line, channels_hotkeys, chat_list_hotkeys, connection_hotkeys, logs_hotkeys, messenger_hotkeys, nodeinfo_hotkeys,
    nodes_hotkeys, settings_hotkeys,
};
use termtastic::messenger::MessengerScreen;
use termtastic::screens::{ConnectionScreen, NodesScreen};
use termtastic::settings_screen::{Popup, SettingsScreen};
use termtastic::types::{FormId, Hotkey, SettingsFormState};
use termtastic::ui::NodeInfoTab;

fn pairs(hs: &[Hotkey]) -> Vec<(String, String)> {
    hs.iter().map(|h| (h.key.clone(), h.label.clone())).collect()
}

fn expect(list: &[(&str, &str)]) -> Vec<(String, String)> {
    list.iter().map(|(k, l)| (k.to_string(), l.to_string())).collect()
}

fn lines(ls: &[&str]) -> Vec<String> {
    ls.iter().map(|l| l.to_string()).collect()
}

#[test]
fn nodes_hints_follow_the_popups() {
    let plain = NodesScreen { is_emoji_selector_visible: false, is_filter_help_visible: false };
    assert_eq!(
        pairs(&nodes_hotkeys(&plain)),
        expect(&[
            ("↑↓", "scroll"),
            ("F1", "help"),
            ("enter (F4)", "node info"),
            ("F2", "direct"),
            ("F5", "emoji"),
            ("F6", "sort by"),
        ])
    );
    let emoji = NodesScreen { is_emoji_selector_visible: true, is_filter_help_visible: true };
    assert_eq!(pairs(&nodes_hotkeys(&emoji)), expect(&[("↑↓", "scroll"), ("enter", "insert"), ("esc", "close")]));
    let help = NodesScreen { is_emoji_selector_visible: false, is_filter_help_visible: true };
    assert_eq!(pairs(&nodes_hotkeys(&help)), expect(&[("↑↓", "scroll"), ("esc", "close")]));
}

#[test]
fn connection_hints_offer_removal_of_a_selected_device() {
    let s = ConnectionScreen { removing_device: None, is_discovery_popup_visible: false, is_tcp_form_visible: false };
    assert_eq!(
        pairs(&connection_hotkeys(&s, false, true)),
        expect(&[("↑↓", "scroll"), ("enter", "connect"), ("t", "add TCP"), ("d", "discover"), ("delete", "remove")])
    );
    assert_eq!(pairs(&connection_hotkeys(&s, false, false)).len(), 4);
    assert_eq!(pairs(&connection_hotkeys(&s, true, true)), expect(&[("esc", "disconnect")]));
    let tcp = ConnectionScreen { removing_device: None, is_discovery_popup_visible: false, is_tcp_form_visible: true };
    assert_eq!(pairs(&connection_hotkeys(&tcp, false, false)), expect(&[("enter", "submit"), ("esc", "cancel")]));
}

#[test]
fn settings_hints_by_form_state() {
    let s = SettingsScreen { is_exit_confirm_visible: false, popup: None };
    assert_eq!(
        pairs(&settings_hotkeys(&s, &SettingsFormState::Inactive, false, false)),
        expect(&[("↑↓", "scroll"), ("Enter", "open")])
    );
    assert_eq!(
        pairs(&settings_hotkeys(&s, &SettingsFormState::Loaded { id: FormId::RadioLora }, true, true)),
        expect(&[("↑↓", "scroll"), ("Enter", "edit"), ("s", "save"), ("r", "reset"), ("Esc", "return")])
    );
    assert_eq!(
        pairs(&settings_hotkeys(&s, &SettingsFormState::Loaded { id: FormId::RadioLora }, false, false)),
        expect(&[("↑↓", "scroll"), ("Esc", "return")])
    );
    let bits = SettingsScreen { is_exit_confirm_visible: false, popup: Some(Popup::BitMask) };
    assert_eq!(
        pairs(&settings_hotkeys(&bits, &SettingsFormState::Loaded { id: FormId::RadioLora }, true, false)),
        expect(&[("Space", "toggle"), ("Enter", "submit"), ("Esc", "cancel")])
    );
    assert!(settings_hotkeys(&s, &SettingsFormState::Saving { id: FormId::RadioLora }, true, true).is_empty());
    assert_eq!(
        pairs(&settings_hotkeys(&s, &SettingsFormState::Loading { id: FormId::RadioLora }, true, true)),
        expect(&[("Esc", "cancel")])
    );
}

#[test]
fn messenger_hints_while_browsing() {
    let s = MessengerScreen { is_reaction_viewer_visible: false, is_emoji_selector_visible: false };
    assert_eq!(
        pairs(&messenger_hotkeys(&s, false, &lines(&[""]), true, false)),
        expect(&[
            ("↑↓", "scroll"),
            ("F2", "reply"),
            ("F4", "node info"),
            ("F5", "emoji"),
            ("F7", "reactions"),
            ("esc", "switch channel"),
        ])
    );
    assert_eq!(
        pairs(&messenger_hotkeys(&s, false, &lines(&["hello"]), true, false)),
        expect(&[("alt+enter", "new line"), ("F5", "emoji"), ("enter", "send"), ("esc", "switch channel")])
    );
    assert_eq!(
        pairs(&messenger_hotkeys(&s, false, &lines(&["hello"]), false, true)),
        expect(&[("⌥ enter", "new line"), ("F5", "emoji"), ("enter", "send"), ("esc", "switch channel")])
    );
}

#[test]
fn messenger_hints_while_replying() {
    let s = MessengerScreen { is_reaction_viewer_visible: false, is_emoji_selector_visible: false };
    assert_eq!(
        pairs(&messenger_hotkeys(&s, true, &lines(&["👍"]), false, false)),
        expect(&[("alt+enter", "new line"), ("F5", "emoji"), ("enter", "send reaction"), ("esc", "cancel reply")])
    );
    assert_eq!(
        pairs(&messenger_hotkeys(&s, true, &lines(&["ok"]), false, false)),
        expect(&[("alt+enter", "new line"), ("F5", "emoji"), ("enter", "send reply"), ("esc", "cancel reply")])
    );
    assert_eq!(
        pairs(&messenger_hotkeys(&s, true, &lines(&["   "]), false, false)),
        expect(&[("alt+enter", "new line"), ("F5", "emoji"), ("esc", "cancel reply")])
    );
    let too_long = "x".repeat(201);
    assert_eq!(
        pairs(&messenger_hotkeys(&s, true, &lines(&[too_long.as_str()]), false, false)),
        expect(&[("alt+enter", "new line"), ("F5", "emoji"), ("esc", "cancel reply")])
    );
    let viewer = MessengerScreen { is_reaction_viewer_visible: true, is_emoji_selector_visible: true };
    assert_eq!(pairs(&messenger_hotkeys(&viewer, true, &lines(&["ok"]), true, false)), expect(&[("↑↓", "scroll"), ("esc", "close")]));
}

#[test]
fn list_and_window_hints() {
    assert_eq!(pairs(&chat_list_hotkeys()), expect(&[("↑↓", "scroll"), ("enter", "open"), ("delete", "purge chat")]));
    assert_eq!(pairs(&channels_hotkeys()), expect(&[("↑↓", "scroll"), ("enter", "open"), ("del", "purge chat")]));
    assert_eq!(pairs(&logs_hotkeys(true)), expect(&[("↑↓", "scroll"), ("c", "copy"), ("Esc", "close")]));
    assert_eq!(logs_hotkeys(false).len(), 5);
    assert_eq!(
        pairs(&nodeinfo_hotkeys(NodeInfoTab::Info, false)),
        expect(&[("esc", "close"), ("k", "copy public key"), ("delete", "remove")])
    );
    assert_eq!(pairs(&nodeinfo_hotkeys(NodeInfoTab::Info, true)), expect(&[("esc", "close"), ("k", "copy public key")]));
    assert_eq!(
        pairs(&nodeinfo_hotkeys(NodeInfoTab::Traceroutes, true)),
        expect(&[("esc", "close"), ("r", "run traceroute"), ("c", "copy")])
    );
    assert!(nodeinfo_hotkeys(NodeInfoTab::Position, true).is_empty());
}

#[test]
fn hints_line_spaces_the_hints() {
    let hs = vec![Hotkey::new("F1", "help"), Hotkey::new("esc", "close")];
    let parts: Vec<(String, PartStyle)> = hints_line(&hs).into_iter().map(|p| (p.text, p.style)).collect();
    assert_eq!(
        parts,
        vec![
            ("F1".to_string(), PartStyle::Plain),
            ("\u{00A0}".to_string(), PartStyle::Plain),
            ("help".to_string(), PartStyle::Dim),
            ("  ".to_string(), PartStyle::Plain),
            ("esc".to_string(), PartStyle::Plain),
            ("\u{00A0}".to_string(), PartStyle::Plain),
            ("close".to_string(), PartStyle::Dim),
            ("  ".to_string(), PartStyle::Plain),
        ]
    );
    assert!(hints_line(&vec![]).is_empty());
}
