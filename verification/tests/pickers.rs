use termtastic::chat::Chat;
use termtastic::events::AppEvent;
use termtastic::nodeinfo_screen::{NodeInfoRequest, NodeInfoScreen, NodeInfoView};
use termtastic::pickers::{ChatListScreen, EmojiPicker, LogsScreen, RecordScroll};
use termtastic::screens::{Input, Key, ListMove};
use termtastic::ui::NodeInfoTab;

fn press(key: Key) -> Input {
    Input::Press { key, plain: true, ctrl: false, shift: false }
}

fn ctrl(key: Key) -> Input {
    Input::Press { key, plain: false, ctrl: true, shift: false }
}

fn view() -> NodeInfoView {
    NodeInfoView {
        public_key: Some(vec![1, 2, 3]),
        telemetry_count: 4,
        selected_telemetry: Some(Some("{\"voltage\":4.1}".to_string())),
        traceroute_count: 2,
        selected_traceroute: Some("{\"route\":[]}".to_string()),
    }
}

#[test]
fn nodeinfo_tabs_cycle() {
    let mut s = NodeInfoScreen::new();
    assert!(s.handle_input(&press(Key::Tab), &view()).handled);
    assert_eq!(s.active_tab, NodeInfoTab::Traceroutes);
    s.handle_input(&press(Key::BackTab), &view());
    s.handle_input(&press(Key::BackTab), &view());
    assert_eq!(s.active_tab, NodeInfoTab::Telemetry);
    s.handle_input(&press(Key::Tab), &view());
    assert_eq!(s.active_tab, NodeInfoTab::Info);
}

#[test]
fn nodeinfo_copies_the_public_key_as_base64() {
    let mut s = NodeInfoScreen::new();
    let r = s.handle_input(&press(Key::Char('k')), &view());
    assert!(r.handled);
    assert_eq!(r.request, Some(NodeInfoRequest::Copy("AQID".to_string())));
    let no_user = NodeInfoView { public_key: None, ..view() };
    let r = s.handle_input(&press(Key::Char('k')), &no_user);
    assert!(!r.handled);
    assert_eq!(r.request, None);
}

#[test]
fn nodeinfo_removal_waits_for_confirmation() {
    let mut s = NodeInfoScreen::new();
    s.handle_input(&press(Key::Delete), &view());
    assert!(s.is_delete_node_popup_visible);
    let r = s.handle_input(&press(Key::Char('x')), &view());
    assert!(r.handled && r.request.is_none() && s.is_delete_node_popup_visible);
    let r = s.handle_input(&press(Key::Enter), &view());
    assert_eq!(r.request, Some(NodeInfoRequest::DeleteNode));
    assert!(!s.is_delete_node_popup_visible);
    s.handle_input(&press(Key::Backspace), &view());
    let r = s.handle_input(&press(Key::Esc), &view());
    assert_eq!(r.request, None);
    assert!(!s.is_delete_node_popup_visible);
}

#[test]
fn nodeinfo_lists_and_copies() {
    let mut s = NodeInfoScreen { active_tab: NodeInfoTab::Telemetry, is_delete_node_popup_visible: false };
    assert_eq!(s.handle_input(&press(Key::End), &view()).list_move, Some(ListMove::Select(3)));
    let r = s.handle_input(&press(Key::Char('c')), &view());
    assert_eq!(r.request, Some(NodeInfoRequest::Copy("{\"voltage\":4.1}".to_string())));
    let nothing = NodeInfoView { selected_telemetry: Some(None), ..view() };
    let r = s.handle_input(&press(Key::Char('c')), &nothing);
    assert!(r.handled && r.request.is_none());
    let unselected = NodeInfoView { selected_telemetry: None, ..view() };
    assert!(!s.handle_input(&press(Key::Char('c')), &unselected).handled);
    let mut t = NodeInfoScreen { active_tab: NodeInfoTab::Traceroutes, is_delete_node_popup_visible: false };
    assert_eq!(t.handle_input(&press(Key::Char('r')), &view()).request, Some(NodeInfoRequest::Traceroute));
    assert_eq!(
        t.handle_input(&press(Key::Char('c')), &view()).request,
        Some(NodeInfoRequest::Copy("{\"route\":[]}".to_string()))
    );
    assert_eq!(t.handle_input(&Input::ScrollDown, &view()).list_move, Some(ListMove::Next));
    assert_eq!(t.handle_input(&press(Key::Esc), &view()).request, Some(NodeInfoRequest::Close));
    assert!(!t.handle_input(&ctrl(Key::Esc), &view()).handled);
}

#[test]
fn chat_list_opens_and_purges() {
    let chats = vec![Chat::Channel(0), Chat::Direct(7)];
    let mut s = ChatListScreen::new();
    assert_eq!(s.handle_input(&press(Key::Down), &chats, Some(0)).list_move, Some(ListMove::Next));
    let r = s.handle_input(&press(Key::Enter), &chats, Some(1));
    assert!(matches!(r.event, Some(AppEvent::ChatSelected(Chat::Direct(7)))));
    let r = s.handle_input(&press(Key::Enter), &chats, None);
    assert!(r.handled && r.event.is_none());
    s.handle_input(&press(Key::Delete), &chats, Some(0));
    assert_eq!(s.chat_purge, Some(Chat::Channel(0)));
    let r = s.handle_input(&press(Key::Up), &chats, Some(0));
    assert!(r.handled && r.list_move.is_none());
    let r = s.handle_input(&press(Key::Enter), &chats, Some(0));
    assert!(matches!(r.event, Some(AppEvent::ChatPurgeRequested(Chat::Channel(0)))));
    assert_eq!(s.chat_purge, None);
    assert!(!s.handle_input(&press(Key::Tab), &chats, Some(0)).handled);
}

#[test]
fn logs_open_scroll_and_copy() {
    let mut s = LogsScreen::new();
    let r = s.handle_input(&press(Key::Home), 3, Some(2), Some("rec".to_string()));
    assert_eq!(r.list_move, Some(ListMove::Select(0)));
    s.selection_moved(Some(0), 3);
    assert!(!s.follow);
    assert_eq!(s.follow_target(3), None);
    let r = s.handle_input(&press(Key::Enter), 3, Some(0), Some("rec".to_string()));
    assert_eq!(r.open_record, Some(0));
    assert_eq!(r.record_scroll, Some(RecordScroll::First));
    assert!(s.popup_open);
    let r = s.handle_input(&Input::ScrollDown, 3, Some(0), Some("rec".to_string()));
    assert_eq!(r.record_scroll, Some(RecordScroll::Next));
    let r = s.handle_input(&press(Key::Char('c')), 3, Some(0), Some("rec".to_string()));
    assert!(matches!(r.event, Some(AppEvent::CopyToClipboardRequested(ref t)) if t == "rec"));
    s.handle_input(&press(Key::Esc), 3, Some(0), Some("rec".to_string()));
    assert!(!s.popup_open);
    s.selection_moved(Some(2), 3);
    assert!(s.follow);
    assert_eq!(s.follow_target(3), Some(2));
    assert!(!s.handle_input(&press(Key::Char('c')), 3, None, None).handled);
}

#[test]
fn emoji_picker_searches_by_name() {
    let mut p = EmojiPicker::new();
    assert!(!p.emojis.is_empty());
    assert_eq!(p.search("thumbs up"), Some(0));
    assert!(p.emojis.contains(&"👍".to_string()));
    assert_eq!(p.search("zzzzzzzzzzqqqq"), None);
    assert!(p.emojis.is_empty());
    assert_eq!(p.value(Some(0)), None);
    assert_eq!(p.reset(), 0);
    assert!(p.value(Some(0)).is_some());
    assert_eq!(p.handle_input(&press(Key::Up)), Some(ListMove::Previous));
    assert_eq!(p.handle_input(&press(Key::Char('a'))), None);
}
