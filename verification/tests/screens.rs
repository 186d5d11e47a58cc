use termtastic::device::{Device, DeviceSet};
use termtastic::form_table::form_items;
use termtastic::formdata::{FormData, FormValue};
use termtastic::forms::FormItemKey;
use termtastic::settings::build_settings;
use termtastic::settings_screen::{Handled, InitialText, Popup, PopupRequest, SettingsScreen};
use termtastic::types::{FormId, SettingsFormState};
use termtastic::events::AppEvent;
use termtastic::screens::{
    list_move, quit_key, ConnectionScreen, DeviceList, FieldRequest, FilterReport, Input, Key, Layout, ListMove,
    NodesScreen, Scroll,
};

fn press(key: Key) -> Input {
    Input::Press { key, plain: true, ctrl: false, shift: false }
}

fn devices() -> DeviceSet {
    let mut set = DeviceSet::new();
    set.insert(Device::Serial("/dev/ttyUSB0".to_string()));
    set.insert(Device::Tcp("10.0.0.7:4403".to_string()));
    set
}

#[test]
fn list_moves_by_keys() {
    assert_eq!(list_move(&press(Key::Home), 3), Some(ListMove::Select(0)));
    assert_eq!(list_move(&press(Key::End), 3), Some(ListMove::Select(2)));
    assert_eq!(list_move(&press(Key::End), 0), Some(ListMove::Stay));
    assert_eq!(list_move(&press(Key::Up), 3), Some(ListMove::Previous));
    assert_eq!(list_move(&Input::ScrollDown, 3), Some(ListMove::Next));
    assert_eq!(list_move(&Input::Press { key: Key::Down, plain: false, ctrl: true, shift: false }, 3), None);
    assert_eq!(list_move(&press(Key::Enter), 3), None);
}

#[test]
fn connection_screen_connects_and_removes() {
    let known = devices();
    let none = DeviceSet::new();
    let mut screen = ConnectionScreen::new();
    let step = screen.handle_input(&press(Key::Enter), false, &known, &none, Some(0), None, "");
    assert!(step.handled);
    assert!(matches!(&step.events[..], [AppEvent::DeviceSelected(Device::Tcp(a))] if a == "10.0.0.7:4403"));
    let step = screen.handle_input(&press(Key::Down), false, &known, &none, Some(0), None, "");
    assert_eq!(step.list_move, Some((DeviceList::Known, ListMove::Next)));
    let step = screen.handle_input(&press(Key::Delete), false, &known, &none, Some(1), None, "");
    assert!(step.handled && step.events.is_empty());
    assert!(matches!(&screen.removing_device, Some(Device::Serial(p)) if p == "/dev/ttyUSB0"));
    let step = screen.handle_input(&press(Key::Enter), false, &known, &none, Some(1), None, "");
    assert!(matches!(&step.events[..], [AppEvent::DeviceRemoveRequested(Device::Serial(_))]));
    assert!(screen.removing_device.is_none());
    let step = screen.handle_input(&press(Key::Esc), true, &known, &none, None, None, "");
    assert!(matches!(step.events[..], [AppEvent::DisconnectionRequested]));
    let step = screen.handle_input(&press(Key::Tab), true, &known, &none, None, None, "");
    assert!(!step.handled);
}

#[test]
fn connection_screen_adds_tcp_device() {
    let known = devices();
    let none = DeviceSet::new();
    let mut screen = ConnectionScreen::new();
    let step = screen.handle_input(&press(Key::Char('t')), false, &known, &none, None, None, "");
    assert!(screen.is_tcp_form_visible);
    assert!(matches!(step.field[..], [FieldRequest::Open { title: " new TCP device ", placeholder: "host[:port=4403]" }]));
    let step = screen.handle_input(&press(Key::Enter), false, &known, &none, None, None, "not a host");
    assert!(screen.is_tcp_form_visible);
    assert!(matches!(&step.field[0], FieldRequest::SetError(m) if m.starts_with("invalid address: ")));
    assert!(matches!(step.field[1], FieldRequest::Forward));
    let step = screen.handle_input(&press(Key::Enter), false, &known, &none, None, None, "meshtastic.local:4403");
    assert!(!screen.is_tcp_form_visible);
    assert!(matches!(&step.events[..], [AppEvent::DeviceSubmitted(Device::Tcp(a))] if a == "meshtastic.local:4403"));
}

#[test]
fn connection_screen_discovery_popup() {
    let known = devices();
    let found = devices();
    let mut screen = ConnectionScreen::new();
    let step = screen.handle_input(&press(Key::Char('d')), false, &known, &found, None, None, "");
    assert!(screen.is_discovery_popup_visible);
    assert!(matches!(step.events[..], [AppEvent::DeviceRediscoverRequested]));
    let step = screen.handle_input(&press(Key::Home), false, &known, &found, None, None, "");
    assert_eq!(step.list_move, Some((DeviceList::Discovered, ListMove::Select(0))));
    let step = screen.handle_input(&press(Key::Enter), false, &known, &found, None, Some(1), "");
    assert!(!screen.is_discovery_popup_visible);
    assert!(matches!(&step.events[..], [AppEvent::DeviceSubmitted(Device::Serial(_))]));
}

#[test]
fn layout_keys_and_double_escape() {
    let mut layout = Layout::new(1_000);
    assert!(quit_key(&Input::Press { key: Key::Char('c'), plain: false, ctrl: true, shift: false }));
    assert!(!quit_key(&press(Key::Char('c'))));
    assert!(matches!(layout.handle_unused_input(&press(Key::Tab), 1_100), Some(AppEvent::TabNextRequested)));
    assert!(matches!(
        layout.handle_unused_input(&Input::Press { key: Key::BackTab, plain: false, ctrl: false, shift: true }, 1_100),
        Some(AppEvent::TabPreviousRequested)
    ));
    assert!(matches!(layout.handle_unused_input(&press(Key::Esc), 2_000), Some(AppEvent::TryingToQuit)));
    assert!(matches!(layout.handle_unused_input(&press(Key::Esc), 2_200), Some(AppEvent::QuitRequested)));
    assert!(matches!(layout.handle_unused_input(&press(Key::Esc), 2_600), Some(AppEvent::TryingToQuit)));
    assert!(layout.handle_unused_input(&press(Key::Char('x')), 2_700).is_none());
}

#[test]
fn nodes_screen_keys() {
    let view = vec![10u32, 20, 30];
    let mut screen = NodesScreen::new();
    let step = screen.handle_input(&press(Key::Enter), &view, Some(1), None);
    assert!(matches!(step.events[..], [AppEvent::NodeInfoPopupRequested(20)]));
    let step = screen.handle_input(&press(Key::F(2)), &view, Some(2), None);
    assert!(matches!(step.events[..], [AppEvent::DirectChatRequested(30)]));
    let step = screen.handle_input(&Input::Press { key: Key::F(6), plain: false, ctrl: false, shift: true }, &view, None, None);
    assert!(matches!(step.events[..], [AppEvent::NodesSortByPrevRequested]));
    let step = screen.handle_input(&press(Key::Char('a')), &view, None, None);
    assert!(step.handled);
    assert!(matches!(step.filter[..], [FieldRequest::Forward]));
    assert_eq!(step.report_filter, FilterReport::IfChanged);
    let step = screen.handle_input(&press(Key::Tab), &view, None, None);
    assert!(!step.handled);
    screen.handle_input(&press(Key::F(1)), &view, None, None);
    assert!(screen.is_filter_help_visible);
    let step = screen.handle_input(&Input::ScrollDown, &view, None, None);
    assert_eq!(step.help_scroll, Some(Scroll::Next));
    screen.handle_input(&press(Key::Esc), &view, None, None);
    assert!(!screen.is_filter_help_visible);
    screen.handle_input(&press(Key::F(5)), &view, None, None);
    assert!(screen.is_emoji_selector_visible);
    let step = screen.handle_input(&press(Key::Enter), &view, None, Some("🙂".to_string()));
    assert!(!screen.is_emoji_selector_visible);
    assert!(matches!(&step.filter[..], [FieldRequest::Insert(t)] if t == "🙂"));
    assert_eq!(step.report_filter, FilterReport::Always);
}

#[test]
fn settings_screen_opens_forms_and_edits_fields() {
    let menu = build_settings();
    let items = form_items(FormId::RadioLora).unwrap();
    let mut data = FormData::new();
    data.insert("use_preset".to_string(), FormValue::Bool(false));
    data.insert("bandwidth".to_string(), FormValue::UnsignedInt32(250));
    let mut screen = SettingsScreen::new();
    let inactive = SettingsFormState::Inactive;
    let step = screen.handle_input(&press(Key::Enter), &inactive, false, &menu, Some(1), 0, None, None, None, "", None, None, 0);
    assert!(matches!(step.events[..], [AppEvent::SettingsFormSelected(FormId::AppUi)]));
    let loaded = SettingsFormState::Loaded { id: FormId::RadioLora };
    let step = screen.handle_input(&press(Key::Enter), &loaded, false, &menu, Some(3), 15, Some(1), Some(&items[1]), Some(&data), "", None, None, 0);
    assert!(matches!(&step.events[..], [AppEvent::SettingsFormItemSubmitted(FormItemKey::Simple("use_preset"), FormValue::Bool(true))]));
    let step = screen.handle_input(&press(Key::Enter), &loaded, false, &menu, Some(3), 15, Some(3), Some(&items[3]), Some(&data), "", None, None, 0);
    assert_eq!(screen.popup, Some(Popup::Input));
    assert!(matches!(&step.popup[..], [PopupRequest::OpenInput { title: "Bandwidth *", initial: InitialText::Text(t) }] if t == "250"));
    let step = screen.handle_input(&press(Key::Enter), &loaded, false, &menu, Some(3), 15, Some(3), Some(&items[3]), Some(&data), "30", None, None, 0);
    assert!(matches!(&step.popup[..], [PopupRequest::SetError(m)] if m == "Must be between 31 and 500"));
    let step = screen.handle_input(&press(Key::Char('1')), &loaded, false, &menu, Some(3), 15, Some(3), Some(&items[3]), Some(&data), "30", None, None, 0);
    assert_eq!(step.handled, Handled::ByPopup);
    let step = screen.handle_input(&press(Key::Enter), &loaded, false, &menu, Some(3), 15, Some(3), Some(&items[3]), Some(&data), "125", None, None, 0);
    assert!(matches!(&step.events[..], [AppEvent::SettingsFormItemSubmitted(FormItemKey::Simple("bandwidth"), FormValue::UnsignedInt32(125))]));
    assert!(screen.popup.is_none());
    let step = screen.handle_input(&press(Key::Char('s')), &loaded, true, &menu, Some(3), 15, Some(3), None, Some(&data), "", None, None, 0);
    assert!(matches!(step.events[..], [AppEvent::SettingsFormSaveRequested(FormId::RadioLora)]));
    screen.handle_input(&press(Key::Esc), &loaded, true, &menu, Some(3), 15, Some(3), None, Some(&data), "", None, None, 0);
    assert!(screen.is_exit_confirm_visible);
    let step = screen.handle_input(&press(Key::Enter), &loaded, true, &menu, Some(3), 15, Some(3), None, Some(&data), "", None, None, 0);
    assert!(matches!(step.events[..], [AppEvent::SettingsFormCancelRequested]));
    assert!(!screen.is_exit_confirm_visible);
}
