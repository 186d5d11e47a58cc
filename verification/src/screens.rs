//! What the screens do with the keys the user presses: the connection
//! screen's popups and device list, and the moves of the lists.
use vstd::prelude::*;
use vstd::string::*;
use crate::device::{Device, DeviceSet};
use crate::events::AppEvent;
use crate::input::{check_host_addr, host_addr_accepts};

verus! {

/// A key of the keyboard, as the screens read it.
#[derive(Debug, Clone, Copy, PartialEq, Eq, Structural)]
pub enum Key {
    Enter,
    Esc,
    Tab,
    BackTab,
    Delete,
    Backspace,
    Home,
    End,
    Up,
    Down,
    Char(char),
    F(u8),
    Other,
}

/// Something the user did: a key pressed (`plain` when no modifier key
/// was held, `ctrl` and `shift` for those two), the mouse wheel, or text
/// pasted.
#[derive(Debug, Clone)]
pub enum Input {
    Press { key: Key, plain: bool, ctrl: bool, shift: bool },
    ScrollUp,
    ScrollDown,
    Paste(String),
    Other,
}

/// A move of a list's selection: to a row, or to the previous or next row
/// as the list widget scrolls.
#[derive(Debug, Clone, Copy, PartialEq, Eq, Structural)]
pub enum ListMove {
    Select(usize),
    Previous,
    Next,
    /// the input moves the list, which has no rows to select
    Stay,
}

/// The move an input makes in a list of `count` rows: home and end select
/// the first and last rows, the arrows and the mouse wheel step through the
/// rows; keys with modifiers and other inputs do not move the list.
pub open spec fn spec_list_move(input: Input, count: usize) -> Option<ListMove> {
    match input {
        Input::Press { key, plain, .. } => if !plain {
            None
        } else {
            match key {
                Key::Home => Some(if count > 0 { ListMove::Select(0) } else { ListMove::Stay }),
                Key::End => Some(
                    if count > 0 {
                        ListMove::Select((count - 1) as usize)
                    } else {
                        ListMove::Stay
                    },
                ),
                Key::Up => Some(ListMove::Previous),
                Key::Down => Some(ListMove::Next),
                _ => None,
            }
        },
        Input::ScrollUp => Some(ListMove::Previous),
        Input::ScrollDown => Some(ListMove::Next),
        _ => None,
    }
}

pub fn list_move(input: &Input, count: usize) -> (r: Option<ListMove>)
    ensures
        r == spec_list_move(*input, count),
{
    match input {
        Input::Press { key, plain, .. } => if !*plain {
            None
        } else {
            match key {
                Key::Home => Some(if count > 0 { ListMove::Select(0) } else { ListMove::Stay }),
                Key::End => Some(
                    if count > 0 {
                        ListMove::Select(count - 1)
                    } else {
                        ListMove::Stay
                    },
                ),
                Key::Up => Some(ListMove::Previous),
                Key::Down => Some(ListMove::Next),
                _ => None,
            }
        },
        Input::ScrollUp => Some(ListMove::Previous),
        Input::ScrollDown => Some(ListMove::Next),
        _ => None,
    }
}

/// Which list of the connection screen a move is for.
#[derive(Debug, Clone, Copy, PartialEq, Eq, Structural)]
pub enum DeviceList {
    Known,
    Discovered,
}

/// What the connection screen asks of its popup's text field.
#[derive(Debug, Clone)]
pub enum FieldRequest {
    /// empty the field and show it with this title and placeholder
    Open { title: &'static str, placeholder: &'static str },
    SetError(String),
    Insert(String),
    /// let the field edit itself by the input
    Forward,
}

/// The connection screen's answer to an input.
#[derive(Debug)]
pub struct ScreenStep {
    /// whether the screen used the input
    pub handled: bool,
    pub events: Vec<AppEvent>,
    pub list_move: Option<(DeviceList, ListMove)>,
    pub field: Vec<FieldRequest>,
}

/// The popups of the connection screen: the device awaiting the user's
/// confirmation of its removal, the list of discovered devices, and the
/// form that adds a device by its network address.
#[derive(Debug)]
pub struct ConnectionScreen {
    pub removing_device: Option<Device>,
    pub is_discovery_popup_visible: bool,
    pub is_tcp_form_visible: bool,
}

/// The input is a press of `k` with no modifier key held.
pub open spec fn is_plain(input: Input, k: Key) -> bool {
    input matches Input::Press { key, plain, .. } && plain && key == k
}

/// The step uses the input and does nothing else.
pub open spec fn bare(step: ScreenStep, handled: bool) -> bool {
    step.handled == handled && step.events@.len() == 0 && step.list_move is None && step.field@.len() == 0
}

/// The step only sends the event.
pub open spec fn sends(step: ScreenStep, e: AppEvent) -> bool {
    step.handled && step.events@.len() == 1 && step.events@[0] == e && step.list_move is None
        && step.field@.len() == 0
}

/// The row `i` of `items`, if there is one.
pub open spec fn row(items: Seq<Device>, i: Option<usize>) -> Option<Device> {
    match i {
        Some(i) => if i < items.len() {
            Some(items[i as int])
        } else {
            None
        },
        None => None,
    }
}

fn row_of(items: &Vec<Device>, i: Option<usize>) -> (r: Option<Device>)
    ensures
        match row(items@, i) {
            Some(d) => r matches Some(c) && c.same(d),
            None => r is None,
        },
{
    match i {
        Some(i) => if i < items.len() {
            Some(items[i].deep_clone())
        } else {
            None
        },
        None => None,
    }
}

impl ScreenStep {
    fn bare(handled: bool) -> (r: ScreenStep)
        ensures
            bare(r, handled),
    {
        ScreenStep { handled, events: Vec::new(), list_move: None, field: Vec::new() }
    }

    fn event(e: AppEvent) -> (r: ScreenStep)
        ensures
            sends(r, e),
    {
        let ghost g = e;
        let r = ScreenStep { handled: true, events: vec![e], list_move: None, field: Vec::new() };
        assert(r.events@ =~= seq![g]);
        r
    }

    fn moves(list: DeviceList, m: ListMove) -> (r: ScreenStep)
        ensures
            r.handled && r.events@.len() == 0 && r.list_move == Some((list, m)) && r.field@.len() == 0,
    {
        ScreenStep { handled: true, events: Vec::new(), list_move: Some((list, m)), field: Vec::new() }
    }
}

/// The removal confirmation answered the input: enter removes the device
/// and closes the confirmation, escape closes it, other inputs wait.
pub open spec fn removal_done(pre: ConnectionScreen, post: ConnectionScreen, input: Input, r: ScreenStep) -> bool {
    &&& (post.is_discovery_popup_visible == pre.is_discovery_popup_visible)
    &&& (post.is_tcp_form_visible == pre.is_tcp_form_visible)
    &&& (is_plain(input, Key::Enter) ==> post.removing_device is None && r.handled
        && r.events@.len() == 1 && (r.events@[0] matches AppEvent::DeviceRemoveRequested(d)
        && d.same(pre.removing_device->0)) && r.list_move is None && r.field@.len() == 0)
    &&& (is_plain(input, Key::Esc) ==> post.removing_device is None && bare(r, true))
    &&& (!is_plain(input, Key::Enter) && !is_plain(input, Key::Esc) ==> post == pre
        && bare(r, true))
}

/// The discovery popup answered the input: the list moves, enter adds the
/// selected discovered device and closes the popup, escape closes it.
pub open spec fn discovery_done(pre: ConnectionScreen, post: ConnectionScreen, input: Input, discovered: DeviceSet, selected: Option<usize>, r: ScreenStep) -> bool {
    &&& (post.removing_device == pre.removing_device)
    &&& (post.is_tcp_form_visible == pre.is_tcp_form_visible)
    &&& (spec_list_move(input, discovered.items.len()) matches Some(m) ==> post == pre
        && r.handled && r.events@.len() == 0 && r.list_move == Some((DeviceList::Discovered, m))
        && r.field@.len() == 0)
    &&& (spec_list_move(input, discovered.items.len()) is None ==> {
        if is_plain(input, Key::Enter) {
            &&& !post.is_discovery_popup_visible
            &&& r.handled && r.list_move is None && r.field@.len() == 0
            &&& match row(discovered.items@, selected) {
                Some(d) => r.events@.len() == 1 && (r.events@[0] matches AppEvent::DeviceSubmitted(
                    c,
                ) && c.same(d)),
                None => r.events@.len() == 0,
            }
        } else if is_plain(input, Key::Esc) {
            !post.is_discovery_popup_visible && bare(r, true)
        } else {
            post == pre && bare(r, false)
        }
    })
}

/// The address form answered the input: enter adds the typed address when
/// it parses and closes the form, or shows why it does not; escape closes
/// it; pasted text goes into the field; the field then takes the input.
pub open spec fn tcp_form_done(pre: ConnectionScreen, post: ConnectionScreen, input: Input, value: Seq<char>, r: ScreenStep) -> bool {
    &&& (post.removing_device == pre.removing_device)
    &&& (post.is_discovery_popup_visible == pre.is_discovery_popup_visible)
    &&& (r.handled)
    &&& (r.list_move is None)
    &&& (r.field@.len() >= 1)
    &&& (r.field@.last() is Forward)
    &&& (is_plain(input, Key::Enter) && host_addr_accepts(value) ==> !post.is_tcp_form_visible
        && r.events@.len() == 1 && (r.events@[0] matches AppEvent::DeviceSubmitted(d) && d
        is Tcp && d.spec_address() == value) && r.field@.len() == 1)
    &&& (is_plain(input, Key::Enter) && !host_addr_accepts(value) ==> post.is_tcp_form_visible
        == pre.is_tcp_form_visible && r.events@.len() == 0 && r.field@.len() == 2 && (
        r.field@[0] matches FieldRequest::SetError(m) && "invalid address: "@.is_prefix_of(m@)))
    &&& (is_plain(input, Key::Esc) ==> !post.is_tcp_form_visible && r.events@.len() == 0
        && r.field@.len() == 1)
    &&& (input matches Input::Paste(t) ==> post.is_tcp_form_visible
        == pre.is_tcp_form_visible && r.events@.len() == 0 && r.field@.len() == 2 && (
        r.field@[0] matches FieldRequest::Insert(s) && s@ == t@))
    &&& (!is_plain(input, Key::Enter) && !is_plain(input, Key::Esc) && !(input is Paste)
        ==> post == pre && r.events@.len() == 0 && r.field@.len() == 1)
}

impl ConnectionScreen {
    pub fn new() -> (r: ConnectionScreen)
        ensures
            r.removing_device is None,
            !r.is_discovery_popup_visible,
            !r.is_tcp_form_visible,
    {
        ConnectionScreen { removing_device: None, is_discovery_popup_visible: false, is_tcp_form_visible: false }
    }

    /// The removal confirmation: enter removes the device, escape keeps it;
    /// either closes the confirmation, and no other input passes it.
    fn handle_removal(&mut self, input: &Input) -> (r: ScreenStep)
        requires
            old(self).removing_device is Some,
        ensures
            removal_done(*old(self), *final(self), *input, r),
    {
        match input {
            Input::Press { key: Key::Enter, plain: true, .. } => {
                let d = match &self.removing_device {
                    Some(d) => d.deep_clone(),
                    None => {
                        return ScreenStep::bare(true);
                    },
                };
                self.removing_device = None;
                ScreenStep::event(AppEvent::DeviceRemoveRequested(d))
            },
            Input::Press { key: Key::Esc, plain: true, .. } => {
                self.removing_device = None;
                ScreenStep::bare(true)
            },
            _ => ScreenStep::bare(true),
        }
    }

    /// The discovery popup: the list moves, enter adds the selected
    /// discovered device and closes the popup, escape closes it.
    fn handle_discovery(&mut self, input: &Input, discovered: &DeviceSet, selected: Option<usize>) -> (r: ScreenStep)
        ensures
            discovery_done(*old(self), *final(self), *input, *discovered, selected, r),
    {
        match list_move(input, discovered.items.len()) {
            Some(m) => {
                return ScreenStep::moves(DeviceList::Discovered, m);
            },
            None => {},
        }
        match input {
            Input::Press { key: Key::Enter, plain: true, .. } => {
                self.is_discovery_popup_visible = false;
                match row_of(&discovered.items, selected) {
                    Some(d) => ScreenStep::event(AppEvent::DeviceSubmitted(d)),
                    None => ScreenStep::bare(true),
                }
            },
            Input::Press { key: Key::Esc, plain: true, .. } => {
                self.is_discovery_popup_visible = false;
                ScreenStep::bare(true)
            },
            _ => ScreenStep::bare(false),
        }
    }

    /// The form that adds a device by its network address: enter adds the
    /// typed address when it parses and closes the form, or shows why it
    /// does not; escape closes the form; pasted text goes into the field.
    /// The field then edits itself by the input, which the form uses.
    fn handle_tcp_form(&mut self, input: &Input, value: &str) -> (r: ScreenStep)
        ensures
            tcp_form_done(*old(self), *final(self), *input, value@, r),
    {
        let mut events: Vec<AppEvent> = Vec::new();
        let mut field: Vec<FieldRequest> = Vec::new();
        match input {
            Input::Press { key: Key::Enter, plain: true, .. } => match check_host_addr(value) {
                Ok(()) => {
                    events.push(AppEvent::DeviceSubmitted(Device::Tcp(value.to_string())));
                    self.is_tcp_form_visible = false;
                },
                Err(e) => {
                    let mut m = "invalid address: ".to_string();
                    let ghost prefix = m@;
                    m.append(e.as_str());
                    assert(prefix.is_prefix_of(m@)) by {
                        assert(m@.subrange(0, prefix.len() as int) =~= prefix);
                    }
                    field.push(FieldRequest::SetError(m));
                },
            },
            Input::Press { key: Key::Esc, plain: true, .. } => {
                self.is_tcp_form_visible = false;
            },
            Input::Paste(text) => {
                field.push(FieldRequest::Insert(text.clone()));
            },
            _ => {},
        }
        field.push(FieldRequest::Forward);
        ScreenStep { handled: true, events, list_move: None, field }
    }

    /// What the screen does with an input, given whether a device is in
    /// use, the known and discovered devices, the rows selected in their
    /// lists and the text typed in the popup's field. The removal
    /// confirmation comes first, then the discovery popup, then the address
    /// form. While a device is in use, escape disconnects it and other keys
    /// pass on. Otherwise the device list moves, `d` discovers devices, `t`
    /// opens the address form, enter connects the selected device, and
    /// delete or backspace asks to confirm its removal.
    pub fn handle_input(
        &mut self,
        input: &Input,
        device_active: bool,
        devices: &DeviceSet,
        discovered: &DeviceSet,
        selected: Option<usize>,
        discovery_selected: Option<usize>,
        field_value: &str,
    ) -> (r: ScreenStep)
        ensures
            old(self).removing_device is None && !old(self).is_discovery_popup_visible
                && !old(self).is_tcp_form_visible ==> {
                if device_active {
                    &&& *final(self) == *old(self)
                    &&& if is_plain(*input, Key::Esc) {
                        sends(r, AppEvent::DisconnectionRequested)
                    } else {
                        bare(r, false)
                    }
                } else {
                    match spec_list_move(*input, devices.items.len()) {
                        Some(m) => *final(self) == *old(self) && r.handled && r.events@.len() == 0
                            && r.list_move == Some((DeviceList::Known, m)) && r.field@.len() == 0,
                        None => if is_plain(*input, Key::Char('d')) {
                            final(self).is_discovery_popup_visible && final(self).removing_device is None
                                && !final(self).is_tcp_form_visible && sends(
                                r,
                                AppEvent::DeviceRediscoverRequested,
                            )
                        } else if is_plain(*input, Key::Char('t')) {
                            final(self).is_tcp_form_visible && !final(self).is_discovery_popup_visible
                                && final(self).removing_device is None && r.handled && r.events@.len()
                                == 0 && r.list_move is None && r.field@.len() == 1 && r.field@[0] == (
                            FieldRequest::Open { title: " new TCP device ", placeholder: "host[:port=4403]" })
                        } else if is_plain(*input, Key::Enter) {
                            *final(self) == *old(self) && r.handled && r.list_move is None && r.field@.len()
                                == 0 && match row(devices.items@, selected) {
                                Some(d) => r.events@.len() == 1 && (r.events@[0] matches AppEvent::DeviceSelected(
                                    c,
                                ) && c.same(d)),
                                None => r.events@.len() == 0,
                            }
                        } else if is_plain(*input, Key::Delete) || is_plain(*input, Key::Backspace) {
                            bare(r, true) && !final(self).is_discovery_popup_visible
                                && !final(self).is_tcp_form_visible && match row(devices.items@, selected) {
                                Some(d) => final(self).removing_device matches Some(c) && c.same(d),
                                None => final(self).removing_device is None,
                            }
                        } else {
                            *final(self) == *old(self) && bare(r, false)
                        },
                    }
                }
            },
            old(self).removing_device is Some ==> removal_done(*old(self), *final(self), *input, r),
            old(self).removing_device is None && old(self).is_discovery_popup_visible ==> discovery_done(
                *old(self),
                *final(self),
                *input,
                *discovered,
                discovery_selected,
                r,
            ),
            old(self).removing_device is None && !old(self).is_discovery_popup_visible
                && old(self).is_tcp_form_visible ==> tcp_form_done(*old(self), *final(self), *input, field_value@, r),
    {
        if self.removing_device.is_some() {
            return self.handle_removal(input);
        }
        if self.is_discovery_popup_visible {
            return self.handle_discovery(input, discovered, discovery_selected);
        }
        if self.is_tcp_form_visible {
            return self.handle_tcp_form(input, field_value);
        }
        if device_active {
            return match input {
                Input::Press { key: Key::Esc, plain: true, .. } => ScreenStep::event(AppEvent::DisconnectionRequested),
                _ => ScreenStep::bare(false),
            };
        }
        match list_move(input, devices.items.len()) {
            Some(m) => {
                return ScreenStep::moves(DeviceList::Known, m);
            },
            None => {},
        }
        match input {
            Input::Press { key: Key::Char('d'), plain: true, .. } => {
                self.is_discovery_popup_visible = true;
                ScreenStep::event(AppEvent::DeviceRediscoverRequested)
            },
            Input::Press { key: Key::Char('t'), plain: true, .. } => {
                self.is_tcp_form_visible = true;
                let ghost open = FieldRequest::Open { title: " new TCP device ", placeholder: "host[:port=4403]" };
                let r = ScreenStep {
                    handled: true,
                    events: Vec::new(),
                    list_move: None,
                    field: vec![FieldRequest::Open { title: " new TCP device ", placeholder: "host[:port=4403]" }],
                };
                assert(r.field@ =~= seq![open]);
                r
            },
            Input::Press { key: Key::Enter, plain: true, .. } => match row_of(&devices.items, selected) {
                Some(d) => ScreenStep::event(AppEvent::DeviceSelected(d)),
                None => ScreenStep::bare(true),
            },
            Input::Press { key: Key::Delete, plain: true, .. } | Input::Press { key: Key::Backspace, plain: true, .. } => {
                self.removing_device = row_of(&devices.items, selected);
                ScreenStep::bare(true)
            },
            _ => ScreenStep::bare(false),
        }
    }
}


/// Whether the input is control-c, which quits from anywhere.
pub open spec fn is_quit_key(input: Input) -> bool {
    input matches Input::Press { key, ctrl, .. } && ctrl && key == Key::Char('c')
}

pub fn quit_key(input: &Input) -> (r: bool)
    ensures
        r == is_quit_key(*input),
{
    match input {
        Input::Press { key: Key::Char('c'), ctrl: true, .. } => true,
        _ => false,
    }
}

/// Within this many milliseconds of the last escape, escape quits.
pub const QUIT_ESC_WINDOW_MS: u64 = 300;

/// The screen's frame, which takes the inputs no screen used: the tab
/// keys, the splash logo, and escape, which quits when pressed twice
/// quickly. `last_esc_ms` is when escape was last pressed (or the frame
/// made), by a monotonic clock in milliseconds.
#[derive(Debug, Clone, Copy, PartialEq, Eq, Structural)]
pub struct Layout {
    pub last_esc_ms: u64,
}

impl Layout {
    pub fn new(now_ms: u64) -> (r: Layout)
        ensures
            r.last_esc_ms == now_ms,
    {
        Layout { last_esc_ms: now_ms }
    }

    /// The event an input no screen used makes at `now_ms`: tab and
    /// back tab switch tabs, F12 shows the splash logo, and escape quits
    /// within the window after the last escape, or asks for a second one.
    pub fn handle_unused_input(&mut self, input: &Input, now_ms: u64) -> (r: Option<AppEvent>)
        requires
            old(self).last_esc_ms <= now_ms,
        ensures
            is_plain(*input, Key::Esc) ==> final(self).last_esc_ms == now_ms && if now_ms - old(
                self,
            ).last_esc_ms < QUIT_ESC_WINDOW_MS {
                r == Some(AppEvent::QuitRequested)
            } else {
                r == Some(AppEvent::TryingToQuit)
            },
            !is_plain(*input, Key::Esc) ==> *final(self) == *old(self),
            is_plain(*input, Key::Tab) ==> r == Some(AppEvent::TabNextRequested),
            (*input matches Input::Press { key, .. } && key == Key::BackTab) ==> r == Some(
                AppEvent::TabPreviousRequested,
            ),
            is_plain(*input, Key::F(12)) ==> r == Some(AppEvent::SplashLogoRequested),
            !is_plain(*input, Key::Esc) && !is_plain(*input, Key::Tab) && !is_plain(*input, Key::F(12))
                && !(*input matches Input::Press { key, .. } && key == Key::BackTab) ==> r is None,
    {
        match input {
            Input::Press { key: Key::Tab, plain: true, .. } => Some(AppEvent::TabNextRequested),
            Input::Press { key: Key::BackTab, .. } => Some(AppEvent::TabPreviousRequested),
            Input::Press { key: Key::F(12), plain: true, .. } => Some(AppEvent::SplashLogoRequested),
            Input::Press { key: Key::Esc, plain: true, .. } => {
                let quick = now_ms - self.last_esc_ms < QUIT_ESC_WINDOW_MS;
                self.last_esc_ms = now_ms;
                if quick {
                    Some(AppEvent::QuitRequested)
                } else {
                    Some(AppEvent::TryingToQuit)
                }
            },
            _ => None,
        }
    }
}

/// A step of the filter help's scrolling.
#[derive(Debug, Clone, Copy, PartialEq, Eq, Structural)]
pub enum Scroll {
    Previous,
    Next,
}

/// When the node screen reports the filter field's text.
#[derive(Debug, Clone, Copy, PartialEq, Eq, Structural)]
pub enum FilterReport {
    Never,
    /// after the field took the requests
    Always,
    /// after the field took the requests, if its text changed
    IfChanged,
}

/// The node screen's answer to an input.
#[derive(Debug)]
pub struct NodesStep {
    pub handled: bool,
    pub events: Vec<AppEvent>,
    pub list_move: Option<ListMove>,
    pub help_scroll: Option<Scroll>,
    /// forget the emoji picker's choice
    pub reset_emoji: bool,
    /// let the emoji picker take the input
    pub forward_to_emoji: bool,
    pub filter: Vec<FieldRequest>,
    pub report_filter: FilterReport,
}

/// The popups of the node screen: the emoji picker, which inserts into the
/// filter, and the filter's help.
#[derive(Debug, Clone, Copy, PartialEq, Eq, Structural)]
pub struct NodesScreen {
    pub is_emoji_selector_visible: bool,
    pub is_filter_help_visible: bool,
}

/// The step does nothing but say whether it used the input.
pub open spec fn nodes_bare(r: NodesStep, handled: bool) -> bool {
    &&& r.handled == handled
    &&& r.events@.len() == 0
    &&& r.list_move is None
    &&& r.help_scroll is None
    &&& !r.reset_emoji
    &&& !r.forward_to_emoji
    &&& r.filter@.len() == 0
    &&& r.report_filter == FilterReport::Never
}

/// The step only sends the event.
pub open spec fn nodes_sends(r: NodesStep, e: AppEvent) -> bool {
    &&& r.handled
    &&& r.events@ == seq![e]
    &&& r.list_move is None
    &&& r.help_scroll is None
    &&& !r.reset_emoji
    &&& !r.forward_to_emoji
    &&& r.filter@.len() == 0
    &&& r.report_filter == FilterReport::Never
}

/// The node of the selected row of the node list.
pub open spec fn selected_node(view: Seq<u32>, selected: Option<usize>) -> Option<u32> {
    match selected {
        Some(i) => if i < view.len() {
            Some(view[i as int])
        } else {
            None
        },
        None => None,
    }
}

impl NodesStep {
    fn bare(handled: bool) -> (r: NodesStep)
        ensures
            nodes_bare(r, handled),
    {
        NodesStep {
            handled,
            events: Vec::new(),
            list_move: None,
            help_scroll: None,
            reset_emoji: false,
            forward_to_emoji: false,
            filter: Vec::new(),
            report_filter: FilterReport::Never,
        }
    }

    fn event(e: AppEvent) -> (r: NodesStep)
        ensures
            nodes_sends(r, e),
    {
        let ghost g = e;
        let mut r = NodesStep::bare(true);
        r.events.push(e);
        assert(r.events@ =~= seq![g]);
        r
    }
}

impl NodesScreen {
    pub fn new() -> (r: NodesScreen)
        ensures
            !r.is_emoji_selector_visible && !r.is_filter_help_visible,
    {
        NodesScreen { is_emoji_selector_visible: false, is_filter_help_visible: false }
    }

    /// What the node screen does with an input, given the node list's keys,
    /// its selected row and the emoji the picker has chosen. The emoji
    /// picker comes first: enter inserts the chosen emoji into the filter
    /// and reports it, escape closes the picker, other inputs go to it.
    /// Then the filter help: escape closes it and the arrows or the wheel
    /// scroll it. Otherwise the list moves; F1 shows the help, F4 or enter
    /// opens the selected node, F5 opens the picker, F6 (with shift) orders
    /// the list by the next (previous) key, F2 starts a direct chat with
    /// the selected node, and the tab keys pass on; every other input goes
    /// to the filter field (pasted text inserted), whose text is reported
    /// when it changes.
    pub fn handle_input(
        &mut self,
        input: &Input,
        nodes_view: &Vec<u32>,
        selected: Option<usize>,
        chosen_emoji: Option<String>,
    ) -> (r: NodesStep)
        ensures
            old(self).is_emoji_selector_visible ==> {
                if is_plain(*input, Key::Enter) && chosen_emoji is Some {
                    &&& !final(self).is_emoji_selector_visible
                    &&& r.handled && r.events@.len() == 0
                    &&& r.filter@.len() == 1 && (r.filter@[0] matches FieldRequest::Insert(t) && t@
                        == chosen_emoji->0@)
                    &&& r.report_filter == FilterReport::Always
                } else if is_plain(*input, Key::Esc) {
                    &&& !final(self).is_emoji_selector_visible
                    &&& r.handled && r.reset_emoji && r.events@.len() == 0 && r.filter@.len() == 0
                } else {
                    &&& *final(self) == *old(self)
                    &&& r.forward_to_emoji && r.events@.len() == 0 && r.filter@.len() == 0
                }
            },
            !old(self).is_emoji_selector_visible && old(self).is_filter_help_visible ==> {
                &&& r.events@.len() == 0 && r.filter@.len() == 0 && r.list_move is None
                &&& if is_plain(*input, Key::Esc) {
                    !final(self).is_filter_help_visible && r.handled && r.help_scroll is None
                } else if is_plain(*input, Key::Up) || input is ScrollUp {
                    *final(self) == *old(self) && r.handled && r.help_scroll == Some(Scroll::Previous)
                } else if is_plain(*input, Key::Down) || input is ScrollDown {
                    *final(self) == *old(self) && r.handled && r.help_scroll == Some(Scroll::Next)
                } else {
                    *final(self) == *old(self) && !r.handled && r.help_scroll is None
                }
            },
            !old(self).is_emoji_selector_visible && !old(self).is_filter_help_visible ==> {
                match spec_list_move(*input, nodes_view.len()) {
                    Some(m) => *final(self) == *old(self) && r.handled && r.list_move == Some(m)
                        && r.events@.len() == 0 && r.filter@.len() == 0,
                    None => if is_plain(*input, Key::F(1)) {
                        final(self).is_filter_help_visible && nodes_bare(r, true)
                    } else if is_plain(*input, Key::F(4)) || is_plain(*input, Key::Enter) {
                        *final(self) == *old(self) && match selected_node(nodes_view@, selected) {
                            Some(k) => nodes_sends(r, AppEvent::NodeInfoPopupRequested(k)),
                            None => nodes_bare(r, true),
                        }
                    } else if is_plain(*input, Key::F(5)) {
                        final(self).is_emoji_selector_visible && nodes_bare(r, true)
                    } else if *input matches Input::Press { key, shift, .. } && key == Key::F(6) && shift {
                        *final(self) == *old(self) && nodes_sends(r, AppEvent::NodesSortByPrevRequested)
                    } else if is_plain(*input, Key::F(6)) {
                        *final(self) == *old(self) && nodes_sends(r, AppEvent::NodesSortByNextRequested)
                    } else if is_plain(*input, Key::F(2)) {
                        *final(self) == *old(self) && match selected_node(nodes_view@, selected) {
                            Some(k) => nodes_sends(r, AppEvent::DirectChatRequested(k)),
                            None => nodes_bare(r, true),
                        }
                    } else if *input matches Input::Press { key, .. } && (key == Key::Tab || key
                        == Key::BackTab) {
                        *final(self) == *old(self) && nodes_bare(r, false)
                    } else {
                        &&& *final(self) == *old(self)
                        &&& r.handled && r.events@.len() == 0
                        &&& r.filter@.last() is Forward
                        &&& r.report_filter == FilterReport::IfChanged
                        &&& match *input {
                            Input::Paste(t) => r.filter@.len() == 2 && (r.filter@[0] matches FieldRequest::Insert(
                                s,
                            ) && s@ == t@),
                            _ => r.filter@.len() == 1,
                        }
                    },
                }
            },
    {
        if self.is_emoji_selector_visible {
            let mut r = NodesStep::bare(true);
            match input {
                Input::Press { key: Key::Enter, plain: true, .. } => match chosen_emoji {
                    Some(glyph) => {
                        let ghost g = glyph@;
                        self.is_emoji_selector_visible = false;
                        r.filter.push(FieldRequest::Insert(glyph));
                        r.report_filter = FilterReport::Always;
                        assert(r.filter@[0] matches FieldRequest::Insert(t) && t@ == g);
                        return r;
                    },
                    None => {},
                },
                Input::Press { key: Key::Esc, plain: true, .. } => {
                    self.is_emoji_selector_visible = false;
                    r.reset_emoji = true;
                    return r;
                },
                _ => {},
            }
            r.forward_to_emoji = true;
            return r;
        }
        if self.is_filter_help_visible {
            let mut r = NodesStep::bare(true);
            match input {
                Input::Press { key: Key::Esc, plain: true, .. } => {
                    self.is_filter_help_visible = false;
                },
                Input::Press { key: Key::Up, plain: true, .. } | Input::ScrollUp => {
                    r.help_scroll = Some(Scroll::Previous);
                },
                Input::Press { key: Key::Down, plain: true, .. } | Input::ScrollDown => {
                    r.help_scroll = Some(Scroll::Next);
                },
                _ => {
                    r.handled = false;
                },
            }
            return r;
        }
        match list_move(input, nodes_view.len()) {
            Some(m) => {
                let mut r = NodesStep::bare(true);
                r.list_move = Some(m);
                return r;
            },
            None => {},
        }
        let selected_key = match selected {
            Some(i) => if i < nodes_view.len() {
                Some(nodes_view[i])
            } else {
                None
            },
            None => None,
        };
        match input {
            Input::Press { key: Key::F(1), plain: true, .. } => {
                self.is_filter_help_visible = true;
                NodesStep::bare(true)
            },
            Input::Press { key: Key::F(4), plain: true, .. } | Input::Press { key: Key::Enter, plain: true, .. } => {
                match selected_key {
                    Some(k) => NodesStep::event(AppEvent::NodeInfoPopupRequested(k)),
                    None => NodesStep::bare(true),
                }
            },
            Input::Press { key: Key::F(5), plain: true, .. } => {
                self.is_emoji_selector_visible = true;
                NodesStep::bare(true)
            },
            Input::Press { key: Key::F(6), shift: true, .. } => NodesStep::event(AppEvent::NodesSortByPrevRequested),
            Input::Press { key: Key::F(6), plain: true, .. } => NodesStep::event(AppEvent::NodesSortByNextRequested),
            Input::Press { key: Key::F(2), plain: true, .. } => match selected_key {
                Some(k) => NodesStep::event(AppEvent::DirectChatRequested(k)),
                None => NodesStep::bare(true),
            },
            Input::Press { key: Key::Tab, .. } | Input::Press { key: Key::BackTab, .. } => NodesStep::bare(false),
            _ => {
                let mut r = NodesStep::bare(true);
                match input {
                    Input::Paste(text) => {
                        r.filter.push(FieldRequest::Insert(text.clone()));
                    },
                    _ => {},
                }
                r.filter.push(FieldRequest::Forward);
                r.report_filter = FilterReport::IfChanged;
                r
            },
        }
    }
}

} // verus!
