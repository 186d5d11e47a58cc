//! The state and decisions of the user interface parts that do not draw:
//! tabs of the node window, the bit mask picker, the channel list's purge
//! confirmation, and the sizes of popups.
use vstd::prelude::*;
use vstd::string::*;
use crate::text::{decimal_digits, push_char, push_decimal};

verus! {

/// A tab of the node information window, in display order.
#[derive(Debug, Clone, Copy, PartialEq, Eq, Structural)]
pub enum NodeInfoTab {
    Info,
    Traceroutes,
    Position,
    Telemetry,
}

impl NodeInfoTab {
    pub open spec fn spec_index(self) -> int {
        match self {
            NodeInfoTab::Info => 0,
            NodeInfoTab::Traceroutes => 1,
            NodeInfoTab::Position => 2,
            NodeInfoTab::Telemetry => 3,
        }
    }

    fn from_index(i: u8) -> (r: NodeInfoTab)
        requires
            i < 4,
        ensures
            r.spec_index() == i,
    {
        if i == 0 {
            NodeInfoTab::Info
        } else if i == 1 {
            NodeInfoTab::Traceroutes
        } else if i == 2 {
            NodeInfoTab::Position
        } else {
            NodeInfoTab::Telemetry
        }
    }

    fn index(self) -> (r: u8)
        ensures
            r as int == self.spec_index(),
    {
        match self {
            NodeInfoTab::Info => 0,
            NodeInfoTab::Traceroutes => 1,
            NodeInfoTab::Position => 2,
            NodeInfoTab::Telemetry => 3,
        }
    }

    /// The previous tab, wrapping from the first to the last.
    pub fn prev(self) -> (r: NodeInfoTab)
        ensures
            r.spec_index() == (self.spec_index() + 3) % 4,
    {
        let i = self.index();
        Self::from_index(if i == 0 {
            3
        } else {
            i - 1
        })
    }

    /// The next tab, wrapping from the last to the first.
    pub fn next(self) -> (r: NodeInfoTab)
        ensures
            r.spec_index() == (self.spec_index() + 1) % 4,
    {
        let i = self.index();
        Self::from_index(if i == 3 {
            0
        } else {
            i + 1
        })
    }

    /// The tab's title.
    pub fn title(self) -> (r: &'static str)
        ensures
            r@ == match self {
                NodeInfoTab::Info => "info"@,
                NodeInfoTab::Traceroutes => "traceroutes"@,
                NodeInfoTab::Position => "position"@,
                NodeInfoTab::Telemetry => "telemetry"@,
            },
    {
        match self {
            NodeInfoTab::Info => "info",
            NodeInfoTab::Traceroutes => "traceroutes",
            NodeInfoTab::Position => "position",
            NodeInfoTab::Telemetry => "telemetry",
        }
    }
}

/// The bit mask after the user toggles the bits of one choice: a choice
/// with any of its bits set is cleared, otherwise all its bits are set.
pub open spec fn spec_toggle(mask: u32, bits: u32) -> u32 {
    if mask & bits > 0 {
        mask & !bits
    } else {
        mask | bits
    }
}

/// Toggles the choice at `index` in the bit mask.
pub fn toggle_choice(mask: u32, choices: &Vec<crate::types::FormBitMaskVariant>, index: usize) -> (r: u32)
    requires
        index < choices.len(),
    ensures
        r == spec_toggle(mask, choices@[index as int].value),
{
    let bits = choices[index].value;
    if mask & bits > 0 {
        mask & !bits
    } else {
        mask | bits
    }
}

/// Toggling a choice twice leaves the mask as it was, when the choice's
/// bits were all set or all clear.
pub proof fn law_toggle_twice_restores(mask: u32, bits: u32)
    requires
        mask & bits == 0 || mask & bits == bits,
        bits != 0,
    ensures
        spec_toggle(spec_toggle(mask, bits), bits) == mask,
{
    if mask & bits == 0 {
        assert((mask | bits) & bits == bits) by (bit_vector);
        assert(bits != 0 ==> bits > 0) by (bit_vector);
        assert(((mask | bits) & !bits) == mask) by (bit_vector)
            requires
                mask & bits == 0,
        ;
    } else {
        assert(mask & bits == bits ==> (bits != 0 ==> mask & bits > 0)) by (bit_vector);
        assert((mask & !bits) & bits == 0) by (bit_vector);
        assert(((mask & !bits) | bits) == mask) by (bit_vector)
            requires
                mask & bits == bits,
        ;
    }
}

/// A key of the keyboard, as the channel list reads it.
#[derive(Debug, Clone, Copy, PartialEq, Eq, Structural)]
pub enum ListKey {
    Enter,
    Esc,
    Delete,
    Backspace,
    Tab,
    BackTab,
    Other,
}

/// What the channel list asks of the application.
#[derive(Debug, Clone, Copy, PartialEq, Eq, Structural)]
pub enum ChannelsRequest {
    Open(u32),
    Purge(u32),
}

/// The channel list: the selected row and the channel awaiting the user's
/// confirmation of a purge.
#[derive(Debug, Clone, Copy, PartialEq, Eq, Structural)]
pub struct Channels {
    pub selected: Option<usize>,
    pub channel_purge_key: Option<u32>,
}

impl Channels {
    pub fn new() -> (r: Channels)
        ensures
            r.selected is None,
            r.channel_purge_key is None,
    {
        Channels { selected: None, channel_purge_key: None }
    }

    /// The channel of the selected row among `keys`, the keys of the rows.
    pub open spec fn spec_selected_key(self, keys: Seq<u32>) -> Option<u32> {
        match self.selected {
            Some(i) => if i < keys.len() {
                Some(keys[i as int])
            } else {
                None
            },
            None => None,
        }
    }

    /// A key pressed while the list has the focus, the rows showing the
    /// channels `keys`: returns whether the key was used and the request
    /// it makes. While a purge awaits confirmation, enter confirms it and
    /// escape drops it; otherwise enter opens the selected channel, delete
    /// or backspace asks to confirm its purge, and tab keys pass on.
    pub fn handle_key(&mut self, key: ListKey, keys: &Vec<u32>) -> (r: (bool, Option<ChannelsRequest>))
        ensures
            final(self).selected == old(self).selected,
            old(self).channel_purge_key matches Some(k) ==> match key {
                ListKey::Enter => r == (true, Some(ChannelsRequest::Purge(k)))
                    && final(self).channel_purge_key is None,
                ListKey::Esc => r == (true, None::<ChannelsRequest>) && final(self).channel_purge_key
                    is None,
                _ => r == (false, None::<ChannelsRequest>) && *final(self) == *old(self),
            },
            old(self).channel_purge_key is None ==> match key {
                ListKey::Enter => r == (
                    true,
                    match old(self).spec_selected_key(keys@) {
                        Some(k) => Some(ChannelsRequest::Open(k)),
                        None => None,
                    },
                ) && *final(self) == *old(self),
                ListKey::Delete | ListKey::Backspace => r == (true, None::<ChannelsRequest>)
                    && final(self).channel_purge_key == old(self).spec_selected_key(keys@),
                _ => r == (false, None::<ChannelsRequest>) && *final(self) == *old(self),
            },
    {
        let selected_key = match self.selected {
            Some(i) => if i < keys.len() {
                Some(keys[i])
            } else {
                None
            },
            None => None,
        };
        match self.channel_purge_key {
            Some(k) => match key {
                ListKey::Enter => {
                    self.channel_purge_key = None;
                    (true, Some(ChannelsRequest::Purge(k)))
                },
                ListKey::Esc => {
                    self.channel_purge_key = None;
                    (true, None)
                },
                _ => (false, None),
            },
            None => match key {
                ListKey::Enter => (
                    true,
                    match selected_key {
                        Some(k) => Some(ChannelsRequest::Open(k)),
                        None => None,
                    },
                ),
                ListKey::Delete | ListKey::Backspace => {
                    if selected_key.is_some() {
                        self.channel_purge_key = selected_key;
                    }
                    (true, None)
                },
                _ => (false, None),
            },
        }
    }
}

/// The header of the screen.
#[derive(Debug, Clone, Copy, PartialEq, Eq, Structural)]
pub struct Header {}

impl Header {
    pub fn new() -> (r: Header)
        ensures
            r == (Header {}),
    {
        Header {}
    }
}

/// The warning shown when the terminal is smaller than the application
/// needs: the size it needs, columns and rows.
#[derive(Debug, Clone, Copy)]
pub struct TerminalSize {
    pub required_size: (u16, u16),
}

impl TerminalSize {
    pub fn new(required_size: (u16, u16)) -> (r: TerminalSize)
        ensures
            r.required_size == required_size,
    {
        TerminalSize { required_size }
    }

    /// The sizes line of the warning: `WxH [wxh]`, the size needed and the
    /// size there is.
    pub fn sizes_text(&self, width: u16, height: u16) -> (r: String)
        ensures
            r@ == decimal_digits(self.required_size.0 as nat) + seq!['x'] + decimal_digits(
                self.required_size.1 as nat,
            ) + " ["@ + decimal_digits(width as nat) + seq!['x'] + decimal_digits(height as nat)
                + "]"@,
    {
        let mut s = String::new();
        push_decimal(&mut s, self.required_size.0 as u64);
        push_char(&mut s, 'x');
        push_decimal(&mut s, self.required_size.1 as u64);
        s.append(" [");
        push_decimal(&mut s, width as u64);
        push_char(&mut s, 'x');
        push_decimal(&mut s, height as u64);
        s.append("]");
        s
    }
}

/// A rectangle of the screen, in cells.
#[derive(Debug, Clone, Copy, PartialEq, Eq, Structural)]
pub struct Rect {
    pub x: u16,
    pub y: u16,
    pub width: u16,
    pub height: u16,
}

/// The input popup, of a given width.
#[derive(Debug, Clone, Copy, PartialEq, Eq, Structural)]
pub struct PopupInputWidget {
    pub width: u16,
}

impl PopupInputWidget {
    pub fn new(width: u16) -> (r: PopupInputWidget)
        ensures
            r.width == width,
    {
        PopupInputWidget { width }
    }

    /// Where the popup goes in `area`: centered, four rows high. The area
    /// must hold the popup's half width and two rows around its middle.
    pub fn popup_area(&self, area: Rect) -> (r: Rect)
        requires
            area.x + area.width / 2 <= u16::MAX,
            area.x + area.width / 2 >= self.width / 2,
            area.y + area.height / 2 <= u16::MAX,
            area.y + area.height / 2 >= 2,
        ensures
            r == (Rect {
                x: (area.x + area.width / 2 - self.width / 2) as u16,
                y: (area.y + area.height / 2 - 2) as u16,
                width: self.width,
                height: 4,
            }),
    {
        Rect {
            x: area.x + area.width / 2 - self.width / 2,
            y: area.y + area.height / 2 - 2,
            width: self.width,
            height: 4,
        }
    }
}

/// The emoji picker popup.
#[derive(Debug, Clone, Copy, PartialEq, Eq, Structural)]
pub struct EmojiSelectorWidget {}

impl EmojiSelectorWidget {
    pub fn new() -> (r: EmojiSelectorWidget)
        ensures
            r == (EmojiSelectorWidget {}),
    {
        EmojiSelectorWidget {}
    }
}

} // verus!
