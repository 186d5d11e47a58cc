//! The chat list, the log screen and the emoji picker: what they do with
//! the keys.
use vstd::prelude::*;
use crate::chat::Chat;
use crate::events::AppEvent;
use crate::screens::{is_plain, list_move, spec_list_move, Input, Key, ListMove};
use crate::text::views;

verus! {

/// The chat list, and the chat whose purge waits for the user's
/// confirmation.
#[derive(Debug, Clone, Copy, PartialEq, Eq, Structural)]
pub struct ChatListScreen {
    pub chat_purge: Option<Chat>,
}

/// What one input did to the chat list: whether the list used it, the
/// event it sends, and how its selection moves.
#[derive(Debug)]
pub struct ChatListStep {
    pub handled: bool,
    pub event: Option<AppEvent>,
    pub list_move: Option<ListMove>,
}

/// The row of `rows` that `selected` points at.
pub open spec fn selected_row<T>(rows: Seq<T>, selected: Option<usize>) -> Option<T> {
    match selected {
        Some(i) => if i < rows.len() {
            Some(rows[i as int])
        } else {
            None
        },
        None => None,
    }
}

/// The list after an input, given the chats of its rows and the selected
/// row, whether it used the input, the event it sends and how the
/// selection moves.
pub open spec fn spec_chat_list_step(
    s: ChatListScreen,
    input: Input,
    chats: Seq<Chat>,
    selected: Option<usize>,
) -> (ChatListScreen, bool, Option<AppEvent>, Option<ListMove>) {
    if s.chat_purge is Some {
        if is_plain(input, Key::Enter) {
            (ChatListScreen { chat_purge: None }, true, Some(AppEvent::ChatPurgeRequested(s.chat_purge->0)), None)
        } else if is_plain(input, Key::Esc) {
            (ChatListScreen { chat_purge: None }, true, None, None)
        } else {
            (s, true, None, None)
        }
    } else if spec_list_move(input, chats.len() as usize) is Some {
        (s, true, None, spec_list_move(input, chats.len() as usize))
    } else if is_plain(input, Key::Enter) {
        (
            s,
            true,
            match selected_row(chats, selected) {
                Some(c) => Some(AppEvent::ChatSelected(c)),
                None => None,
            },
            None,
        )
    } else if is_plain(input, Key::Delete) || is_plain(input, Key::Backspace) {
        (
            if selected_row(chats, selected) is Some {
                ChatListScreen { chat_purge: selected_row(chats, selected) }
            } else {
                s
            },
            true,
            None,
            None,
        )
    } else {
        (s, false, None, None)
    }
}

/// The key of a press with no modifier key held.
fn plain_key(input: &Input) -> (r: Option<Key>)
    ensures
        forall|k: Key| #[trigger] is_plain(*input, k) <==> r == Some(k),
{
    match input {
        Input::Press { key, plain, .. } => if *plain {
            Some(*key)
        } else {
            None
        },
        _ => None,
    }
}

/// The key of a press, whatever modifier keys were held.
fn any_key(input: &Input) -> (r: Option<Key>)
    ensures
        forall|k: Key| #[trigger] pressed(*input, k) <==> r == Some(k),
{
    match input {
        Input::Press { key, .. } => Some(*key),
        _ => None,
    }
}

/// The input is a press of `k`, whatever modifier keys were held.
pub open spec fn pressed(input: Input, k: Key) -> bool {
    input matches Input::Press { key, .. } && key == k
}

fn row_of(chats: &Vec<Chat>, selected: Option<usize>) -> (r: Option<Chat>)
    ensures
        r == selected_row(chats@, selected),
{
    match selected {
        Some(i) => if i < chats.len() {
            Some(chats[i])
        } else {
            None
        },
        None => None,
    }
}

impl ChatListScreen {
    pub fn new() -> (r: ChatListScreen)
        ensures
            r.chat_purge is None,
    {
        ChatListScreen { chat_purge: None }
    }

    /// What the chat list does with an input, its rows showing `chats` and
    /// `selected` its selected row (the open chat's screen takes the inputs
    /// while a chat is open). While a purge waits for confirmation, enter
    /// asks for it and escape drops it, and the list takes every input.
    /// Otherwise the selection moves by the navigation keys, enter opens
    /// the selected chat, and delete or backspace asks to confirm its
    /// purge.
    pub fn handle_input(&mut self, input: &Input, chats: &Vec<Chat>, selected: Option<usize>) -> (r: ChatListStep)
        ensures
            ({
                let (s, handled, event, moved) = spec_chat_list_step(*old(self), *input, chats@, selected);
                &&& *final(self) == s
                &&& r.handled == handled
                &&& r.event == event
                &&& r.list_move == moved
            }),
    {
        let key = plain_key(input);
        if let Some(chat) = self.chat_purge {
            if key == Some(Key::Enter) {
                self.chat_purge = None;
                return ChatListStep { handled: true, event: Some(AppEvent::ChatPurgeRequested(chat)), list_move: None };
            } else if key == Some(Key::Esc) {
                self.chat_purge = None;
            }
            return ChatListStep { handled: true, event: None, list_move: None };
        }
        let m = list_move(input, chats.len());
        if m.is_some() {
            return ChatListStep { handled: true, event: None, list_move: m };
        }
        let row = row_of(chats, selected);
        if key == Some(Key::Enter) {
            let event = match row {
                Some(c) => Some(AppEvent::ChatSelected(c)),
                None => None,
            };
            return ChatListStep { handled: true, event, list_move: None };
        }
        if key == Some(Key::Delete) || key == Some(Key::Backspace) {
            if row.is_some() {
                self.chat_purge = row;
            }
            return ChatListStep { handled: true, event: None, list_move: None };
        }
        ChatListStep { handled: false, event: None, list_move: None }
    }
}

/// A scroll of the open log record.
#[derive(Debug, Clone, Copy, PartialEq, Eq, Structural)]
pub enum RecordScroll {
    First,
    Previous,
    Next,
}

/// The log screen: whether a record is open in a popup, and whether the
/// selection follows the newest record.
#[derive(Debug, Clone, Copy, PartialEq, Eq, Structural)]
pub struct LogsScreen {
    pub popup_open: bool,
    pub follow: bool,
}

/// What one input did to the log screen: whether it used the input, the
/// event it sends, the record it opens, how the open record scrolls, and
/// how the selection moves (after which the screen is told the new
/// selection).
#[derive(Debug)]
pub struct LogsStep {
    pub handled: bool,
    pub event: Option<AppEvent>,
    pub open_record: Option<usize>,
    pub record_scroll: Option<RecordScroll>,
    pub list_move: Option<ListMove>,
}

/// The copy of the selected record's text, when a row is selected.
pub open spec fn copy_of(selected_text: Option<String>) -> Option<AppEvent> {
    match selected_text {
        Some(t) => Some(AppEvent::CopyToClipboardRequested(t)),
        None => None,
    }
}

/// The screen after an input, given the number of records, the selected
/// row and its record's text: whether it used the input, the event it
/// sends, the record it opens, how the open record scrolls and how the
/// selection moves.
pub open spec fn spec_logs_step(
    s: LogsScreen,
    input: Input,
    count: usize,
    selected: Option<usize>,
    selected_text: Option<String>,
) -> (LogsScreen, LogsStep) {
    let none = LogsStep { handled: true, event: None, open_record: None, record_scroll: None, list_move: None };
    if s.popup_open {
        if pressed(input, Key::Up) || input is ScrollUp {
            (s, LogsStep { record_scroll: Some(RecordScroll::Previous), ..none })
        } else if pressed(input, Key::Down) || input is ScrollDown {
            (s, LogsStep { record_scroll: Some(RecordScroll::Next), ..none })
        } else if pressed(input, Key::Char('c')) && selected is Some {
            (s, LogsStep { event: copy_of(selected_text), ..none })
        } else if pressed(input, Key::Esc) {
            (LogsScreen { popup_open: false, ..s }, none)
        } else {
            (s, LogsStep { handled: false, ..none })
        }
    } else if spec_list_move(input, count) is Some {
        (s, LogsStep { list_move: spec_list_move(input, count), ..none })
    } else if pressed(input, Key::Enter) {
        if selected is Some {
            (
                LogsScreen { popup_open: true, ..s },
                LogsStep { open_record: selected, record_scroll: Some(RecordScroll::First), ..none },
            )
        } else {
            (s, none)
        }
    } else if pressed(input, Key::Char('c')) && selected is Some {
        (s, LogsStep { event: copy_of(selected_text), ..none })
    } else {
        (s, LogsStep { handled: false, ..none })
    }
}

/// The step carries exactly what the specification says.
pub open spec fn logs_step_is(r: LogsStep, e: LogsStep) -> bool {
    &&& r.handled == e.handled
    &&& r.event == e.event
    &&& r.open_record == e.open_record
    &&& r.record_scroll == e.record_scroll
    &&& r.list_move == e.list_move
}

impl LogsScreen {
    pub fn new() -> (r: LogsScreen)
        ensures
            !r.popup_open,
            r.follow,
    {
        LogsScreen { popup_open: false, follow: true }
    }

    /// What the log screen does with an input, given the number of
    /// records, the selected row and the text of its record. With a record
    /// open, the arrows and the wheel scroll it, c copies the selected
    /// record and escape closes it. Otherwise the selection moves by the
    /// navigation keys, enter opens the selected record from its top, and
    /// c copies it.
    pub fn handle_input(
        &mut self,
        input: &Input,
        count: usize,
        selected: Option<usize>,
        selected_text: Option<String>,
    ) -> (r: LogsStep)
        requires
            selected_text is Some <==> selected is Some,
        ensures
            ({
                let (s, e) = spec_logs_step(*old(self), *input, count, selected, selected_text);
                *final(self) == s && logs_step_is(r, e)
            }),
    {
        let key = any_key(input);
        let none = LogsStep { handled: true, event: None, open_record: None, record_scroll: None, list_move: None };
        let copy = match selected_text {
            Some(t) => Some(AppEvent::CopyToClipboardRequested(t)),
            None => None,
        };
        if self.popup_open {
            if key == Some(Key::Up) || matches!(input, Input::ScrollUp) {
                return LogsStep { record_scroll: Some(RecordScroll::Previous), ..none };
            } else if key == Some(Key::Down) || matches!(input, Input::ScrollDown) {
                return LogsStep { record_scroll: Some(RecordScroll::Next), ..none };
            } else if key == Some(Key::Char('c')) && selected.is_some() {
                return LogsStep { event: copy, ..none };
            } else if key == Some(Key::Esc) {
                self.popup_open = false;
                return none;
            }
            return LogsStep { handled: false, ..none };
        }
        let m = list_move(input, count);
        if m.is_some() {
            return LogsStep { list_move: m, ..none };
        }
        if key == Some(Key::Enter) {
            if selected.is_some() {
                self.popup_open = true;
                return LogsStep { open_record: selected, record_scroll: Some(RecordScroll::First), ..none };
            }
            return none;
        }
        if key == Some(Key::Char('c')) && selected.is_some() {
            return LogsStep { event: copy, ..none };
        }
        LogsStep { handled: false, ..none }
    }

    /// After the selection moved: it follows the newest record when the
    /// newest is selected, and stops following when another is.
    pub fn selection_moved(&mut self, selected: Option<usize>, count: usize)
        requires
            selected is Some ==> count > 0,
        ensures
            final(self).popup_open == old(self).popup_open,
            final(self).follow == match selected {
                Some(i) => i == count - 1,
                None => old(self).follow,
            },
    {
        if let Some(i) = selected {
            self.follow = i == count - 1;
        }
    }

    /// The row the list selects as it is drawn: the newest record while
    /// following, nothing otherwise.
    pub fn follow_target(&self, count: usize) -> (r: Option<usize>)
        ensures
            r == (if self.follow && count > 0 {
                Some((count - 1) as usize)
            } else {
                None::<usize>
            }),
    {
        if self.follow && count > 0 {
            Some(count - 1)
        } else {
            None
        }
    }
}

/// The glyphs of the emojis whose English name fuzzily matches the search
/// term, the best matches first, by the `emoji` crate's table.
pub uninterp spec fn emoji_search(term: Seq<char>) -> Seq<Seq<char>>;

/// `emoji::search::search_name`: the emojis whose name fuzzily matches the
/// term, ordered by the match's score and then by name; their glyphs.
#[verifier::external_body]
fn search_emoji(term: &str) -> (r: Vec<String>)
    ensures
        views(r@) == emoji_search(term@),
{
    emoji::search::search_name(term).into_iter().map(|e| e.glyph.to_string()).collect()
}

/// The emoji picker: the glyphs the search found.
#[derive(Debug, Clone)]
pub struct EmojiPicker {
    pub emojis: Vec<String>,
}

impl EmojiPicker {
    /// A picker that shows every emoji.
    pub fn new() -> (r: EmojiPicker)
        ensures
            views(r.emojis@) == emoji_search(Seq::empty()),
    {
        proof {
            reveal_strlit("");
            assert(""@ =~= Seq::<char>::empty());
        }
        EmojiPicker { emojis: search_emoji("") }
    }

    /// The emoji of the selected row.
    pub fn value(&self, selected: Option<usize>) -> (r: Option<String>)
        ensures
            r matches Some(g) ==> selected_row(views(self.emojis@), selected) == Some(g@),
            r is None ==> selected_row(views(self.emojis@), selected) is None,
    {
        match selected {
            Some(i) => if i < self.emojis.len() {
                Some(self.emojis[i].clone())
            } else {
                None
            },
            None => None,
        }
    }

    /// Shows every emoji again; the first row is to be selected.
    pub fn reset(&mut self) -> (first: usize)
        ensures
            views(final(self).emojis@) == emoji_search(Seq::empty()),
            first == 0,
    {
        proof {
            reveal_strlit("");
            assert(""@ =~= Seq::<char>::empty());
        }
        self.emojis = search_emoji("");
        0
    }

    /// How the selection moves for an input: the arrows and the wheel move
    /// it; `None` sends the input to the search field, after which the
    /// picker searches for the field's text.
    pub fn handle_input(&self, input: &Input) -> (r: Option<ListMove>)
        ensures
            r == (if pressed(*input, Key::Up) || *input is ScrollUp {
                Some(ListMove::Previous)
            } else if pressed(*input, Key::Down) || *input is ScrollDown {
                Some(ListMove::Next)
            } else {
                None::<ListMove>
            }),
    {
        match input {
            Input::Press { key: Key::Up, .. } | Input::ScrollUp => Some(ListMove::Previous),
            Input::Press { key: Key::Down, .. } | Input::ScrollDown => Some(ListMove::Next),
            _ => None,
        }
    }

    /// Searches for the typed text; returns the row to select, the first
    /// when anything was found.
    pub fn search(&mut self, text: &str) -> (select: Option<usize>)
        ensures
            views(final(self).emojis@) == emoji_search(text@),
            select == (if emoji_search(text@).len() > 0 {
                Some(0usize)
            } else {
                None::<usize>
            }),
    {
        self.emojis = search_emoji(text);
        proof {
            assert(views(self.emojis@).len() == self.emojis@.len());
        }
        if self.emojis.len() > 0 {
            Some(0)
        } else {
            None
        }
    }
}

} // verus!
