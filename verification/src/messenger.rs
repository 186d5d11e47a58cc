//! The chat screen: what a typed message sends, and what the keys do to the
//! message list, the reply being written and the popups.
use vstd::prelude::*;
use vstd::string::*;
use crate::chat::Chat;
use crate::events::AppEvent;
use crate::helpers::{text_char_len, trim_lines, trimmed_len, trimmed_lines_of};
use crate::screens::{is_plain, list_move, spec_list_move, Input, Key, ListMove};
use crate::settings_screen::{is_press, Handled};
use crate::state::State;
use crate::text::{push_char, views};

verus! {

/// The longest message the chat sends, in characters.
pub const INPUT_VALUE_MAX_LENGTH: usize = 200;

/// Lines joined by newlines.
pub open spec fn lines_text(ls: Seq<Seq<char>>) -> Seq<char>
    decreases ls.len(),
{
    if ls.len() == 0 {
        Seq::empty()
    } else if ls.len() == 1 {
        ls[0]
    } else {
        lines_text(ls.drop_last()) + seq!['\n'] + ls.last()
    }
}

/// Joins the lines with newlines.
pub fn join_lines(lines: &Vec<String>) -> (r: String)
    ensures
        r@ == lines_text(views(lines@)),
{
    let mut r = String::new();
    let mut i: usize = 0;
    while i < lines.len()
        invariant
            i <= lines.len(),
            r@ == lines_text(views(lines@.subrange(0, i as int))),
        decreases lines.len() - i,
    {
        let ghost before = r@;
        if i > 0 {
            push_char(&mut r, '\n');
        }
        r.append(lines[i].as_str());
        proof {
            let s = views(lines@.subrange(0, i + 1));
            assert(s.drop_last() =~= views(lines@.subrange(0, i as int)));
            assert(s.last() == lines@[i as int]@);
            if i == 0 {
                assert(s =~= seq![lines@[0]@]);
            }
        }
        i = i + 1;
    }
    assert(lines@.subrange(0, lines.len() as int) =~= lines@);
    r
}

/// The glyph of the emoji that the text is, in the `emoji` crate's table.
pub uninterp spec fn emoji_glyph(text: Seq<char>) -> Option<Seq<char>>;

/// `emoji::lookup_by_glyph::lookup`: the emoji whose glyph (or a variant of
/// it) the text is, by its glyph; `None` for a text that is no emoji.
#[verifier::external_body]
pub(crate) fn lookup_emoji(text: &str) -> (r: Option<String>)
    ensures
        r matches Some(g) ==> emoji_glyph(text@) == Some(g@),
        r is None ==> emoji_glyph(text@) is None,
{
    emoji::lookup_by_glyph::lookup(text).map(|e| e.glyph.to_string())
}

/// What typed lines make.
#[derive(Debug, Clone, Copy, PartialEq, Eq, Structural)]
pub enum Composed {
    /// nothing: the trimmed text is longer than the chat takes
    TooLong,
    /// a reaction: the lines answer a message with a single line that is an
    /// emoji
    Reaction,
    /// a message of the trimmed lines
    Text,
}

/// What the typed lines make, answering the message `reply_message_id` if
/// there is one.
pub open spec fn spec_composed(lines: Seq<Seq<char>>, reply_message_id: Option<u32>) -> Composed {
    if text_char_len(trimmed_lines_of(lines)) > INPUT_VALUE_MAX_LENGTH {
        Composed::TooLong
    } else if reply_message_id is Some && lines.len() == 1 && emoji_glyph(lines[0]) is Some {
        Composed::Reaction
    } else {
        Composed::Text
    }
}

/// The event sends what the lines make: the emoji by its glyph, or the
/// trimmed lines joined by newlines.
pub open spec fn composes(e: AppEvent, lines: Seq<Seq<char>>, reply_message_id: Option<u32>) -> bool {
    match spec_composed(lines, reply_message_id) {
        Composed::Reaction => e matches AppEvent::ChatReactionSubmitted { emoji, reply_message_id: rid }
            && rid == reply_message_id && emoji_glyph(lines[0]) == Some(emoji@),
        Composed::Text => e matches AppEvent::ChatMessageSubmitted { text, reply_message_id: rid }
            && rid == reply_message_id && text@ == lines_text(trimmed_lines_of(lines)),
        Composed::TooLong => false,
    }
}

/// What the typed lines send always answers the message they were typed
/// as an answer to: a reaction only when answering and the lines are one
/// emoji, otherwise the text; and the typed text is refused exactly when,
/// trimmed, it is longer than 200 characters.
pub proof fn law_composed_keeps_reply(lines: Seq<Seq<char>>, reply_message_id: Option<u32>, e: AppEvent)
    ensures
        (spec_composed(lines, reply_message_id) == Composed::TooLong) == (text_char_len(trimmed_lines_of(lines))
            > 200),
        composes(e, lines, reply_message_id) ==> (e matches AppEvent::ChatReactionSubmitted {
            reply_message_id: rid,
            ..
        } && rid == reply_message_id && reply_message_id is Some && lines.len() == 1) || (
        e matches AppEvent::ChatMessageSubmitted { text, reply_message_id: rid } && rid == reply_message_id
            && text@ == lines_text(trimmed_lines_of(lines))),
        reply_message_id is None && composes(e, lines, reply_message_id) ==> e is ChatMessageSubmitted,
{
}

/// What the typed lines send, if anything.
pub fn compose(lines: &Vec<String>, reply_message_id: Option<u32>) -> (r: Option<AppEvent>)
    ensures
        spec_composed(views(lines@), reply_message_id) == Composed::TooLong <==> r is None,
        r matches Some(e) ==> composes(e, views(lines@), reply_message_id),
{
    if trimmed_len(lines) > INPUT_VALUE_MAX_LENGTH {
        return None;
    }
    if reply_message_id.is_some() && lines.len() == 1 {
        match lookup_emoji(lines[0].as_str()) {
            Some(glyph) => {
                return Some(AppEvent::ChatReactionSubmitted { emoji: glyph, reply_message_id });
            },
            None => {},
        }
    }
    let trimmed = trim_lines(lines);
    Some(AppEvent::ChatMessageSubmitted { text: join_lines(&trimmed), reply_message_id })
}

/// The messages of a chat that the state holds, in the chat's order.
pub open spec fn shown_messages(state: State, ids: Seq<u32>) -> Seq<u32>
    decreases ids.len(),
{
    if ids.len() == 0 {
        Seq::empty()
    } else {
        let before = shown_messages(state, ids.drop_last());
        if state.messages@.contains_key(ids.last()) {
            before.push(ids.last())
        } else {
            before
        }
    }
}

/// The messages of the chat `chat` that the state holds, in order.
pub fn chat_messages(state: &State, chat: Chat) -> (r: Vec<u32>)
    requires
        state.chats.wf(),
    ensures
        (exists|i: int|
            0 <= i < state.chats.entries.len() && #[trigger] state.chats.entries@[i].0 == chat && r@
                == shown_messages(*state, state.chats.entries@[i].1@)) || (!state.chats.contains(chat)
            && r@.len() == 0),
{
    match state.chats.get(&chat) {
        Some(ids) => {
            let mut r: Vec<u32> = Vec::new();
            let mut i: usize = 0;
            while i < ids.len()
                invariant
                    i <= ids.len(),
                    r@ == shown_messages(*state, ids@.subrange(0, i as int)),
                decreases ids.len() - i,
            {
                proof {
                    assert(ids@.subrange(0, i + 1).drop_last() =~= ids@.subrange(0, i as int));
                }
                if state.messages.contains_key(&ids[i]) {
                    r.push(ids[i]);
                }
                i = i + 1;
            }
            assert(ids@.subrange(0, ids.len() as int) =~= ids@);
            proof {
                let j = choose|j: int|
                    0 <= j < state.chats.entries.len() && #[trigger] state.chats.entries@[j] == (chat, *ids);
                assert(state.chats.entries@[j].0 == chat && r@ == shown_messages(
                    *state,
                    state.chats.entries@[j].1@,
                ));
            }
            r
        },
        None => Vec::new(),
    }
}


/// Nothing is typed: the field holds no line, or one empty line.
pub open spec fn lines_empty(ls: Seq<Seq<char>>) -> bool {
    ls.len() == 0 || (ls.len() == 1 && ls[0].len() == 0)
}

/// Whether nothing is typed.
pub fn is_empty_text(lines: &Vec<String>) -> (r: bool)
    ensures
        r == lines_empty(views(lines@)),
{
    lines.len() == 0 || (lines.len() == 1 && lines[0].unicode_len() == 0)
}

/// What the chat screen asks of the text field the message is typed in.
#[derive(Debug)]
pub enum TextRequest {
    Insert(String),
    /// insert pasted text, line by line
    InsertAsLines(String),
    InsertNewline,
    Clear,
    /// let the field edit itself by the input
    Forward,
}

/// What the chat screen asks of the emoji picker.
#[derive(Debug, Clone, Copy, PartialEq, Eq, Structural)]
pub enum PickerRequest {
    /// forget the choice
    Reset,
    /// let the picker take the input
    Forward,
}

/// The chat screen's answer to an input.
#[derive(Debug)]
pub struct MessengerStep {
    pub handled: Handled,
    pub events: Vec<AppEvent>,
    pub list_move: Option<ListMove>,
    /// whether the list now follows new messages
    pub follow: Option<bool>,
    /// after the list moved: follow new messages when the last is selected
    pub follow_selection: bool,
    pub text: Vec<TextRequest>,
    pub picker: Option<PickerRequest>,
    /// let the reactions viewer take the input, the selected message having
    /// this many reactions the state holds
    pub reactions: Option<usize>,
}

/// The popups of the chat screen.
#[derive(Debug, Clone, Copy, PartialEq, Eq, Structural)]
pub struct MessengerScreen {
    pub is_reaction_viewer_visible: bool,
    pub is_emoji_selector_visible: bool,
}

/// The message of the selected row.
pub open spec fn selected_message(messages: Seq<u32>, selected: Option<usize>) -> Option<u32> {
    match selected {
        Some(i) => if i < messages.len() {
            Some(messages[i as int])
        } else {
            None
        },
        None => None,
    }
}

/// The step does nothing but answer `handled`.
pub open spec fn idle(r: MessengerStep, handled: Handled) -> bool {
    &&& r.handled == handled
    &&& r.events@.len() == 0
    &&& r.list_move is None
    &&& r.follow is None
    &&& !r.follow_selection
    &&& r.text@.len() == 0
    &&& r.picker is None
    &&& r.reactions is None
}

/// How many of the reactions `ids` the state holds.
pub open spec fn held_count(state: State, ids: Seq<u32>) -> nat
    decreases ids.len(),
{
    if ids.len() == 0 {
        0
    } else {
        held_count(state, ids.drop_last()) + if state.messages@.contains_key(ids.last()) {
            1nat
        } else {
            0nat
        }
    }
}

impl MessengerStep {
    fn idle(handled: Handled) -> (r: MessengerStep)
        ensures
            idle(r, handled),
    {
        MessengerStep {
            handled,
            events: Vec::new(),
            list_move: None,
            follow: None,
            follow_selection: false,
            text: Vec::new(),
            picker: None,
            reactions: None,
        }
    }
}

fn selected_of(messages: &Vec<u32>, selected: Option<usize>) -> (r: Option<u32>)
    ensures
        r == selected_message(messages@, selected),
{
    match selected {
        Some(i) => if i < messages.len() {
            Some(messages[i])
        } else {
            None
        },
        None => None,
    }
}

/// How many reactions of the message `id` the state holds.
pub open spec fn spec_reactions_held(state: State, id: Option<u32>) -> usize {
    match id {
        Some(k) => if state.messages@.contains_key(k) {
            held_count(state, state.messages@[k].reactions@) as usize
        } else {
            0
        },
        None => 0,
    }
}

/// How many reactions of the message `id` the state holds.
fn reactions_held(state: &State, id: Option<u32>) -> (r: usize)
    ensures
        match id {
            Some(k) => if state.messages@.contains_key(k) {
                r == held_count(*state, state.messages@[k].reactions@)
            } else {
                r == 0
            },
            None => r == 0,
        },
{
    match id {
        Some(k) => match state.messages.get(&k) {
            Some(m) => {
                let mut n: usize = 0;
                let mut i: usize = 0;
                while i < m.reactions.len()
                    invariant
                        i <= m.reactions.len(),
                        n == held_count(*state, m.reactions@.subrange(0, i as int)),
                        n <= i,
                    decreases m.reactions.len() - i,
                {
                    proof {
                        assert(m.reactions@.subrange(0, i + 1).drop_last() =~= m.reactions@.subrange(0, i as int));
                    }
                    if state.messages.contains_key(&m.reactions[i]) {
                        n = n + 1;
                    }
                    i = i + 1;
                }
                assert(m.reactions@.subrange(0, m.reactions.len() as int) =~= m.reactions@);
                n
            },
            None => 0,
        },
        None => 0,
    }
}

impl MessengerScreen {
    pub fn new() -> (r: MessengerScreen)
        ensures
            !r.is_reaction_viewer_visible && !r.is_emoji_selector_visible,
    {
        MessengerScreen { is_reaction_viewer_visible: false, is_emoji_selector_visible: false }
    }

    /// What the chat screen does with an input, given the state, the chat's
    /// messages (as `chat_messages` gives them) and the selected row, the
    /// message being answered (its sender and its id), the typed lines and
    /// the emoji the picker has chosen.
    ///
    /// The reactions viewer comes first (escape closes it), then the emoji
    /// picker (enter inserts the chosen emoji into the text, escape closes
    /// it). While answering a message, F5 opens the picker, enter sends the
    /// answer (a reaction when it is a single emoji) unless it is too long,
    /// escape stops answering, and other inputs edit the text. Otherwise,
    /// with nothing typed, the list moves; alt-enter starts a new line, enter
    /// sends the text unless it is too long, F2 answers the selected message
    /// when its sender is known, F4 opens its sender, F5 opens the picker, F7
    /// shows its reactions, escape leaves the chat, the tab keys pass on, and
    /// other inputs edit the text.
    pub fn handle_input(
        &mut self,
        input: &Input,
        state: &State,
        messages: &Vec<u32>,
        selected: Option<usize>,
        reply: &mut Option<(u32, u32)>,
        lines: &Vec<String>,
        chosen_emoji: Option<String>,
    ) -> (r: MessengerStep)
        ensures
            old(self).is_reaction_viewer_visible ==> {
                &&& *final(reply) == *old(reply)
                &&& final(self).is_emoji_selector_visible == old(self).is_emoji_selector_visible
                &&& if is_plain(*input, Key::Esc) {
                    !final(self).is_reaction_viewer_visible && idle(r, Handled::Yes)
                } else {
                    *final(self) == *old(self) && r.handled == Handled::ByPopup && r.events@.len() == 0
                        && r.reactions == Some(spec_reactions_held(*state, selected_message(messages@, selected)))
                }
            },
            !old(self).is_reaction_viewer_visible && old(self).is_emoji_selector_visible ==> {
                &&& *final(reply) == *old(reply)
                &&& r.events@.len() == 0
                &&& if is_plain(*input, Key::Enter) && chosen_emoji is Some {
                    !final(self).is_emoji_selector_visible && r.handled == Handled::Yes && r.text@.len()
                        == 1 && (r.text@[0] matches TextRequest::Insert(t) && t@ == chosen_emoji->0@)
                } else if is_plain(*input, Key::Esc) {
                    !final(self).is_emoji_selector_visible && r.handled == Handled::Yes && r.picker
                        == Some(PickerRequest::Reset)
                } else {
                    *final(self) == *old(self) && r.handled == Handled::ByPopup && r.picker == Some(
                        PickerRequest::Forward,
                    )
                }
            },
            !old(self).is_reaction_viewer_visible && !old(self).is_emoji_selector_visible && *old(reply)
                is Some ==> {
                &&& !final(self).is_reaction_viewer_visible
                &&& r.handled == Handled::Yes
                &&& if is_plain(*input, Key::F(5)) {
                    final(self).is_emoji_selector_visible && *final(reply) == *old(reply) && r.events@.len()
                        == 0
                } else if is_plain(*input, Key::Enter) && spec_composed(
                    views(lines@),
                    Some(((*old(reply))->0).1),
                ) != Composed::TooLong {
                    *final(self) == *old(self) && *final(reply) is None && r.events@.len() == 1
                        && composes(r.events@[0], views(lines@), Some(((*old(reply))->0).1)) && r.follow == Some(
                        true,
                    ) && r.text@.len() == 1 && r.text@[0] is Clear
                } else if is_plain(*input, Key::Esc) {
                    *final(self) == *old(self) && *final(reply) is None && idle(r, Handled::Yes)
                } else {
                    *final(self) == *old(self) && *final(reply) == *old(reply) && r.events@.len() == 0
                        && r.text@.len() == 1 && r.text@[0] is Forward
                }
            },
            !old(self).is_reaction_viewer_visible && !old(self).is_emoji_selector_visible && *old(reply)
                is None ==> {
                &&& !final(self).is_reaction_viewer_visible || is_plain(*input, Key::F(7))
                &&& if lines_empty(views(lines@)) && spec_list_move(*input, messages.len()) is Some {
                    *final(self) == *old(self) && *final(reply) == *old(reply) && r.handled == Handled::Yes
                        && r.list_move == spec_list_move(*input, messages.len()) && r.follow_selection
                        && r.events@.len() == 0
                } else if is_plain(*input, Key::Enter) {
                    *final(self) == *old(self) && *final(reply) == *old(reply) && r.handled == Handled::Yes
                        && if spec_composed(views(lines@), None) != Composed::TooLong {
                        r.events@.len() == 1 && composes(r.events@[0], views(lines@), None) && r.follow
                            == Some(true) && r.text@.len() == 1 && r.text@[0] is Clear
                    } else {
                        idle(r, Handled::Yes)
                    }
                } else if is_plain(*input, Key::Esc) {
                    *final(self) == *old(self) && *final(reply) == *old(reply) && r.handled == Handled::Yes
                        && r.events@ == seq![AppEvent::ChatSwitchRequested]
                } else if is_plain(*input, Key::F(2)) {
                    *final(self) == *old(self) && r.events@.len() == 0 && match selected_message(
                        messages@,
                        selected,
                    ) {
                        Some(id) => if state.messages@.contains_key(id) && state.nodes@.contains_key(
                            state.messages@[id].from,
                        ) {
                            *final(reply) == Some((state.messages@[id].from, id))
                        } else {
                            *final(reply) == *old(reply)
                        },
                        None => *final(reply) == *old(reply),
                    }
                } else if is_plain(*input, Key::F(4)) {
                    *final(self) == *old(self) && *final(reply) == *old(reply) && match selected_message(
                        messages@,
                        selected,
                    ) {
                        Some(id) => if state.messages@.contains_key(id) {
                            r.events@ == seq![AppEvent::NodeInfoPopupRequested(state.messages@[id].from)]
                        } else {
                            r.events@.len() == 0
                        },
                        None => r.events@.len() == 0,
                    }
                } else if is_press(*input, Key::Tab) || is_press(*input, Key::BackTab) {
                    *final(self) == *old(self) && *final(reply) == *old(reply) && idle(r, Handled::No)
                } else if *input matches Input::Press { key: Key::Enter, plain: false, .. } {
                    *final(self) == *old(self) && *final(reply) == *old(reply) && r.handled == Handled::Yes
                        && r.events@.len() == 0 && r.text@.len() == 1 && r.text@[0] is InsertNewline
                } else if is_plain(*input, Key::F(5)) {
                    final(self).is_emoji_selector_visible && !final(self).is_reaction_viewer_visible
                        && *final(reply) == *old(reply) && idle(r, Handled::Yes)
                } else if is_plain(*input, Key::F(7)) {
                    &&& *final(reply) == *old(reply) && r.handled == Handled::Yes && r.events@.len() == 0
                    &&& r.text@.len() == 0
                    &&& final(self).is_emoji_selector_visible == old(self).is_emoji_selector_visible
                    &&& if selected_message(messages@, selected) is Some {
                        final(self).is_reaction_viewer_visible && r.follow == Some(false)
                    } else {
                        *final(self) == *old(self) && r.follow is None
                    }
                } else {
                    &&& *final(self) == *old(self) && *final(reply) == *old(reply)
                    &&& r.handled == Handled::Yes && r.events@.len() == 0 && r.list_move is None
                    &&& match *input {
                        Input::Paste(t) => r.text@.len() == 2 && (r.text@[0] matches TextRequest::InsertAsLines(
                            s,
                        ) && s@ == t@) && r.text@[1] is Forward,
                        _ => r.text@.len() == 1 && r.text@[0] is Forward,
                    }
                }
            },
    {
        let current = selected_of(messages, selected);
        if self.is_reaction_viewer_visible {
            match input {
                Input::Press { key: Key::Esc, plain: true, .. } => {
                    self.is_reaction_viewer_visible = false;
                    return MessengerStep::idle(Handled::Yes);
                },
                _ => {},
            }
            let mut r = MessengerStep::idle(Handled::ByPopup);
            r.reactions = Some(reactions_held(state, current));
            return r;
        }
        if self.is_emoji_selector_visible {
            match input {
                Input::Press { key: Key::Enter, plain: true, .. } => match chosen_emoji {
                    Some(glyph) => {
                        let ghost g = glyph@;
                        self.is_emoji_selector_visible = false;
                        let mut r = MessengerStep::idle(Handled::Yes);
                        r.text.push(TextRequest::Insert(glyph));
                        assert(r.text@[0] matches TextRequest::Insert(t) && t@ == g);
                        return r;
                    },
                    None => {},
                },
                Input::Press { key: Key::Esc, plain: true, .. } => {
                    self.is_emoji_selector_visible = false;
                    let mut r = MessengerStep::idle(Handled::Yes);
                    r.picker = Some(PickerRequest::Reset);
                    return r;
                },
                _ => {},
            }
            let mut r = MessengerStep::idle(Handled::ByPopup);
            r.picker = Some(PickerRequest::Forward);
            return r;
        }
        if reply.is_some() {
            match input {
                Input::Press { key: Key::F(5), plain: true, .. } => {
                    self.is_emoji_selector_visible = true;
                    return MessengerStep::idle(Handled::Yes);
                },
                Input::Press { key: Key::Enter, plain: true, .. } => {
                    let message_id = match reply {
                        Some((_, m)) => *m,
                        None => 0,
                    };
                    match compose(lines, Some(message_id)) {
                        Some(e) => {
                            *reply = None;
                            let mut r = MessengerStep::idle(Handled::Yes);
                            r.events.push(e);
                            r.follow = Some(true);
                            r.text.push(TextRequest::Clear);
                            return r;
                        },
                        None => {},
                    }
                },
                Input::Press { key: Key::Esc, plain: true, .. } => {
                    *reply = None;
                    return MessengerStep::idle(Handled::Yes);
                },
                _ => {},
            }
            let mut r = MessengerStep::idle(Handled::Yes);
            r.text.push(TextRequest::Forward);
            return r;
        }
        if is_empty_text(lines) {
            match list_move(input, messages.len()) {
                Some(m) => {
                    let mut r = MessengerStep::idle(Handled::Yes);
                    r.list_move = Some(m);
                    r.follow_selection = true;
                    return r;
                },
                None => {},
            }
        }
        let mut r = MessengerStep::idle(Handled::Yes);
        match input {
            Input::Press { key: Key::Enter, plain, .. } => {
                if !*plain {
                    r.text.push(TextRequest::InsertNewline);
                    return r;
                }
                match compose(lines, None) {
                    Some(e) => {
                        r.events.push(e);
                        r.follow = Some(true);
                        r.text.push(TextRequest::Clear);
                    },
                    None => {},
                }
                return r;
            },
            Input::Press { key: Key::F(2), plain: true, .. } => {
                match current {
                    Some(id) => match state.messages.get(&id) {
                        Some(m) => if state.nodes.contains_key(&m.from) {
                            *reply = Some((m.from, id));
                        },
                        None => {},
                    },
                    None => {},
                }
                return r;
            },
            Input::Press { key: Key::F(4), plain: true, .. } => {
                match current {
                    Some(id) => match state.messages.get(&id) {
                        Some(m) => {
                            r.events.push(AppEvent::NodeInfoPopupRequested(m.from));
                        },
                        None => {},
                    },
                    None => {},
                }
                return r;
            },
            Input::Press { key: Key::F(5), plain: true, .. } => {
                self.is_emoji_selector_visible = true;
                return r;
            },
            Input::Press { key: Key::F(7), plain: true, .. } => {
                if current.is_some() {
                    r.follow = Some(false);
                    self.is_reaction_viewer_visible = true;
                }
                return r;
            },
            Input::Press { key: Key::Esc, plain: true, .. } => {
                r.events.push(AppEvent::ChatSwitchRequested);
                return r;
            },
            Input::Press { key: Key::Tab, .. } | Input::Press { key: Key::BackTab, .. } => {
                return MessengerStep::idle(Handled::No);
            },
            Input::Paste(text) => {
                r.text.push(TextRequest::InsertAsLines(text.clone()));
            },
            _ => {},
        }
        r.text.push(TextRequest::Forward);
        r
    }
}

} // verus!
