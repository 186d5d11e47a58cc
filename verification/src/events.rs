//! How the application's services answer what the user asks and what the
//! radio reports: the state actions they dispatch, the commands they send to
//! the radio, and the outside work they ask for.
use vstd::prelude::*;
use crate::chat::Chat;
use crate::config::{outgoing_message, spec_outgoing, OutgoingMessage, OutgoingText};
use crate::device::Device;
use crate::formdata::{FormData, FormValue};
use crate::forms::FormItemKey;
use crate::settings::{form_source, save_plan, section_known, spec_form_section, ConfigSection, SavePlan, SaveRoute};
use crate::state::{State, StateAction, StateField};
use crate::types::{FormId, SettingsFormState, Toast, ToastKind, NODES_SORT_BY_COUNT};

verus! {

/// What the user interface asks of the application.
#[derive(Debug)]
pub enum AppEvent {
    ChatSelected(Chat),
    ChatPurgeRequested(Chat),
    ChatSwitchRequested,
    ChatMessageSubmitted { text: String, reply_message_id: Option<u32> },
    /// a reaction, by its emoji's glyph
    ChatReactionSubmitted { emoji: String, reply_message_id: Option<u32> },
    CopyToClipboardRequested(String),
    DeviceRebootRequested,
    DeviceRediscoverRequested,
    DeviceRemoveRequested(Device),
    DeviceSelected(Device),
    DeviceShutdownRequested,
    DeviceSubmitted(Device),
    DirectChatRequested(u32),
    DisconnectionRequested,
    InitializationRequested,
    NodeDeleteRequested(u32),
    NodeInfoBroadcastRequested,
    NodeInfoPopupCloseRequested,
    NodeInfoPopupRequested(u32),
    NodesFilterChanged(String),
    NodesSortByNextRequested,
    NodesSortByPrevRequested,
    QuitRequested,
    SettingsFormCancelRequested,
    SettingsFormItemSubmitted(FormItemKey, FormValue),
    SettingsFormResetRequested,
    SettingsFormSaveRequested(FormId),
    SettingsFormSelected(FormId),
    SplashLogoRequested,
    TabNextRequested,
    TabPreviousRequested,
    TryingToQuit,
}

/// What a packet from the radio carries, as far as the services read it
/// without decoding its payload.
#[derive(Debug)]
pub enum PacketSummary {
    /// the radio's own node number
    MyInfo(u32),
    /// a channel of the radio, by its index
    Channel(u32, crate::types::Channel),
    /// the radio has sent all of its configuration
    ConfigComplete,
    Rebooted(bool),
    Other,
}

/// What the radio link reports, with packets summarised.
#[derive(Debug)]
pub enum RadioEvent {
    Connected,
    ConnectionError(String),
    Disconnected,
    IncomingPacket(PacketSummary),
    MessageAccepted,
    MessageRejected(String),
    RadioStopped,
    ConfigSaved(FormId),
    ConfigSaveFailed(FormId),
    ChannelsSaved(FormId),
    ChannelsSaveFailed(FormId),
    UserSaved(FormId),
    UserSaveFailed(FormId),
    NodeInfoBroadcastSent,
    NodeInfoBroadcastFailed(String),
    NodeRemoveAccepted,
    NodeRemoveFailed(String),
}

/// A command for the radio.
#[derive(Debug)]
pub enum RadioCommand {
    Send(OutgoingMessage),
    Disconnect,
    Reboot { my_node_num: u32, secs: u32 },
    Shutdown { my_node_num: u32, secs: u32 },
    DeleteNode { node_num: u32, my_node_num: u32 },
    /// broadcast the user of the radio's own node `node_num` on a channel
    BroadcastNodeInfo { channel_id: u32, node_num: u32 },
    LoadCannedMessages { my_node_num: u32 },
}

/// Outside work a service asks for.
#[derive(Debug)]
pub enum Effect {
    /// turn the known section into the form's data, then report it loaded
    ConvertSection { id: FormId, section: ConfigSection },
    /// turn the form's data into the section and send it as planned
    SaveForm { id: FormId, plan: SavePlan },
    CopyToClipboard(String),
    DiscoverDevices,
    OpenDatabase(u32),
    Quit,
}

/// A service's answer: state actions to dispatch, in order, commands for
/// the radio and outside work.
#[derive(Debug)]
pub struct Reaction {
    pub actions: Vec<StateAction>,
    pub commands: Vec<RadioCommand>,
    pub effects: Vec<Effect>,
}

/// The action shows a toast of the kind with the text.
pub open spec fn is_toast(a: StateAction, kind: ToastKind, text: Seq<char>) -> bool {
    a matches StateAction::Toast(t) && t.kind == kind && t.text@ == text
}

/// The reaction does nothing.
pub open spec fn is_quiet(r: Reaction) -> bool {
    r.actions@.len() == 0 && r.commands@.len() == 0 && r.effects@.len() == 0
}

/// The reaction dispatches exactly the action, and nothing else.
pub open spec fn only_action(r: Reaction, a: StateAction) -> bool {
    r.actions@ == seq![a] && r.commands@.len() == 0 && r.effects@.len() == 0
}

/// The reaction only shows a toast of the kind with the text.
pub open spec fn only_toast(r: Reaction, kind: ToastKind, text: Seq<char>) -> bool {
    r.actions@.len() == 1 && is_toast(r.actions@[0], kind, text) && r.commands@.len() == 0
        && r.effects@.len() == 0
}

impl Reaction {
    pub fn none() -> (r: Reaction)
        ensures
            is_quiet(r),
    {
        Reaction { actions: Vec::new(), commands: Vec::new(), effects: Vec::new() }
    }

    pub fn action(a: StateAction) -> (r: Reaction)
        ensures
            only_action(r, a),
    {
        let ghost g = a;
        let r = Reaction { actions: vec![a], commands: Vec::new(), effects: Vec::new() };
        assert(r.actions@ =~= seq![g]);
        r
    }

    pub fn toast(kind: ToastKind, text: &str) -> (r: Reaction)
        ensures
            only_toast(r, kind, text@),
    {
        let t = match kind {
            ToastKind::Success => Toast::success(text),
            ToastKind::Normal => Toast::normal(text),
            ToastKind::Warning => Toast::warning(text),
            ToastKind::Error => Toast::error(text),
        };
        Reaction::action(StateAction::Toast(t))
    }
}

/// The answer of the user interface service: the splash logo on start,
/// tab switches, clipboard copies, the quit hint and quitting.
pub fn ui_app_event(event: AppEvent) -> (r: Reaction)
    ensures
        match event {
            AppEvent::InitializationRequested | AppEvent::SplashLogoRequested => only_action(
                r,
                StateAction::SplashLogo,
            ),
            AppEvent::TabNextRequested => only_action(r, StateAction::TabSwitchToNext),
            AppEvent::TabPreviousRequested => only_action(r, StateAction::TabSwitchToPrevious),
            AppEvent::CopyToClipboardRequested(text) => r.actions@.len() == 0 && r.commands@.len() == 0
                && r.effects@.len() == 1 && r.effects@[0] == Effect::CopyToClipboard(text),
            AppEvent::TryingToQuit => only_toast(r, ToastKind::Normal, "press Esc twice quickly to quit"@),
            AppEvent::QuitRequested => r.actions@.len() == 0 && r.commands@.len() == 0 && r.effects@
                == seq![Effect::Quit],
            _ => is_quiet(r),
        },
{
    match event {
        AppEvent::InitializationRequested | AppEvent::SplashLogoRequested => Reaction::action(
            StateAction::SplashLogo,
        ),
        AppEvent::TabNextRequested => Reaction::action(StateAction::TabSwitchToNext),
        AppEvent::TabPreviousRequested => Reaction::action(StateAction::TabSwitchToPrevious),
        AppEvent::CopyToClipboardRequested(text) => Reaction {
            actions: Vec::new(),
            commands: Vec::new(),
            effects: vec![Effect::CopyToClipboard(text)],
        },
        AppEvent::TryingToQuit => Reaction::toast(ToastKind::Normal, "press Esc twice quickly to quit"),
        AppEvent::QuitRequested => {
            let r = Reaction { actions: Vec::new(), commands: Vec::new(), effects: vec![Effect::Quit] };
            assert(r.effects@ =~= seq![Effect::Quit]);
            r
        },
        _ => Reaction::none(),
    }
}

/// The toast shown for a clipboard copy, by its outcome.
pub fn clipboard_copied(ok: bool) -> (r: Reaction)
    ensures
        ok ==> only_toast(r, ToastKind::Normal, "copied"@),
        !ok ==> only_toast(r, ToastKind::Error, "copy failed"@),
{
    if ok {
        Reaction::toast(ToastKind::Normal, "copied")
    } else {
        Reaction::toast(ToastKind::Error, "copy failed")
    }
}


/// The reaction with `a` dispatched first.
fn prepend(r: Reaction, a: StateAction) -> (out: Reaction)
    ensures
        out.actions@ == seq![a] + r.actions@,
        out.commands@ == r.commands@,
        out.effects@ == r.effects@,
{
    let mut out = r;
    let ghost old_actions = out.actions@;
    let ghost g = a;
    out.actions.insert(0, a);
    assert(out.actions@ =~= seq![g] + old_actions);
    out
}

/// The first steps of opening the form `id`: its loading starts, then its
/// source decides. A known section is handed over to become the form's
/// data, a form that starts empty is loaded empty, and a section not yet
/// known fails the loading with the section's message.
pub fn start_form_loading(state: &State, id: FormId) -> (r: Reaction)
    ensures
        r.commands@.len() == 0,
        r.actions@.len() >= 1,
        r.actions@[0] == (StateAction::SettingsFormLoadingStart { id }),
        match spec_form_section(id) {
            None => r.actions@.len() == 2 && (r.actions@[1] matches StateAction::SettingsFormLoadingDone {
                id: i,
                data,
            } && i == id && data@.len() == 0) && r.effects@.len() == 0,
            Some(section) => if section_known(*state, section) {
                r.actions@.len() == 1 && r.effects@ == seq![Effect::ConvertSection { id, section }]
            } else {
                r.actions@.len() == 2 && (r.actions@[1] matches StateAction::SettingsFormLoadingFail {
                    id: i,
                    error,
                } && i == id && error@ == section.spec_not_loaded_message()@) && r.effects@.len() == 0
            },
        },
{
    let start = StateAction::SettingsFormLoadingStart { id };
    match form_source(state, id) {
        Ok(None) => {
            let done = StateAction::SettingsFormLoadingDone { id, data: FormData::new() };
            let ghost (gs, gd) = (start, done);
            let r = Reaction { actions: vec![start, done], commands: Vec::new(), effects: Vec::new() };
            assert(r.actions@ =~= seq![gs, gd]);
            r
        },
        Ok(Some(section)) => {
            let ghost gs = start;
            let r = Reaction {
                actions: vec![start],
                commands: Vec::new(),
                effects: vec![Effect::ConvertSection { id, section }],
            };
            assert(r.actions@ =~= seq![gs]);
            assert(r.effects@ =~= seq![Effect::ConvertSection { id, section }]);
            r
        },
        Err(message) => {
            let fail = StateAction::SettingsFormLoadingFail { id, error: message.to_string() };
            let ghost (gs, gf) = (start, fail);
            let r = Reaction { actions: vec![start, fail], commands: Vec::new(), effects: Vec::new() };
            assert(r.actions@ =~= seq![gs, gf]);
            r
        },
    }
}

/// The action that ends a form's loading once its section was turned into
/// form data, or failed to be.
pub fn section_converted(id: FormId, converted: Result<FormData, String>) -> (r: StateAction)
    ensures
        converted matches Ok(d) ==> r == (StateAction::SettingsFormLoadingDone { id, data: d }),
        converted matches Err(e) ==> r == (StateAction::SettingsFormLoadingFail { id, error: e }),
{
    match converted {
        Ok(data) => StateAction::SettingsFormLoadingDone { id, data },
        Err(error) => StateAction::SettingsFormLoadingFail { id, error },
    }
}

/// The answer of the settings service to the user: opening, closing,
/// resetting and saving forms, and setting a field.
pub fn settings_app_event(state: &State, event: AppEvent) -> (r: Reaction)
    requires
        event matches AppEvent::SettingsFormSaveRequested(id) ==> (spec_form_section(id) matches Some(s)
            && s.spec_route() != SaveRoute::AppConfig ==> state.my_node_key is Some),
    ensures
        match event {
            AppEvent::SettingsFormSelected(id) => r.actions@.len() >= 1 && r.actions@[0] == (
            StateAction::SettingsFormLoadingStart { id }),
            AppEvent::SettingsFormCancelRequested => only_action(r, StateAction::SettingsFormClose),
            AppEvent::SettingsFormResetRequested => r.actions@.len() == 2 && r.actions@[0]
                == StateAction::SettingsFormReset && is_toast(
                r.actions@[1],
                ToastKind::Normal,
                "the data was reset"@,
            ) && r.commands@.len() == 0 && r.effects@.len() == 0,
            AppEvent::SettingsFormSaveRequested(id) => r.actions@.len() == 2 && is_toast(
                r.actions@[0],
                ToastKind::Normal,
                "saving..."@,
            ) && r.actions@[1] == (StateAction::SettingsFormSavingStart { id }) && r.commands@.len() == 0
                && r.effects@.len() == 1 && (r.effects@[0] matches Effect::SaveForm { id: i, plan } && i
                == id && plan == match spec_form_section(id) {
                None => SavePlan::Nothing,
                Some(section) => if section.spec_route() == SaveRoute::AppConfig {
                    SavePlan::AppConfig
                } else {
                    SavePlan::ToRadio {
                        section,
                        route: section.spec_route(),
                        my_node_num: state.my_node_key->0,
                    }
                },
            }),
            AppEvent::SettingsFormItemSubmitted(key, value) => only_action(
                r,
                StateAction::SettingsFormValueSet { key, value },
            ),
            _ => is_quiet(r),
        },
{
    match event {
        AppEvent::SettingsFormSelected(id) => start_form_loading(state, id),
        AppEvent::SettingsFormCancelRequested => Reaction::action(StateAction::SettingsFormClose),
        AppEvent::SettingsFormResetRequested => {
            let toast = Reaction::toast(ToastKind::Normal, "the data was reset");
            prepend(toast, StateAction::SettingsFormReset)
        },
        AppEvent::SettingsFormSaveRequested(id) => {
            let plan = save_plan(state, id);
            let t = StateAction::Toast(Toast::normal("saving..."));
            let start = StateAction::SettingsFormSavingStart { id };
            let ghost (gt, gs) = (t, start);
            let r = Reaction {
                actions: vec![t, start],
                commands: Vec::new(),
                effects: vec![Effect::SaveForm { id, plan }],
            };
            assert(r.actions@ =~= seq![gt, gs]);
            r
        },
        AppEvent::SettingsFormItemSubmitted(key, value) => Reaction::action(
            StateAction::SettingsFormValueSet { key, value },
        ),
        _ => Reaction::none(),
    }
}

/// The answer of the settings service to the radio: a failed save fails
/// the form's saving; a saved section is announced and its form loaded
/// again (after saved channels, no chat stays in view).
pub fn settings_radio_event(state: &State, event: RadioEvent) -> (r: Reaction)
    ensures
        match event {
            RadioEvent::ConfigSaveFailed(id) | RadioEvent::ChannelsSaveFailed(id)
            | RadioEvent::UserSaveFailed(id) => r.actions@.len() == 2 && is_toast(
                r.actions@[0],
                ToastKind::Error,
                "save failed (see logs)"@,
            ) && r.actions@[1] == (StateAction::SettingsFormSavingFailed { id }) && r.commands@.len() == 0
                && r.effects@.len() == 0,
            RadioEvent::ConfigSaved(id) | RadioEvent::UserSaved(id) => r.actions@.len() >= 2 && is_toast(
                r.actions@[0],
                ToastKind::Success,
                "setting saved"@,
            ) && r.actions@[1] == (StateAction::SettingsFormLoadingStart { id }),
            RadioEvent::ChannelsSaved(id) => r.actions@.len() >= 3 && r.actions@[0]
                == StateAction::ActiveChatUnset && is_toast(
                r.actions@[1],
                ToastKind::Success,
                "channels saved"@,
            ) && r.actions@[2] == (StateAction::SettingsFormLoadingStart { id }),
            _ => is_quiet(r),
        },
{
    match event {
        RadioEvent::ConfigSaveFailed(id) | RadioEvent::ChannelsSaveFailed(id) | RadioEvent::UserSaveFailed(id) => {
            let failed = Reaction::action(StateAction::SettingsFormSavingFailed { id });
            prepend(failed, StateAction::Toast(Toast::error("save failed (see logs)")))
        },
        RadioEvent::ConfigSaved(id) | RadioEvent::UserSaved(id) => {
            let loading = start_form_loading(state, id);
            prepend(loading, StateAction::Toast(Toast::success("setting saved")))
        },
        RadioEvent::ChannelsSaved(id) => {
            let loading = start_form_loading(state, id);
            let r = prepend(loading, StateAction::Toast(Toast::success("channels saved")));
            prepend(r, StateAction::ActiveChatUnset)
        },
        _ => Reaction::none(),
    }
}

/// What the radio link reports once the radio's work on saving the form
/// `id` by `route` has ended, `done` telling whether it was done (a refusal,
/// a broken link and no answer in time all count as not done): a section of
/// the radio's or its modules' configuration reports a configuration save,
/// the channels a channels save, the user a user save. Saving into the
/// application's own settings involves no radio and reports nothing.
pub open spec fn spec_save_report(route: SaveRoute, id: FormId, done: bool) -> Option<RadioEvent> {
    match route {
        SaveRoute::AppConfig => None,
        SaveRoute::RadioConfig | SaveRoute::ModuleConfig => Some(
            if done {
                RadioEvent::ConfigSaved(id)
            } else {
                RadioEvent::ConfigSaveFailed(id)
            },
        ),
        SaveRoute::Channels => Some(
            if done {
                RadioEvent::ChannelsSaved(id)
            } else {
                RadioEvent::ChannelsSaveFailed(id)
            },
        ),
        SaveRoute::User => Some(
            if done {
                RadioEvent::UserSaved(id)
            } else {
                RadioEvent::UserSaveFailed(id)
            },
        ),
    }
}

/// A save that involved the radio is reported for its form, as saved
/// exactly when the radio did it; the channels and the user are reported as
/// such, the sections of the configuration as configuration; a save into the
/// application's own settings is not reported.
pub proof fn law_save_report_names_form_and_outcome(route: SaveRoute, id: FormId, done: bool)
    ensures
        spec_save_report(route, id, done) is None <==> route == SaveRoute::AppConfig,
        spec_save_report(route, id, done) matches Some(e) ==> match e {
            RadioEvent::ConfigSaved(f) => f == id && done && (route == SaveRoute::RadioConfig || route
                == SaveRoute::ModuleConfig),
            RadioEvent::ConfigSaveFailed(f) => f == id && !done && (route == SaveRoute::RadioConfig || route
                == SaveRoute::ModuleConfig),
            RadioEvent::ChannelsSaved(f) => f == id && done && route == SaveRoute::Channels,
            RadioEvent::ChannelsSaveFailed(f) => f == id && !done && route == SaveRoute::Channels,
            RadioEvent::UserSaved(f) => f == id && done && route == SaveRoute::User,
            RadioEvent::UserSaveFailed(f) => f == id && !done && route == SaveRoute::User,
            _ => false,
        },
{
}

/// The report of a save that has ended, as `spec_save_report` gives it.
pub fn save_report(route: SaveRoute, id: FormId, done: bool) -> (r: Option<RadioEvent>)
    ensures
        r == spec_save_report(route, id, done),
{
    match route {
        SaveRoute::AppConfig => None,
        SaveRoute::RadioConfig | SaveRoute::ModuleConfig => Some(
            if done {
                RadioEvent::ConfigSaved(id)
            } else {
                RadioEvent::ConfigSaveFailed(id)
            },
        ),
        SaveRoute::Channels => Some(
            if done {
                RadioEvent::ChannelsSaved(id)
            } else {
                RadioEvent::ChannelsSaveFailed(id)
            },
        ),
        SaveRoute::User => Some(
            if done {
                RadioEvent::UserSaved(id)
            } else {
                RadioEvent::UserSaveFailed(id)
            },
        ),
    }
}

/// The answer of the settings service to a change of the state: once the
/// application's settings changed while their form was being saved, the
/// save is announced and the form loaded again.
pub fn settings_state_change(state: &State, changed: &Vec<StateField>) -> (r: Reaction)
    ensures
        (changed@.contains(StateField::UiConfig) && state.settings_form_state == (SettingsFormState::Saving {
            id: FormId::AppUi,
        })) ==> r.actions@.len() >= 2 && is_toast(r.actions@[0], ToastKind::Success, "setting saved"@)
            && r.actions@[1] == (StateAction::SettingsFormLoadingStart { id: FormId::AppUi }),
        !(changed@.contains(StateField::UiConfig) && state.settings_form_state == (
        SettingsFormState::Saving { id: FormId::AppUi })) ==> is_quiet(r),
{
    let mut ui_changed = false;
    let mut i: usize = 0;
    while i < changed.len()
        invariant
            i <= changed.len(),
            ui_changed <==> exists|j: int| 0 <= j < i && changed@[j] == StateField::UiConfig,
        decreases changed.len() - i,
    {
        if changed[i] == StateField::UiConfig {
            ui_changed = true;
        }
        i = i + 1;
    }
    assert(ui_changed <==> changed@.contains(StateField::UiConfig));
    let saving_ui = match &state.settings_form_state {
        SettingsFormState::Saving { id: FormId::AppUi } => true,
        _ => false,
    };
    if ui_changed && saving_ui {
        let loading = start_form_loading(state, FormId::AppUi);
        prepend(loading, StateAction::Toast(Toast::success("setting saved")))
    } else {
        Reaction::none()
    }
}


/// The reaction only sends the command.
pub open spec fn only_command(r: Reaction, c: RadioCommand) -> bool {
    r.actions@.len() == 0 && r.commands@ == seq![c] && r.effects@.len() == 0
}

/// A reaction that sends one command.
fn command(c: RadioCommand) -> (r: Reaction)
    ensures
        only_command(r, c),
{
    let ghost g = c;
    let r = Reaction { actions: Vec::new(), commands: vec![c], effects: Vec::new() };
    assert(r.commands@ =~= seq![g]);
    r
}

/// The reaction sends the message that goes to the chat in view, if any.
pub open spec fn sends_outgoing(r: Reaction, state: State, reply_message_id: Option<u32>, text: OutgoingText) -> bool {
    &&& r.actions@.len() == 0
    &&& r.effects@.len() == 0
    &&& match spec_outgoing(state.active_chat, state.my_node_key, reply_message_id, text) {
        Some(m) => r.commands@ == seq![RadioCommand::Send(m)],
        None => r.commands@.len() == 0,
    }
}

fn send_outgoing(state: &State, reply_message_id: Option<u32>, text: OutgoingText) -> (r: Reaction)
    requires
        state.active_chat is Some ==> state.my_node_key is Some,
    ensures
        sends_outgoing(r, *state, reply_message_id, text),
{
    match outgoing_message(state.active_chat, state.my_node_key, reply_message_id, text) {
        Some(m) => command(RadioCommand::Send(m)),
        None => Reaction::none(),
    }
}

/// The answer of the chat service to the user: choosing, purging and
/// leaving chats, and sending texts and reactions to the chat in view.
pub fn chat_app_event(state: &State, event: AppEvent) -> (r: Reaction)
    requires
        state.active_chat is Some ==> state.my_node_key is Some,
    ensures
        match event {
            AppEvent::ChatSelected(chat) => only_action(r, StateAction::ActiveChatSet(chat)),
            AppEvent::ChatPurgeRequested(chat) => r.actions@.len() == 2 && r.actions@[0]
                == StateAction::ChatPurge(chat) && is_toast(
                r.actions@[1],
                ToastKind::Success,
                "chat is purged"@,
            ) && r.commands@.len() == 0 && r.effects@.len() == 0,
            AppEvent::ChatSwitchRequested => only_action(r, StateAction::ActiveChatUnset),
            AppEvent::ChatMessageSubmitted { text, reply_message_id } => sends_outgoing(
                r,
                *state,
                reply_message_id,
                OutgoingText::Text(text),
            ),
            AppEvent::ChatReactionSubmitted { emoji, reply_message_id } => sends_outgoing(
                r,
                *state,
                reply_message_id,
                OutgoingText::Emoji(emoji),
            ),
            _ => is_quiet(r),
        },
{
    match event {
        AppEvent::ChatSelected(chat) => Reaction::action(StateAction::ActiveChatSet(chat)),
        AppEvent::ChatPurgeRequested(chat) => {
            let toast = Reaction::toast(ToastKind::Success, "chat is purged");
            prepend(toast, StateAction::ChatPurge(chat))
        },
        AppEvent::ChatSwitchRequested => Reaction::action(StateAction::ActiveChatUnset),
        AppEvent::ChatMessageSubmitted { text, reply_message_id } => send_outgoing(
            state,
            reply_message_id,
            OutgoingText::Text(text),
        ),
        AppEvent::ChatReactionSubmitted { emoji, reply_message_id } => send_outgoing(
            state,
            reply_message_id,
            OutgoingText::Emoji(emoji),
        ),
        _ => Reaction::none(),
    }
}

/// The answer of the chat service to the radio: a rejected message is
/// reported.
pub fn chat_radio_event(event: RadioEvent) -> (r: Reaction)
    ensures
        event is MessageRejected ==> only_toast(r, ToastKind::Error, "message rejected by node"@),
        !(event is MessageRejected) ==> is_quiet(r),
{
    match event {
        RadioEvent::MessageRejected(_) => Reaction::toast(ToastKind::Error, "message rejected by node"),
        _ => Reaction::none(),
    }
}

/// The reaction only sets the node list's order to the one at `index`.
pub open spec fn only_sort_by(r: Reaction, index: int) -> bool {
    &&& r.actions@.len() == 1
    &&& (r.actions@[0] matches StateAction::NodesSortBySet(s) && s.spec_index() == index)
    &&& r.commands@.len() == 0
    &&& r.effects@.len() == 0
}

/// The answer of the node service to the user: direct chats, the node
/// list's order and filter, the node popup, and broadcasting or deleting
/// nodes through the radio.
pub fn nodes_app_event(state: &State, event: AppEvent) -> (r: Reaction)
    requires
        event is NodeInfoBroadcastRequested ==> (state.my_node_key matches Some(k)
            && state.nodes@.contains_key(k)),
        event is NodeDeleteRequested ==> state.my_node_key is Some,
    ensures
        match event {
            AppEvent::DirectChatRequested(k) => only_action(r, StateAction::DirectChatStart(k)),
            AppEvent::NodesSortByPrevRequested => only_sort_by(
                r,
                (state.nodes_sort_by.spec_index() + NODES_SORT_BY_COUNT - 1) % (NODES_SORT_BY_COUNT as int),
            ),
            AppEvent::NodesSortByNextRequested => only_sort_by(
                r,
                (state.nodes_sort_by.spec_index() + 1) % (NODES_SORT_BY_COUNT as int),
            ),
            AppEvent::NodesFilterChanged(filter) => only_action(r, StateAction::NodesFilterSet(filter)),
            AppEvent::NodeInfoBroadcastRequested => only_command(
                r,
                RadioCommand::BroadcastNodeInfo { channel_id: 0, node_num: state.my_node_key->0 },
            ),
            AppEvent::NodeInfoPopupRequested(k) => only_action(r, StateAction::NodeInfoPopupSetKey(k)),
            AppEvent::NodeInfoPopupCloseRequested => only_action(r, StateAction::NodeInfoPopupUnsetKey),
            AppEvent::NodeDeleteRequested(n) => only_command(
                r,
                RadioCommand::DeleteNode { node_num: n, my_node_num: state.my_node_key->0 },
            ),
            _ => is_quiet(r),
        },
{
    match event {
        AppEvent::DirectChatRequested(k) => Reaction::action(StateAction::DirectChatStart(k)),
        AppEvent::NodesSortByPrevRequested => Reaction::action(
            StateAction::NodesSortBySet(state.nodes_sort_by.prev()),
        ),
        AppEvent::NodesSortByNextRequested => Reaction::action(
            StateAction::NodesSortBySet(state.nodes_sort_by.next()),
        ),
        AppEvent::NodesFilterChanged(filter) => Reaction::action(StateAction::NodesFilterSet(filter)),
        AppEvent::NodeInfoBroadcastRequested => {
            let my = state.my_node_key.unwrap();
            command(RadioCommand::BroadcastNodeInfo { channel_id: 0, node_num: my })
        },
        AppEvent::NodeInfoPopupRequested(k) => Reaction::action(StateAction::NodeInfoPopupSetKey(k)),
        AppEvent::NodeInfoPopupCloseRequested => Reaction::action(StateAction::NodeInfoPopupUnsetKey),
        AppEvent::NodeDeleteRequested(n) => {
            let my = state.my_node_key.unwrap();
            command(RadioCommand::DeleteNode { node_num: n, my_node_num: my })
        },
        _ => Reaction::none(),
    }
}

/// The answer of the node service to the radio's reports on broadcasts and
/// node removals.
pub fn nodes_radio_event(event: RadioEvent) -> (r: Reaction)
    ensures
        match event {
            RadioEvent::NodeInfoBroadcastSent => only_toast(r, ToastKind::Success, "NodeInfo broadcast sent"@),
            RadioEvent::NodeInfoBroadcastFailed(_) => only_toast(
                r,
                ToastKind::Error,
                "NodeInfo broadcast failed"@,
            ),
            RadioEvent::NodeRemoveAccepted => only_toast(r, ToastKind::Success, "node removed"@),
            RadioEvent::NodeRemoveFailed(_) => only_toast(r, ToastKind::Error, "node remove failed"@),
            _ => is_quiet(r),
        },
{
    match event {
        RadioEvent::NodeInfoBroadcastSent => Reaction::toast(ToastKind::Success, "NodeInfo broadcast sent"),
        RadioEvent::NodeInfoBroadcastFailed(_) => Reaction::toast(ToastKind::Error, "NodeInfo broadcast failed"),
        RadioEvent::NodeRemoveAccepted => Reaction::toast(ToastKind::Success, "node removed"),
        RadioEvent::NodeRemoveFailed(_) => Reaction::toast(ToastKind::Error, "node remove failed"),
        _ => Reaction::none(),
    }
}

/// The answer of the connection service to the user: choosing, adding and
/// removing devices, discovering devices, and disconnecting, rebooting or
/// shutting down the radio (after three seconds).
pub fn connection_app_event(state: &State, event: AppEvent) -> (r: Reaction)
    requires
        event is DeviceRebootRequested || event is DeviceShutdownRequested ==> state.my_node_key is Some,
    ensures
        match event {
            AppEvent::DeviceSelected(d) => only_action(r, StateAction::DeviceActiveSet(d)),
            AppEvent::DisconnectionRequested => only_command(r, RadioCommand::Disconnect),
            AppEvent::DeviceRediscoverRequested => r.actions@.len() == 2 && r.actions@[0]
                == StateAction::DeviceDiscoveringStart && is_toast(
                r.actions@[1],
                ToastKind::Normal,
                "discovering..."@,
            ) && r.commands@.len() == 0 && r.effects@ == seq![Effect::DiscoverDevices],
            AppEvent::DeviceRebootRequested => only_command(
                r,
                RadioCommand::Reboot { my_node_num: state.my_node_key->0, secs: 3 },
            ),
            AppEvent::DeviceShutdownRequested => only_command(
                r,
                RadioCommand::Shutdown { my_node_num: state.my_node_key->0, secs: 3 },
            ),
            AppEvent::DeviceSubmitted(d) => only_action(r, StateAction::DevicesAdd(d)),
            AppEvent::DeviceRemoveRequested(d) => only_action(r, StateAction::DevicesRemove(d)),
            _ => is_quiet(r),
        },
{
    match event {
        AppEvent::DeviceSelected(d) => Reaction::action(StateAction::DeviceActiveSet(d)),
        AppEvent::DisconnectionRequested => command(RadioCommand::Disconnect),
        AppEvent::DeviceRediscoverRequested => {
            let toast = Reaction::toast(ToastKind::Normal, "discovering...");
            let mut r = prepend(toast, StateAction::DeviceDiscoveringStart);
            r.effects.push(Effect::DiscoverDevices);
            assert(r.effects@ =~= seq![Effect::DiscoverDevices]);
            r
        },
        AppEvent::DeviceRebootRequested => {
            let my = state.my_node_key.unwrap();
            command(RadioCommand::Reboot { my_node_num: my, secs: 3 })
        },
        AppEvent::DeviceShutdownRequested => {
            let my = state.my_node_key.unwrap();
            command(RadioCommand::Shutdown { my_node_num: my, secs: 3 })
        },
        AppEvent::DeviceSubmitted(d) => Reaction::action(StateAction::DevicesAdd(d)),
        AppEvent::DeviceRemoveRequested(d) => Reaction::action(StateAction::DevicesRemove(d)),
        _ => Reaction::none(),
    }
}

/// The actions that end a device discovery, by its outcome.
pub fn discovery_finished(outcome: Result<(), String>) -> (r: Reaction)
    ensures
        r.commands@.len() == 0,
        r.effects@.len() == 0,
        r.actions@.len() == 2,
        outcome is Ok ==> r.actions@[0] == StateAction::DeviceDiscoveringDone && is_toast(
            r.actions@[1],
            ToastKind::Normal,
            "discovery done"@,
        ),
        outcome matches Err(e) ==> r.actions@[0] == StateAction::DeviceDiscoveringFail(e) && is_toast(
            r.actions@[1],
            ToastKind::Error,
            "discovery failed"@,
        ),
{
    match outcome {
        Ok(()) => {
            let toast = Reaction::toast(ToastKind::Normal, "discovery done");
            prepend(toast, StateAction::DeviceDiscoveringDone)
        },
        Err(e) => {
            let toast = Reaction::toast(ToastKind::Error, "discovery failed");
            prepend(toast, StateAction::DeviceDiscoveringFail(e))
        },
    }
}

/// The answer of the connection service to the radio. A connection is
/// announced, a failure or a disconnection is recorded. Of a packet, the
/// radio's own node number is recorded and its database opened, a channel
/// is stored, the end of the configuration completes the connection and
/// asks for the canned messages, and a reboot is announced; every packet
/// then flashes the receive indicator.
pub fn connection_radio_event(state: &State, event: RadioEvent) -> (r: Reaction)
    requires
        (event matches RadioEvent::IncomingPacket(p) && p is ConfigComplete) ==> state.my_node_key is Some,
    ensures
        match event {
            RadioEvent::Connected => only_toast(r, ToastKind::Normal, "loading data..."@),
            RadioEvent::ConnectionError(e) => only_action(r, StateAction::ConnectionFail(e)),
            RadioEvent::Disconnected => r.actions@.len() == 2 && r.actions@[0] == StateAction::ConnectionStop
                && is_toast(r.actions@[1], ToastKind::Normal, "disconnected"@) && r.commands@.len() == 0
                && r.effects@.len() == 0,
            RadioEvent::IncomingPacket(p) => r.actions@.len() >= 1 && r.actions@.last()
                == StateAction::RxTrigger && match p {
                PacketSummary::MyInfo(n) => r.actions@.len() == 2 && r.actions@[0]
                    == StateAction::MyNodeKeySet(n) && r.commands@.len() == 0 && r.effects@ == seq![
                    Effect::OpenDatabase(n),
                ],
                PacketSummary::Channel(i, ch) => r.actions@.len() == 2 && r.actions@[0]
                    == StateAction::ChannelSet(i, ch) && r.commands@.len() == 0 && r.effects@.len() == 0,
                PacketSummary::ConfigComplete => r.actions@.len() == 3 && r.actions@[0]
                    == StateAction::ConnectionSuccess && is_toast(
                    r.actions@[1],
                    ToastKind::Success,
                    "connected"@,
                ) && r.commands@ == seq![
                    RadioCommand::LoadCannedMessages { my_node_num: state.my_node_key->0 },
                ] && r.effects@.len() == 0,
                PacketSummary::Rebooted(true) => r.actions@.len() == 2 && is_toast(
                    r.actions@[0],
                    ToastKind::Success,
                    "device has been rebooted"@,
                ) && r.commands@.len() == 0 && r.effects@.len() == 0,
                _ => r.actions@.len() == 1 && r.commands@.len() == 0 && r.effects@.len() == 0,
            },
            _ => is_quiet(r),
        },
{
    match event {
        RadioEvent::Connected => Reaction::toast(ToastKind::Normal, "loading data..."),
        RadioEvent::ConnectionError(e) => Reaction::action(StateAction::ConnectionFail(e)),
        RadioEvent::Disconnected => {
            let toast = Reaction::toast(ToastKind::Normal, "disconnected");
            prepend(toast, StateAction::ConnectionStop)
        },
        RadioEvent::IncomingPacket(p) => {
            let mut r = match p {
                PacketSummary::MyInfo(n) => {
                    let mut r = Reaction::action(StateAction::MyNodeKeySet(n));
                    r.effects.push(Effect::OpenDatabase(n));
                    assert(r.effects@ =~= seq![Effect::OpenDatabase(n)]);
                    r
                },
                PacketSummary::Channel(i, ch) => Reaction::action(StateAction::ChannelSet(i, ch)),
                PacketSummary::ConfigComplete => {
                    let toast = Reaction::toast(ToastKind::Success, "connected");
                    let mut r = prepend(toast, StateAction::ConnectionSuccess);
                    let my = state.my_node_key.unwrap();
                    r.commands.push(RadioCommand::LoadCannedMessages { my_node_num: my });
                    assert(r.commands@ =~= seq![RadioCommand::LoadCannedMessages { my_node_num: my }]);
                    r
                },
                PacketSummary::Rebooted(true) => Reaction::toast(ToastKind::Success, "device has been rebooted"),
                _ => Reaction::none(),
            };
            r.actions.push(StateAction::RxTrigger);
            r
        },
        _ => Reaction::none(),
    }
}

/// A write to the node database that an action calls for.
#[derive(Debug, Clone, Copy, PartialEq, Eq, Structural)]
pub enum DbWrite {
    /// store the node the action carries
    UpsertNode(u32),
    RemoveNode(u32),
    /// update the stored node's hops and signal, if it is stored
    UpdateLastHeard { node_key: u32, hops: u32, snr_bits: u32, rssi: i32 },
}

/// The write to the node database that the action calls for, before it is
/// passed on to the state: a node with user information that is first seen
/// or updated is stored, a deleted node removed, and a node heard again
/// updated.
pub fn db_write_for(action: &StateAction) -> (r: Option<DbWrite>)
    ensures
        match *action {
            StateAction::NodeInit(node) => if node.user is Some {
                r == Some(DbWrite::UpsertNode(node.key))
            } else {
                r is None
            },
            StateAction::NodeUpdate(node) => r == Some(DbWrite::UpsertNode(node.key)),
            StateAction::NodeDelete(k) => r == Some(DbWrite::RemoveNode(k)),
            StateAction::NodeUpdateLastHeard { node_key, hops, snr_bits, rssi } => r == Some(
                DbWrite::UpdateLastHeard { node_key, hops, snr_bits, rssi },
            ),
            _ => r is None,
        },
{
    match action {
        StateAction::NodeInit(node) => if node.user.is_some() {
            Some(DbWrite::UpsertNode(node.key))
        } else {
            None
        },
        StateAction::NodeUpdate(node) => Some(DbWrite::UpsertNode(node.key)),
        StateAction::NodeDelete(k) => Some(DbWrite::RemoveNode(*k)),
        StateAction::NodeUpdateLastHeard { node_key, hops, snr_bits, rssi } => Some(
            DbWrite::UpdateLastHeard { node_key: *node_key, hops: *hops, snr_bits: *snr_bits, rssi: *rssi },
        ),
        _ => None,
    }
}

} // verus!
