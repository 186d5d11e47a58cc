//! What the settings screen does with the keys the user presses: the menu
//! of forms, the form's fields, and the popups that edit a field.
use vstd::prelude::*;
use crate::events::AppEvent;
use crate::form_table::{value_text, value_text_of, FormItem, FormItemKind};
use crate::formdata::{FormData, FormValue, FormValueView};
use crate::input::{base64_encode, base64_text, read_integer, rejection_text, spec_read_input, submit_float, submit_input, InputError, InputKind};
use crate::screens::{list_move, spec_list_move, Input, Key, ListMove};
use crate::types::{FormId, SettingsFormState, SettingsItem};

verus! {

/// The popup that edits a field.
#[derive(Debug, Clone, Copy, PartialEq, Eq, Structural)]
pub enum Popup {
    /// typed text
    Input,
    /// a choice among the field's values
    Choices,
    /// bits of a bit mask
    BitMask,
}

/// The text a typed field starts with: text, or a floating point number
/// (by its bits) to be written out where floating point is at hand.
#[derive(Debug)]
pub enum InitialText {
    Text(String),
    Float(u32),
}

/// What the settings screen asks of its popups.
#[derive(Debug)]
pub enum PopupRequest {
    OpenInput { title: &'static str, initial: InitialText },
    OpenChoices { title: &'static str, current: FormValue },
    OpenBitMask { title: &'static str, mask: u32 },
    SetError(String),
    /// let the open popup take the input
    Forward,
    Close,
}

/// Which list of the settings screen a move is for.
#[derive(Debug, Clone, Copy, PartialEq, Eq, Structural)]
pub enum SettingsList {
    Menu,
    Form,
}

/// Whether the screen used an input.
#[derive(Debug, Clone, Copy, PartialEq, Eq, Structural)]
pub enum Handled {
    Yes,
    No,
    /// as the open popup answers when it takes the input
    ByPopup,
}

/// The settings screen's answer to an input.
#[derive(Debug)]
pub struct SettingsStep {
    pub handled: Handled,
    pub events: Vec<AppEvent>,
    pub list_move: Option<(SettingsList, ListMove)>,
    pub popup: Vec<PopupRequest>,
    /// start the form's list from its first row again
    pub reset_form_list: bool,
}

/// The settings screen's own state: the confirmation of leaving a changed
/// form, and the popup editing a field.
#[derive(Debug, Clone, Copy, PartialEq, Eq, Structural)]
pub struct SettingsScreen {
    pub is_exit_confirm_visible: bool,
    pub popup: Option<Popup>,
}

/// The input is a press of `k`, whatever modifier keys were held.
pub open spec fn is_press(input: Input, k: Key) -> bool {
    input matches Input::Press { key, .. } && key == k
}

/// The step does nothing else than answer `handled`.
pub open spec fn quiet(r: SettingsStep, handled: Handled) -> bool {
    &&& r.handled == handled
    &&& r.events@.len() == 0
    &&& r.list_move is None
    &&& r.popup@.len() == 0
    &&& !r.reset_form_list
}

/// The step sends one event and does nothing else.
pub open spec fn sends_one(r: SettingsStep) -> bool {
    &&& r.handled == Handled::Yes
    &&& r.events@.len() == 1
    &&& r.list_move is None
    &&& r.popup@.len() == 0
    &&& !r.reset_form_list
}

/// The value a field shows in the form data: what its key reads, and no
/// value for a field that stores nothing.
pub open spec fn shown_value(item: FormItem, data: Seq<(Seq<char>, FormValueView)>) -> FormValueView {
    match item.key.spec_read(data) {
        Some(v) => v,
        None => FormValueView::Option(None),
    }
}

/// The value is a byte string: a sequence of bytes.
pub open spec fn is_bytes(v: FormValueView) -> bool {
    v matches FormValueView::Vec(xs) && forall|i: int| 0 <= i < xs.len() ==> #[trigger] xs[i] is UnsignedInt8
}

/// The field can be edited from the value: a switch holds a truth value,
/// maybe optional; a bit mask an unsigned number; a byte string field bytes.
pub open spec fn editable(item: FormItem, v: FormValueView) -> bool {
    match item.kind {
        FormItemKind::Switch => v is Bool || v == FormValueView::Option(None) || (v matches FormValueView::Option(
            Some(b),
        ) && *b is Bool),
        FormItemKind::BitMask(_) => v is UnsignedInt32,
        FormItemKind::InputOfBase64 => is_bytes(v),
        _ => true,
    }
}

/// The switched value of a switch: the truth value turned over, an absent
/// optional one left absent.
pub open spec fn switched(v: FormValueView) -> FormValueView {
    match v {
        FormValueView::Bool(b) => FormValueView::Bool(!b),
        FormValueView::Option(Some(inner)) => match *inner {
            FormValueView::Bool(b) => FormValueView::Option(Some(Box::new(FormValueView::Bool(!b)))),
            _ => v,
        },
        _ => v,
    }
}

/// The input kind a typed field reads.
pub open spec fn input_kind_of(kind: FormItemKind) -> Option<InputKind> {
    match kind {
        FormItemKind::InputOfString => Some(InputKind::Text),
        FormItemKind::InputOfInt32 => Some(InputKind::Int32),
        FormItemKind::InputOfUnsignedInt32 => Some(InputKind::UnsignedInt32),
        FormItemKind::InputOfFloat32 => Some(InputKind::Float32),
        FormItemKind::InputOfBase64 => Some(InputKind::Base64),
        _ => None,
    }
}

/// What typed text gives the field edited in the input popup: the value,
/// or the message why it gives none (`None` where that message is the
/// base64 decoder's or the host address parser's).
pub open spec fn spec_submit_typed(item: FormItem, text: Seq<char>, parsed_float: Option<Result<u32, String>>) -> Result<
    FormValueView,
    Option<Seq<char>>,
> {
    let v = item.validator;
    match item.kind {
        FormItemKind::InputOfFloat32 => match parsed_float {
            Some(Ok(b)) => if v.spec_accepts(FormValueView::Float32(b)) {
                Ok(FormValueView::Float32(b))
            } else {
                Err(rejection_text(v))
            },
            Some(Err(m)) => Err(Some(m@)),
            None => Err(Some(Seq::empty())),
        },
        _ => {
            let k = input_kind_of(item.kind)->0;
            match spec_read_input(k, text) {
                Some(x) => if (k == InputKind::Base64 && text.len() == 0) || v.spec_accepts(x) {
                    Ok(x)
                } else {
                    Err(rejection_text(v))
                },
                None => match k {
                    InputKind::Int32 => match read_integer(text, i32::MIN as int, i32::MAX as int) {
                        Err(e) => Err(Some(e.spec_message())),
                        Ok(_) => Err(None),
                    },
                    InputKind::UnsignedInt32 => match read_integer(text, 0, u32::MAX as int) {
                        Err(e) => Err(Some(e.spec_message())),
                        Ok(_) => Err(None),
                    },
                    _ => Err(None),
                },
            }
        },
    }
}

fn input_error_text(e: InputError) -> (r: String)
    ensures
        e matches InputError::Integer(k) ==> r@ == k.spec_message(),
        e matches InputError::Float(m) ==> r@ == m@,
        e matches InputError::Base64(m) ==> r@ == m@,
        e matches InputError::Invalid(m) ==> r@ == m@,
{
    match e {
        InputError::Integer(kind) => kind.message().to_string(),
        InputError::Float(m) => m,
        InputError::Base64(m) => m,
        InputError::Invalid(m) => m,
    }
}

/// The bytes of a byte string value.
pub open spec fn byte_values(v: FormValueView) -> Seq<u8> {
    Seq::new(v->Vec_0.len(), |i: int| v->Vec_0[i]->UnsignedInt8_0)
}

/// The text the input popup starts with for a typed field showing `value`:
/// a byte string in base64, a floating point number by its bits, and any
/// other value as its plain text (none for a value without one).
pub open spec fn initial_is(init: InitialText, kind: FormItemKind, value: FormValueView) -> bool {
    match kind {
        FormItemKind::InputOfBase64 => init matches InitialText::Text(t) && t@ == base64_text(byte_values(value)),
        _ => match value {
            FormValueView::Float32(b) => init matches InitialText::Float(x) && x == b,
            _ => init matches InitialText::Text(t) && t@ == match value_text(value) {
                Some(s) => s,
                None => Seq::empty(),
            },
        },
    }
}

/// Editing the field `item` showing `value` took the screen from `pre` to
/// `post` with the step `r`: a switch sends its switched value at once, a
/// read-only field does nothing, a choice field opens the choices at the
/// current value, a bit mask opens the mask, and a typed field opens the
/// input popup with the field's title and the value's text.
pub open spec fn edited(pre: SettingsScreen, post: SettingsScreen, r: SettingsStep, item: FormItem, value: FormValueView) -> bool {
    &&& post.is_exit_confirm_visible == pre.is_exit_confirm_visible
    &&& r.list_move is None
    &&& !r.reset_form_list
    &&& r.handled == Handled::Yes
    &&& match item.kind {
        FormItemKind::Switch => post.popup == pre.popup && r.popup@.len() == 0 && r.events@.len() == 1 && (
        r.events@[0] matches AppEvent::SettingsFormItemSubmitted(k, v) && k.same_key(item.key) && v@ == switched(
            value,
        )),
        FormItemKind::ReadOnly => post.popup == pre.popup && r.popup@.len() == 0 && r.events@.len() == 0,
        FormItemKind::Enum(_) => post.popup == Some(Popup::Choices) && r.events@.len() == 0 && r.popup@.len() == 1
            && (r.popup@[0] matches PopupRequest::OpenChoices { title, current } && title == item.title
            && current@ == value),
        FormItemKind::BitMask(_) => post.popup == Some(Popup::BitMask) && r.events@.len() == 0 && r.popup@
            == seq![PopupRequest::OpenBitMask { title: item.title, mask: value->UnsignedInt32_0 }],
        _ => post.popup == Some(Popup::Input) && r.events@.len() == 0 && r.popup@.len() == 1 && (
        r.popup@[0] matches PopupRequest::OpenInput { title, initial } && title == item.title && initial_is(
            initial,
            item.kind,
            value,
        )),
    }
}

/// The bytes of a byte string value.
fn bytes_of(v: &FormValue) -> (r: Vec<u8>)
    requires
        is_bytes(v@),
    ensures
        r@.len() == v@->Vec_0.len(),
        forall|i: int| 0 <= i < r@.len() ==> v@->Vec_0[i] == FormValueView::UnsignedInt8(#[trigger] r@[i]),
{
    let xs = v.as_vec();
    let mut r: Vec<u8> = Vec::new();
    let mut i: usize = 0;
    proof {
        crate::formdata::lemma_values_view_len(xs@);
    }
    while i < xs.len()
        invariant
            i <= xs.len(),
            v@ == FormValueView::Vec(crate::formdata::values_view(xs@)),
            crate::formdata::values_view(xs@).len() == xs.len(),
            is_bytes(v@),
            r@.len() == i,
            forall|j: int| 0 <= j < i ==> v@->Vec_0[j] == FormValueView::UnsignedInt8(#[trigger] r@[j]),
        decreases xs.len() - i,
    {
        proof {
            crate::formdata::lemma_values_view_index(xs@, i as int);
        }
        assert(v@->Vec_0[i as int] is UnsignedInt8);
        let b = xs[i].as_u8();
        r.push(b);
        i = i + 1;
    }
    r
}

impl SettingsStep {
    fn quiet(handled: Handled) -> (r: SettingsStep)
        ensures
            quiet(r, handled),
    {
        SettingsStep {
            handled,
            events: Vec::new(),
            list_move: None,
            popup: Vec::new(),
            reset_form_list: false,
        }
    }

    fn event(e: AppEvent) -> (r: SettingsStep)
        ensures
            sends_one(r),
            r.events@[0] == e,
    {
        let mut r = SettingsStep::quiet(Handled::Yes);
        r.events.push(e);
        r
    }

    fn popup(p: PopupRequest) -> (r: SettingsStep)
        ensures
            r.handled == Handled::Yes,
            r.events@.len() == 0,
            r.list_move is None,
            r.popup@ == seq![p],
            !r.reset_form_list,
    {
        let ghost g = p;
        let mut r = SettingsStep::quiet(Handled::Yes);
        r.popup.push(p);
        assert(r.popup@ =~= seq![g]);
        r
    }
}

impl SettingsScreen {
    pub fn new() -> (r: SettingsScreen)
        ensures
            !r.is_exit_confirm_visible,
            r.popup is None,
    {
        SettingsScreen { is_exit_confirm_visible: false, popup: None }
    }

    /// The value typed text gives the field edited in the input popup, or
    /// the message why it gives none. A floating point field takes the
    /// text as already read into a number.
    fn submit_typed(item: &FormItem, text: &str, parsed_float: Option<Result<u32, String>>) -> (r: Result<
        FormValue,
        String,
    >)
        requires
            item.wf(),
            input_kind_of(item.kind) is Some,
            item.kind is InputOfFloat32 ==> parsed_float is Some,
        ensures
            match spec_submit_typed(*item, text@, parsed_float) {
                Ok(x) => r matches Ok(v) && v@ == x,
                Err(Some(t)) => r matches Err(m) && m@ == t,
                Err(None) => r is Err,
            },
    {
        match item.kind {
            FormItemKind::InputOfString => match submit_input(InputKind::Text, &item.validator, text) {
                Ok(v) => Ok(v),
                Err(e) => Err(input_error_text(e)),
            },
            FormItemKind::InputOfInt32 => match submit_input(InputKind::Int32, &item.validator, text) {
                Ok(v) => Ok(v),
                Err(e) => Err(input_error_text(e)),
            },
            FormItemKind::InputOfUnsignedInt32 => match submit_input(InputKind::UnsignedInt32, &item.validator, text) {
                Ok(v) => Ok(v),
                Err(e) => Err(input_error_text(e)),
            },
            FormItemKind::InputOfBase64 => match submit_input(InputKind::Base64, &item.validator, text) {
                Ok(v) => Ok(v),
                Err(e) => Err(input_error_text(e)),
            },
            _ => {
                let parsed = match parsed_float {
                    Some(p) => p,
                    None => Err(String::new()),
                };
                match submit_float(&item.validator, parsed) {
                    Ok(v) => Ok(v),
                    Err(e) => Err(input_error_text(e)),
                }
            },
        }
    }

    /// Starts editing the field from the value it shows: typed fields open
    /// the input popup with the value's text (byte strings in base64),
    /// choices and bit masks open their popups, and a switch is switched at
    /// once.
    fn edit(&mut self, item: &FormItem, value: FormValue) -> (r: SettingsStep)
        requires
            editable(*item, value@),
        ensures
            edited(*old(self), *final(self), r, *item, value@),
    {
        match &item.kind {
            FormItemKind::ReadOnly => SettingsStep::quiet(Handled::Yes),
            FormItemKind::Switch => {
                let ghost vv = value@;
                let switched_value = match value {
                    FormValue::Bool(b) => {
                        assert(vv == FormValueView::Bool(b));
                        let r = FormValue::Bool(!b);
                        assert(r@ == switched(vv));
                        r
                    },
                    FormValue::Option(Some(inner)) => {
                        assert(vv == FormValueView::Option(Some(Box::new(inner@))));
                        match *inner {
                            FormValue::Bool(b) => {
                                let r = FormValue::Option(Some(Box::new(FormValue::Bool(!b))));
                                assert(r@ == FormValueView::Option(Some(Box::new(FormValueView::Bool(!b))))) by {
                                    reveal_with_fuel(crate::formdata::value_view, 2);
                                }
                                r
                            },
                            other => {
                                let r = FormValue::Option(Some(Box::new(other)));
                                assert(r@ == FormValueView::Option(Some(Box::new(other@))));
                                assert(!(other@ is Bool));
                                r
                            },
                        }
                    },
                    other => {
                        assert(other@ == vv);
                        other
                    },
                };
                assert(switched_value@ == switched(vv));
                SettingsStep::event(AppEvent::SettingsFormItemSubmitted(item.key.copy(), switched_value))
            },
            FormItemKind::Enum(_) => {
                self.popup = Some(Popup::Choices);
                SettingsStep::popup(PopupRequest::OpenChoices { title: item.title, current: value })
            },
            FormItemKind::BitMask(_) => {
                self.popup = Some(Popup::BitMask);
                let mask = value.as_u32();
                SettingsStep::popup(PopupRequest::OpenBitMask { title: item.title, mask })
            },
            FormItemKind::InputOfBase64 => {
                self.popup = Some(Popup::Input);
                let bytes = bytes_of(&value);
                proof {
                    assert(bytes@ =~= byte_values(value@));
                }
                let text = base64_encode(bytes.as_slice());
                SettingsStep::popup(PopupRequest::OpenInput { title: item.title, initial: InitialText::Text(text) })
            },
            _ => {
                self.popup = Some(Popup::Input);
                let initial = match value {
                    FormValue::Float32(bits) => InitialText::Float(bits),
                    other => match value_text_of(&other) {
                        Some(t) => InitialText::Text(t),
                        None => InitialText::Text(String::new()),
                    },
                };
                SettingsStep::popup(PopupRequest::OpenInput { title: item.title, initial })
            },
        }
    }
}


/// The form selected in the menu, if the selected row is a form.
pub open spec fn menu_form(menu: Seq<SettingsItem>, selected: Option<usize>) -> Option<FormId> {
    match selected {
        Some(i) => if i < menu.len() {
            match menu[i as int] {
                SettingsItem::Form { id, .. } => Some(id),
                _ => None,
            }
        } else {
            None
        },
        None => None,
    }
}

/// The screen passes the input to its lists and keys: no confirmation is
/// shown and no popup takes the input (a choices popup takes it only once
/// a choice is made).
pub open spec fn reaches_lists(s: SettingsScreen, chosen: Option<FormValue>) -> bool {
    &&& !s.is_exit_confirm_visible
    &&& match s.popup {
        None => true,
        Some(Popup::Choices) => chosen is None,
        _ => false,
    }
}

impl SettingsScreen {
    /// What the screen does with an input, given the state of the settings
    /// form and whether it was changed, the menu and its selected row, the
    /// number of fields of the loaded form and its selected row, the field
    /// a popup edits (or else the selected field), the form data, and what
    /// the popups hold: the typed text (and, for a floating point field,
    /// that text read as a number), the choice made, and the bit mask.
    ///
    /// The confirmation of leaving a changed form comes first: enter leaves
    /// the form, escape stays. An open popup comes next: enter submits its
    /// value (typed text is read and checked by the field's rule, and a
    /// refusal shows why), escape closes it, and other inputs go to it. Then
    /// the menu or the form's fields move, and the keys act: enter opens the
    /// selected form or edits the selected field, escape cancels a loading
    /// form or leaves the form (asking first when it was changed), `r` and
    /// `s` reset and save a changed form, and the tab keys pass on.
    pub fn handle_input(
        &mut self,
        input: &Input,
        form_state: &SettingsFormState,
        is_changed: bool,
        menu: &Vec<SettingsItem>,
        menu_selected: Option<usize>,
        form_len: usize,
        form_selected: Option<usize>,
        item: Option<&FormItem>,
        data: Option<&FormData>,
        popup_text: &str,
        parsed_float: Option<Result<u32, String>>,
        chosen: Option<FormValue>,
        mask: u32,
    ) -> (r: SettingsStep)
        requires
            !old(self).is_exit_confirm_visible && old(self).popup is Some && !(old(self).popup == Some(
                Popup::Choices,
            ) && chosen is None) ==> (item matches Some(it) && it.wf()),
            !old(self).is_exit_confirm_visible && old(self).popup == Some(Popup::Input) ==> (item matches Some(
                it,
            ) && input_kind_of(it.kind) is Some && (it.kind is InputOfFloat32 ==> parsed_float is Some)),
            reaches_lists(*old(self), chosen) && is_press(*input, Key::Enter) && *form_state
                is Loaded && spec_list_move(*input, form_len) is None ==> (item matches Some(it) && (
            data matches Some(d) && it.key.fits(d@) && (it.key is Simple ==> it.key.spec_read(d@) is Some)
                && editable(*it, shown_value(*it, d@)))),
        ensures
            old(self).is_exit_confirm_visible ==> {
                &&& final(self).popup == old(self).popup
                &&& if is_press(*input, Key::Enter) {
                    !final(self).is_exit_confirm_visible && sends_one(r) && r.events@[0]
                        == AppEvent::SettingsFormCancelRequested
                } else if is_press(*input, Key::Esc) {
                    !final(self).is_exit_confirm_visible && quiet(r, Handled::Yes)
                } else {
                    *final(self) == *old(self) && quiet(r, Handled::Yes)
                }
            },
            !old(self).is_exit_confirm_visible && old(self).popup is Some && !(old(self).popup == Some(
                Popup::Choices,
            ) && chosen is None) ==> {
                &&& !final(self).is_exit_confirm_visible
                &&& if is_press(*input, Key::Esc) {
                    final(self).popup is None && r.handled == Handled::Yes && r.events@.len() == 0
                        && r.popup@.len() == 1 && r.popup@[0] is Close
                } else if is_press(*input, Key::Enter) {
                    &&& r.handled == Handled::Yes
                    &&& (final(self).popup is None && r.events@.len() == 1 && r.popup@.len() == 1
                        && r.popup@[0] is Close && (r.events@[0] matches AppEvent::SettingsFormItemSubmitted(
                        k,
                        v,
                    ) && k.same_key(item->0.key) && (old(self).popup == Some(Popup::Choices) ==> v@
                        == chosen->0@) && (old(self).popup == Some(Popup::BitMask) ==> v@
                        == FormValueView::UnsignedInt32(mask)))) || (old(self).popup == Some(Popup::Input)
                        && final(self).popup == old(self).popup && r.events@.len() == 0 && r.popup@.len()
                        == 1 && r.popup@[0] is SetError)
                    &&& old(self).popup == Some(Popup::Input) ==> match spec_submit_typed(
                        *item->0,
                        popup_text@,
                        parsed_float,
                    ) {
                        Ok(x) => final(self).popup is None && r.events@.len() == 1 && (r.events@[0] matches AppEvent::SettingsFormItemSubmitted(
                            _,
                            v,
                        ) && v@ == x),
                        Err(Some(t)) => r.events@.len() == 0 && (r.popup@[0] matches PopupRequest::SetError(m) && m@ == t),
                        Err(None) => r.events@.len() == 0 && r.popup@[0] is SetError,
                    }
                } else {
                    *final(self) == *old(self) && r.handled == Handled::ByPopup && r.events@.len() == 0
                        && r.popup@.len() == 1 && r.popup@[0] is Forward
                }
            },
            reaches_lists(*old(self), chosen) ==> {
                if *form_state == SettingsFormState::Inactive && spec_list_move(*input, menu.len()) is Some {
                    *final(self) == *old(self) && r.list_move == Some(
                        (SettingsList::Menu, spec_list_move(*input, menu.len())->0),
                    ) && r.events@.len() == 0 && r.handled == Handled::Yes
                } else if *form_state is Loaded && spec_list_move(*input, form_len) is Some {
                    *final(self) == *old(self) && r.list_move == Some(
                        (SettingsList::Form, spec_list_move(*input, form_len)->0),
                    ) && r.events@.len() == 0 && r.handled == Handled::Yes
                } else if is_press(*input, Key::Enter) && *form_state == SettingsFormState::Inactive {
                    *final(self) == *old(self) && match menu_form(menu@, menu_selected) {
                        Some(id) => sends_one(r) && r.events@[0] == AppEvent::SettingsFormSelected(id),
                        None => quiet(r, Handled::Yes),
                    }
                } else if is_press(*input, Key::Esc) && (*form_state is Loading || *form_state
                    is LoadingFailed) {
                    *final(self) == *old(self) && sends_one(r) && r.events@[0]
                        == AppEvent::SettingsFormCancelRequested
                } else if is_press(*input, Key::Esc) && *form_state is Loaded {
                    if is_changed {
                        final(self).is_exit_confirm_visible && final(self).popup == old(self).popup && quiet(
                            r,
                            Handled::Yes,
                        )
                    } else {
                        *final(self) == *old(self) && r.events@ == seq![AppEvent::SettingsFormCancelRequested]
                            && r.reset_form_list && r.handled == Handled::Yes
                    }
                } else if is_press(*input, Key::Char('r')) && *form_state is Loaded && is_changed {
                    *final(self) == *old(self) && sends_one(r) && r.events@[0]
                        == AppEvent::SettingsFormResetRequested
                } else if is_press(*input, Key::Char('s')) && is_changed && *form_state is Loaded {
                    *final(self) == *old(self) && sends_one(r) && r.events@[0]
                        == AppEvent::SettingsFormSaveRequested(form_state->Loaded_id)
                } else if is_press(*input, Key::Tab) || is_press(*input, Key::BackTab) {
                    *final(self) == *old(self) && quiet(r, Handled::No)
                } else if is_press(*input, Key::Enter) && *form_state is Loaded {
                    edited(*old(self), *final(self), r, *item->0, shown_value(*item->0, data->0@))
                } else {
                    *final(self) == *old(self) && quiet(r, Handled::Yes)
                }
            },
    {
        if self.is_exit_confirm_visible {
            return match input {
                Input::Press { key: Key::Enter, .. } => {
                    self.is_exit_confirm_visible = false;
                    SettingsStep::event(AppEvent::SettingsFormCancelRequested)
                },
                Input::Press { key: Key::Esc, .. } => {
                    self.is_exit_confirm_visible = false;
                    SettingsStep::quiet(Handled::Yes)
                },
                _ => SettingsStep::quiet(Handled::Yes),
            };
        }
        let popup_takes = match self.popup {
            Some(Popup::Choices) => chosen.is_some(),
            Some(_) => true,
            None => false,
        };
        if popup_takes {
            let it = item.unwrap();
            return match input {
                Input::Press { key: Key::Esc, .. } => {
                    self.popup = None;
                    SettingsStep::popup(PopupRequest::Close)
                },
                Input::Press { key: Key::Enter, .. } => {
                    let submitted = match self.popup {
                        Some(Popup::Input) => SettingsScreen::submit_typed(it, popup_text, parsed_float),
                        Some(Popup::Choices) => Ok(chosen.unwrap()),
                        _ => Ok(FormValue::UnsignedInt32(mask)),
                    };
                    match submitted {
                        Ok(v) => {
                            self.popup = None;
                            let mut r = SettingsStep::popup(PopupRequest::Close);
                            r.events.push(AppEvent::SettingsFormItemSubmitted(it.key.copy(), v));
                            r
                        },
                        Err(e) => SettingsStep::popup(PopupRequest::SetError(e)),
                    }
                },
                _ => {
                    let mut r = SettingsStep::popup(PopupRequest::Forward);
                    r.handled = Handled::ByPopup;
                    r
                },
            };
        }
        match form_state {
            SettingsFormState::Inactive => match list_move(input, menu.len()) {
                Some(m) => {
                    let mut r = SettingsStep::quiet(Handled::Yes);
                    r.list_move = Some((SettingsList::Menu, m));
                    return r;
                },
                None => {},
            },
            SettingsFormState::Loaded { .. } => match list_move(input, form_len) {
                Some(m) => {
                    let mut r = SettingsStep::quiet(Handled::Yes);
                    r.list_move = Some((SettingsList::Form, m));
                    return r;
                },
                None => {},
            },
            _ => {},
        }
        match input {
            Input::Press { key, .. } => match (key, form_state) {
                (Key::Enter, SettingsFormState::Inactive) => {
                    let selected_form = match menu_selected {
                        Some(i) => if i < menu.len() {
                            match &menu[i] {
                                SettingsItem::Form { id, .. } => Some(*id),
                                _ => None,
                            }
                        } else {
                            None
                        },
                        None => None,
                    };
                    match selected_form {
                        Some(id) => SettingsStep::event(AppEvent::SettingsFormSelected(id)),
                        None => SettingsStep::quiet(Handled::Yes),
                    }
                },
                (Key::Esc, SettingsFormState::Loading { .. }) | (Key::Esc, SettingsFormState::LoadingFailed { .. }) => {
                    SettingsStep::event(AppEvent::SettingsFormCancelRequested)
                },
                (Key::Enter, SettingsFormState::Loaded { .. }) => {
                    let it = item.unwrap();
                    let d = data.unwrap();
                    let value = match it.key.read(d) {
                        Some(v) => v,
                        None => FormValue::Option(None),
                    };
                    self.edit(it, value)
                },
                (Key::Esc, SettingsFormState::Loaded { .. }) => if is_changed {
                    self.is_exit_confirm_visible = true;
                    SettingsStep::quiet(Handled::Yes)
                } else {
                    let mut r = SettingsStep::event(AppEvent::SettingsFormCancelRequested);
                    r.reset_form_list = true;
                    assert(r.events@ =~= seq![AppEvent::SettingsFormCancelRequested]);
                    r
                },
                (Key::Char(c), SettingsFormState::Loaded { id }) => if *c == 'r' && is_changed {
                    SettingsStep::event(AppEvent::SettingsFormResetRequested)
                } else if *c == 's' && is_changed {
                    SettingsStep::event(AppEvent::SettingsFormSaveRequested(*id))
                } else {
                    SettingsStep::quiet(Handled::Yes)
                },
                (Key::Tab, _) | (Key::BackTab, _) => SettingsStep::quiet(Handled::No),
                _ => SettingsStep::quiet(Handled::Yes),
            },
            _ => SettingsStep::quiet(Handled::Yes),
        }
    }
}

} // verus!
