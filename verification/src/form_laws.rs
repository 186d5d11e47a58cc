//! What every choice list of the settings forms offers.
use vstd::prelude::*;
use crate::form_table::{
    proto_choice_views, proto_choices_below, spec_form_items, ItemView, KindView, spec_device_bluetooth_items, spec_device_device_items, spec_device_display_items, spec_device_network_items, spec_device_position_items, spec_device_power_items, spec_device_user_items, spec_module_external_notification_items, spec_module_mqtt_items, spec_module_range_test_items, spec_module_serial_items, spec_module_store_and_forward_items, spec_radio_lora_items,
};
use crate::formdata::{
    data_eq, distinct_names, entries_match, insert_entry, lemma_insert_entry_absent, lemma_insert_entry_at,
    lemma_lookup_absent, lemma_lookup_index, lookup, value_eq, FormValue, FormValueView,
};
use crate::forms::FormItemKey;
use crate::state::{next_state, State, StateAction};
use crate::input::{read_digits, read_integer, IntErrorKind, Validator};
use crate::text::{decimal_digits, hex_digit};
use crate::form_table::{Formatter, KeyView};
use crate::radio::ProtoEnum;
use crate::types::FormId;

verus! {

/// A list of choices that a field can offer: at least one choice, no value
/// twice, and every value passes the field's rule.
pub open spec fn choices_sound(vs: Seq<(Seq<char>, FormValueView)>, rule: Validator) -> bool {
    &&& vs.len() > 0
    &&& forall|i: int, j: int|
        0 <= i < j < vs.len() ==> (#[trigger] vs[i]).1 != (#[trigger] vs[j]).1
    &&& forall|i: int| 0 <= i < vs.len() ==> rule.spec_accepts((#[trigger] vs[i]).1)
}

/// Every field of a form that offers choices offers a sound list of them.
pub open spec fn form_choices_sound(items: Seq<ItemView>) -> bool {
    forall|i: int|
        0 <= i < items.len() ==> match (#[trigger] items[i]).kind {
            KindView::Enum(vs) => choices_sound(vs, items[i].validator),
            _ => true,
        }
}

/// The named codes below `n` come out in increasing order, each below `n`,
/// and there is at least one where code zero has a name.
proof fn lemma_proto_choices_codes(e: ProtoEnum, n: int)
    requires
        n <= 0x7fff_ffff,
    ensures
        forall|i: int|
            0 <= i < proto_choices_below(e, n).len() ==> 0 <= (#[trigger] proto_choices_below(
                e,
                n,
            )[i]).1 < n,
        forall|i: int, j: int|
            0 <= i < j < proto_choices_below(e, n).len() ==> (#[trigger] proto_choices_below(
                e,
                n,
            )[i]).1 < (#[trigger] proto_choices_below(e, n)[j]).1,
        n >= 1 && e.str_name(0) is Some ==> proto_choices_below(e, n).len() >= 1,
    decreases n,
{
    if n > 0 {
        lemma_proto_choices_codes(e, n - 1);
        let before = proto_choices_below(e, n - 1);
        let c = (n - 1) as i32;
        assert(c == n - 1);
        if e.str_name(c) is Some {
            let after = proto_choices_below(e, n);
            assert(after == before.push((e.str_name(c)->0, c)));
            assert forall|i: int| 0 <= i < after.len() implies 0 <= (#[trigger] after[i]).1 < n by {
                if i < before.len() {
                    assert(after[i] == before[i]);
                }
            }
        }
    }
}

/// The choices of a protocol enumeration form a sound list for a field
/// that takes any value.
proof fn lemma_proto_choices_sound(e: ProtoEnum)
    ensures
        choices_sound(proto_choice_views(e), Validator::Any),
{
    let n = e.spec_code_bound() as int;
    assert(e.str_name(0) is Some);
    lemma_proto_choices_codes(e, n);
    let p = proto_choices_below(e, n);
    let vs = proto_choice_views(e);
    assert forall|i: int, j: int| 0 <= i < j < vs.len() implies (#[trigger] vs[i]).1 != (
    #[trigger] vs[j]).1 by {
        assert(p[i].1 < p[j].1);
    }
}

/// The choices of every protocol enumeration that a form offers are sound
/// lists for a field that takes any value.
proof fn lemma_all_proto_choices_sound()
    ensures
        choices_sound(proto_choice_views(ProtoEnum::RegionCode), Validator::Any),
        choices_sound(proto_choice_views(ProtoEnum::ModemPreset), Validator::Any),
        choices_sound(proto_choice_views(ProtoEnum::DeviceRole), Validator::Any),
        choices_sound(proto_choice_views(ProtoEnum::RebroadcastMode), Validator::Any),
        choices_sound(proto_choice_views(ProtoEnum::GpsMode), Validator::Any),
        choices_sound(proto_choice_views(ProtoEnum::DisplayUnits), Validator::Any),
        choices_sound(proto_choice_views(ProtoEnum::DisplayMode), Validator::Any),
        choices_sound(proto_choice_views(ProtoEnum::OledType), Validator::Any),
        choices_sound(proto_choice_views(ProtoEnum::CompassOrientation), Validator::Any),
        choices_sound(proto_choice_views(ProtoEnum::PairingMode), Validator::Any),
        choices_sound(proto_choice_views(ProtoEnum::SerialBaud), Validator::Any),
        choices_sound(proto_choice_views(ProtoEnum::SerialMode), Validator::Any),
{
    lemma_proto_choices_sound(ProtoEnum::RegionCode);
    lemma_proto_choices_sound(ProtoEnum::ModemPreset);
    lemma_proto_choices_sound(ProtoEnum::DeviceRole);
    lemma_proto_choices_sound(ProtoEnum::RebroadcastMode);
    lemma_proto_choices_sound(ProtoEnum::GpsMode);
    lemma_proto_choices_sound(ProtoEnum::DisplayUnits);
    lemma_proto_choices_sound(ProtoEnum::DisplayMode);
    lemma_proto_choices_sound(ProtoEnum::OledType);
    lemma_proto_choices_sound(ProtoEnum::CompassOrientation);
    lemma_proto_choices_sound(ProtoEnum::PairingMode);
    lemma_proto_choices_sound(ProtoEnum::SerialBaud);
    lemma_proto_choices_sound(ProtoEnum::SerialMode);
}

proof fn lemma_radio_lora_choices()
    ensures
        form_choices_sound(spec_radio_lora_items()),
{
    lemma_all_proto_choices_sound();
}

proof fn lemma_device_user_choices()
    ensures
        form_choices_sound(spec_device_user_items()),
{
    lemma_all_proto_choices_sound();
}

proof fn lemma_device_device_choices()
    ensures
        form_choices_sound(spec_device_device_items()),
{
    lemma_all_proto_choices_sound();
}

proof fn lemma_device_position_choices()
    ensures
        form_choices_sound(spec_device_position_items()),
{
    lemma_all_proto_choices_sound();
}

proof fn lemma_device_power_choices()
    ensures
        form_choices_sound(spec_device_power_items()),
{
    lemma_all_proto_choices_sound();
}

proof fn lemma_device_display_choices()
    ensures
        form_choices_sound(spec_device_display_items()),
{
    lemma_all_proto_choices_sound();
}

proof fn lemma_device_bluetooth_choices()
    ensures
        form_choices_sound(spec_device_bluetooth_items()),
{
    lemma_all_proto_choices_sound();
}

proof fn lemma_device_network_choices()
    ensures
        form_choices_sound(spec_device_network_items()),
{
    lemma_all_proto_choices_sound();
}

proof fn lemma_module_mqtt_choices()
    ensures
        form_choices_sound(spec_module_mqtt_items()),
{
    lemma_all_proto_choices_sound();
}

proof fn lemma_module_serial_choices()
    ensures
        form_choices_sound(spec_module_serial_items()),
{
    lemma_all_proto_choices_sound();
}

proof fn lemma_module_external_notification_choices()
    ensures
        form_choices_sound(spec_module_external_notification_items()),
{
    lemma_all_proto_choices_sound();
}

proof fn lemma_module_store_and_forward_choices()
    ensures
        form_choices_sound(spec_module_store_and_forward_items()),
{
    lemma_all_proto_choices_sound();
}

proof fn lemma_module_range_test_choices()
    ensures
        form_choices_sound(spec_module_range_test_items()),
{
    lemma_all_proto_choices_sound();
}

/// Every field of every settings form that offers choices offers at least
/// one, never the same value twice, and only values that pass the field's
/// rule.
pub proof fn law_form_choices_sound(id: FormId)
    ensures
        spec_form_items(id) matches Some(items) ==> form_choices_sound(items),
{
    match id {
        FormId::RadioLora => lemma_radio_lora_choices(),
        FormId::DeviceUser => lemma_device_user_choices(),
        FormId::DeviceDevice => lemma_device_device_choices(),
        FormId::DevicePosition => lemma_device_position_choices(),
        FormId::DevicePower => lemma_device_power_choices(),
        FormId::DeviceDisplay => lemma_device_display_choices(),
        FormId::DeviceBluetooth => lemma_device_bluetooth_choices(),
        FormId::DeviceNetwork => lemma_device_network_choices(),
        FormId::ModuleMqtt => lemma_module_mqtt_choices(),
        FormId::ModuleSerial => lemma_module_serial_choices(),
        FormId::ModuleExternalNotification => lemma_module_external_notification_choices(),
        FormId::ModuleStoreAndForward => lemma_module_store_and_forward_choices(),
        FormId::ModuleRangeTest => lemma_module_range_test_choices(),
        _ => {},
    }
}

/// Every field of `es` has a value under its name in `fs` equal to its own,
/// said field by field.
proof fn lemma_entries_match_each(es: Seq<(Seq<char>, FormValueView)>, fs: Seq<(Seq<char>, FormValueView)>)
    ensures
        entries_match(es, fs) == forall|j: int|
            0 <= j < es.len() ==> (lookup(fs, (#[trigger] es[j]).0) matches Some(w) && value_eq(es[j].1, w)),
    decreases es.len(),
{
    if es.len() > 0 {
        lemma_entries_match_each(es.drop_first(), fs);
        let rest = es.drop_first();
        if forall|j: int|
            0 <= j < es.len() ==> (lookup(fs, (#[trigger] es[j]).0) matches Some(w) && value_eq(es[j].1, w)) {
            assert forall|j: int| 0 <= j < rest.len() implies (lookup(fs, (#[trigger] rest[j]).0) matches Some(w)
                && value_eq(rest[j].1, w)) by {
                assert(rest[j] == es[j + 1]);
            }
        }
        if entries_match(es, fs) {
            assert forall|j: int| 0 <= j < es.len() implies (lookup(fs, (#[trigger] es[j]).0) matches Some(w)
                && value_eq(es[j].1, w)) by {
                if j > 0 {
                    assert(es[j] == rest[j - 1]);
                }
            }
        }
    }
}

/// In data with distinct names, each field is found under its own name.
proof fn lemma_lookup_own(d: Seq<(Seq<char>, FormValueView)>, j: int)
    requires
        distinct_names(d),
        0 <= j < d.len(),
    ensures
        lookup(d, d[j].0) == Some(d[j].1),
{
    lemma_lookup_index(d, d[j].0, j);
}

/// Writing `v` under `k` into data that equals itself gives data equal to
/// it exactly when it already held a value equal to `v` under `k`.
proof fn lemma_write_keeps_equal(d: Seq<(Seq<char>, FormValueView)>, k: Seq<char>, v: FormValueView)
    requires
        distinct_names(d),
        data_eq(d, d),
    ensures
        data_eq(insert_entry(d, k, v), d) == (lookup(d, k) matches Some(w) && value_eq(v, w)),
{
    let w2 = insert_entry(d, k, v);
    if exists|i: int| 0 <= i < d.len() && d[i].0 == k {
        let i = choose|i: int| 0 <= i < d.len() && d[i].0 == k;
        lemma_insert_entry_at(d, k, v, i);
        lemma_lookup_index(d, k, i);
        lemma_entries_match_each(w2, d);
        lemma_entries_match_each(d, d);
        assert forall|j: int| 0 <= j < d.len() && j != i implies (lookup(d, (#[trigger] w2[j]).0) matches Some(w)
            && value_eq(w2[j].1, w)) by {
            lemma_lookup_own(d, j);
            assert(w2[j] == d[j]);
        }
        assert(w2[i] == (k, v));
    } else {
        lemma_insert_entry_absent(d, k, v);
        lemma_lookup_absent(d, k);
    }
}

/// The loaded settings form holds, under the name `k`, a value equal to `v`.
pub open spec fn loaded_value_equals(d: Seq<(Seq<char>, FormValueView)>, k: Seq<char>, v: FormValueView) -> bool {
    lookup(d, k) matches Some(w) && value_eq(v, w)
}

/// Writing a value into a settings form as loaded, then resetting it: the
/// write stores the value under its name and marks the form changed
/// exactly when the loaded form did not hold an equal value there; the
/// reset gives the loaded data back, unchanged, and keeps it as loaded.
/// (Loaded data holding a floating point not-a-number differs from itself,
/// so it must equal itself.)
pub proof fn law_form_edit_then_reset(pre: State, mid: State, post: State, k: &'static str, value: FormValue)
    requires
        pre.settings_form_data matches Some(d) && pre.settings_form_original_data matches Some(o) && d@ == o@,
        pre.settings_form_data->0.wf(),
        data_eq(pre.settings_form_data->0@, pre.settings_form_data->0@),
        next_state(pre, StateAction::SettingsFormValueSet { key: FormItemKey::Simple(k), value }, 0, 0, mid),
        next_state(mid, StateAction::SettingsFormReset, 0, 0, post),
    ensures
        mid.settings_form_data matches Some(m) && m@ == insert_entry(pre.settings_form_data->0@, k@, value@),
        mid.settings_form_is_changed == !loaded_value_equals(pre.settings_form_data->0@, k@, value@),
        post.settings_form_data matches Some(p) && p@ == pre.settings_form_data->0@,
        !post.settings_form_is_changed,
        post.settings_form_original_data == pre.settings_form_original_data,
{
    lemma_write_keeps_equal(pre.settings_form_data->0@, k@, value@);
}

/// The fields of a form stored under the name `name` accept the text `t`
/// exactly when its UTF-8 encoding is `min` to `max` bytes long, and there is
/// such a field.
pub open spec fn text_field_takes(items: Seq<ItemView>, name: &'static str, t: Seq<char>, min: int, max: int) -> bool {
    &&& exists|i: int| 0 <= i < items.len() && (#[trigger] items[i]).key == KeyView::Simple(name)
    &&& forall|i: int|
        0 <= i < items.len() && (#[trigger] items[i]).key == KeyView::Simple(name) ==> (
        items[i].validator.spec_accepts(FormValueView::String(t)) <==> min <= vstd::utf8::encode_utf8(t).len()
            <= max)
}

/// The user form takes as the node's long name any text of 1 to 38 bytes
/// and as its short name any text of 1 to 4 bytes, and no other (of the
/// texts that fit in memory).
pub proof fn law_user_form_name_lengths(t: Seq<char>)
    requires
        vstd::utf8::encode_utf8(t).len() <= usize::MAX,
    ensures
        spec_form_items(FormId::DeviceUser) matches Some(items) && text_field_takes(items, "long_name", t, 1, 38)
            && text_field_takes(items, "short_name", t, 1, 4),
{
    reveal_strlit("long_name");
    reveal_strlit("short_name");
    reveal_strlit("is_unmessagable");
    reveal_strlit("is_licensed");
    let items = spec_form_items(FormId::DeviceUser)->0;
    assert(items[0].key == KeyView::Simple("long_name"));
    assert(items[1].key == KeyView::Simple("short_name"));
    assert("long_name"@[0] != "short_name"@[0] && "long_name"@[0] != "is_unmessagable"@[0]);
    assert("long_name"@[0] != "is_licensed"@[0]);
    assert("short_name"@[0] != "is_unmessagable"@[0] && "short_name"@[0] != "is_licensed"@[0]);
    assert(items.len() == 4);
    assert(items[2].key == KeyView::Simple("is_unmessagable"));
    assert(items[3].key == KeyView::Simple("is_licensed"));
    assert(items[1].key != KeyView::Simple("long_name"));
    assert(items[2].key != KeyView::Simple("long_name"));
    assert(items[3].key != KeyView::Simple("long_name"));
    assert(items[0].key != KeyView::Simple("short_name"));
    assert(items[2].key != KeyView::Simple("short_name"));
    assert(items[3].key != KeyView::Simple("short_name"));
    assert(text_field_takes(items, "long_name", t, 1, 38));
    assert(text_field_takes(items, "short_name", t, 1, 4));
}

/// Of the form, the rules its typed fields (Bandwidth *, Spread Factor *,
/// Frequency Slot, Frequency Override, Transmit Power) check values against:
/// the ranges of numbers and the lengths of texts in bytes each accepts, and
/// the message shown for a value it refuses; and how its fields Region, Preset,
/// Bandwidth *, Coding Rate *, Hops Limit, Frequency Override, Transmit Power
/// write out their values.
pub proof fn law_radio_lora_rules(v: u32, x: i32, t: Seq<char>)
    requires
        vstd::utf8::encode_utf8(t).len() <= usize::MAX,
    ensures
        spec_form_items(FormId::RadioLora) is Some,
        spec_form_items(FormId::RadioLora)->0[0].key == KeyView::Simple("region"),
        spec_form_items(FormId::RadioLora)->0[0].formatter == (Formatter::ProtoName(ProtoEnum::RegionCode)),
        spec_form_items(FormId::RadioLora)->0[2].key == KeyView::Simple("modem_preset"),
        spec_form_items(FormId::RadioLora)->0[2].formatter == (Formatter::ProtoName(ProtoEnum::ModemPreset)),
        spec_form_items(FormId::RadioLora)->0[3].key == KeyView::Simple("bandwidth"),
        spec_form_items(FormId::RadioLora)->0[3].formatter == (Formatter::Suffix(" kHz")),
        spec_form_items(FormId::RadioLora)->0[3].validator.spec_accepts(FormValueView::UnsignedInt32(v)) <==> 31 <= v <= 500,
        (spec_form_items(FormId::RadioLora)->0[3].validator matches Validator::UnsignedRange { message, .. } && message == "Must be between 31 and 500"),
        spec_form_items(FormId::RadioLora)->0[4].key == KeyView::Simple("spread_factor"),
        spec_form_items(FormId::RadioLora)->0[4].validator.spec_accepts(FormValueView::UnsignedInt32(v)) <==> 5 <= v <= 12,
        (spec_form_items(FormId::RadioLora)->0[4].validator matches Validator::UnsignedRange { message, .. } && message == "Must be between 5 and 12"),
        spec_form_items(FormId::RadioLora)->0[5].key == KeyView::Simple("coding_rate"),
        spec_form_items(FormId::RadioLora)->0[5].formatter == (Formatter::Prefix("4/")),
        spec_form_items(FormId::RadioLora)->0[10].key == KeyView::Simple("hop_limit"),
        spec_form_items(FormId::RadioLora)->0[10].formatter == (Formatter::Suffix(" hop(s)")),
        spec_form_items(FormId::RadioLora)->0[11].key == KeyView::Simple("channel_num"),
        spec_form_items(FormId::RadioLora)->0[11].validator.spec_accepts(FormValueView::UnsignedInt32(v)) <==> 0 <= v <= 20,
        (spec_form_items(FormId::RadioLora)->0[11].validator matches Validator::UnsignedRange { message, .. } && message == "Must be between 0 and 20"),
        spec_form_items(FormId::RadioLora)->0[13].key == KeyView::Simple("override_frequency"),
        spec_form_items(FormId::RadioLora)->0[13].formatter == (Formatter::FrequencyMhz),
        spec_form_items(FormId::RadioLora)->0[13].validator == (Validator::FloatRange { min_bits: 0x0000_0000, max_bits: 0x451c_4000, zero_allowed: false, message: "Must be between 0 and 2500" }),
        spec_form_items(FormId::RadioLora)->0[14].key == KeyView::Simple("tx_power"),
        spec_form_items(FormId::RadioLora)->0[14].formatter == (Formatter::Suffix(" dBm")),
        spec_form_items(FormId::RadioLora)->0[14].validator.spec_accepts(FormValueView::Int32(x)) <==> -100 <= x <= 100,
        (spec_form_items(FormId::RadioLora)->0[14].validator matches Validator::SignedRange { message, .. } && message == "Must be between -100 and 100"),
{
}

/// Of the form, the rules its typed fields (Long Name, Short Name) check values
/// against: the ranges of numbers and the lengths of texts in bytes each
/// accepts, and the message shown for a value it refuses.
pub proof fn law_device_user_rules(v: u32, x: i32, t: Seq<char>)
    requires
        vstd::utf8::encode_utf8(t).len() <= usize::MAX,
    ensures
        spec_form_items(FormId::DeviceUser) is Some,
        spec_form_items(FormId::DeviceUser)->0[0].key == KeyView::Simple("long_name"),
        spec_form_items(FormId::DeviceUser)->0[0].validator.spec_accepts(FormValueView::String(t)) <==> 1 <= vstd::utf8::encode_utf8(t).len() <= 38,
        (spec_form_items(FormId::DeviceUser)->0[0].validator matches Validator::TextLength { message, .. } && message == "Min length is 1, max 38"),
        spec_form_items(FormId::DeviceUser)->0[1].key == KeyView::Simple("short_name"),
        spec_form_items(FormId::DeviceUser)->0[1].validator.spec_accepts(FormValueView::String(t)) <==> 1 <= vstd::utf8::encode_utf8(t).len() <= 4,
        (spec_form_items(FormId::DeviceUser)->0[1].validator matches Validator::TextLength { message, .. } && message == "Min length is 1, max 4"),
{
}

/// Of the form, the rules its typed fields (Button GPIO, Buzzer GPIO) check
/// values against: the ranges of numbers and the lengths of texts in bytes each
/// accepts, and the message shown for a value it refuses; and how its fields
/// Device Role, Rebroadcast Mode, NodeInfo Broadcast Interval write out their
/// values.
pub proof fn law_device_device_rules(v: u32, x: i32, t: Seq<char>)
    requires
        vstd::utf8::encode_utf8(t).len() <= usize::MAX,
    ensures
        spec_form_items(FormId::DeviceDevice) is Some,
        spec_form_items(FormId::DeviceDevice)->0[0].key == KeyView::Simple("role"),
        spec_form_items(FormId::DeviceDevice)->0[0].formatter == (Formatter::ProtoName(ProtoEnum::DeviceRole)),
        spec_form_items(FormId::DeviceDevice)->0[1].key == KeyView::Simple("rebroadcast_mode"),
        spec_form_items(FormId::DeviceDevice)->0[1].formatter == (Formatter::ProtoName(ProtoEnum::RebroadcastMode)),
        spec_form_items(FormId::DeviceDevice)->0[2].key == KeyView::Simple("node_info_broadcast_secs"),
        spec_form_items(FormId::DeviceDevice)->0[2].formatter == (Formatter::HoursOrUnset),
        spec_form_items(FormId::DeviceDevice)->0[7].key == KeyView::Simple("button_gpio"),
        spec_form_items(FormId::DeviceDevice)->0[7].validator.spec_accepts(FormValueView::UnsignedInt32(v)) <==> 0 <= v <= 4294967295,
        (spec_form_items(FormId::DeviceDevice)->0[7].validator matches Validator::UnsignedRange { message, .. } && message == "Must be between 0 and 4294967295"),
        spec_form_items(FormId::DeviceDevice)->0[8].key == KeyView::Simple("buzzer_gpio"),
        spec_form_items(FormId::DeviceDevice)->0[8].validator.spec_accepts(FormValueView::UnsignedInt32(v)) <==> 0 <= v <= 4294967295,
        (spec_form_items(FormId::DeviceDevice)->0[8].validator matches Validator::UnsignedRange { message, .. } && message == "Must be between 0 and 4294967295"),
{
}

/// Of the form, the rules its typed fields (SP Minimum Distance, Position
/// Flags, GPS RX GPIO, GPS TX GPIO, GPS EN GPIO) check values against: the
/// ranges of numbers and the lengths of texts in bytes each accepts, and the
/// message shown for a value it refuses; and how its fields Broadcast Interval,
/// SP Minimum Interval, SP Minimum Distance, GPS Mode, GPS Update Interval
/// write out their values.
pub proof fn law_device_position_rules(v: u32, x: i32, t: Seq<char>)
    requires
        vstd::utf8::encode_utf8(t).len() <= usize::MAX,
    ensures
        spec_form_items(FormId::DevicePosition) is Some,
        spec_form_items(FormId::DevicePosition)->0[0].key == KeyView::Simple("position_broadcast_secs"),
        spec_form_items(FormId::DevicePosition)->0[0].formatter == (Formatter::PositionInterval),
        spec_form_items(FormId::DevicePosition)->0[2].key == KeyView::Simple("broadcast_smart_minimum_interval_secs"),
        spec_form_items(FormId::DevicePosition)->0[2].formatter == (Formatter::SmartInterval),
        spec_form_items(FormId::DevicePosition)->0[3].key == KeyView::Simple("broadcast_smart_minimum_distance"),
        spec_form_items(FormId::DevicePosition)->0[3].formatter == (Formatter::Suffix(" meters")),
        spec_form_items(FormId::DevicePosition)->0[3].validator.spec_accepts(FormValueView::UnsignedInt32(v)) <==> 0 <= v <= 4294967295,
        (spec_form_items(FormId::DevicePosition)->0[3].validator matches Validator::UnsignedRange { message, .. } && message == "Must be between 0 and 4294967295"),
        spec_form_items(FormId::DevicePosition)->0[5].key == KeyView::Simple("gps_mode"),
        spec_form_items(FormId::DevicePosition)->0[5].formatter == (Formatter::ProtoName(ProtoEnum::GpsMode)),
        spec_form_items(FormId::DevicePosition)->0[6].key == KeyView::Simple("gps_update_interval"),
        spec_form_items(FormId::DevicePosition)->0[6].formatter == (Formatter::GpsInterval),
        spec_form_items(FormId::DevicePosition)->0[7].key == KeyView::Simple("position_flags"),
        spec_form_items(FormId::DevicePosition)->0[7].validator.spec_accepts(FormValueView::UnsignedInt32(v)) <==> 0 <= v <= 4294967295,
        (spec_form_items(FormId::DevicePosition)->0[7].validator matches Validator::UnsignedRange { message, .. } && message == "Must be between 0 and 4294967295"),
        spec_form_items(FormId::DevicePosition)->0[8].key == KeyView::Simple("rx_gpio"),
        spec_form_items(FormId::DevicePosition)->0[8].validator.spec_accepts(FormValueView::UnsignedInt32(v)) <==> 0 <= v <= 4294967295,
        (spec_form_items(FormId::DevicePosition)->0[8].validator matches Validator::UnsignedRange { message, .. } && message == "Must be between 0 and 4294967295"),
        spec_form_items(FormId::DevicePosition)->0[9].key == KeyView::Simple("tx_gpio"),
        spec_form_items(FormId::DevicePosition)->0[9].validator.spec_accepts(FormValueView::UnsignedInt32(v)) <==> 0 <= v <= 4294967295,
        (spec_form_items(FormId::DevicePosition)->0[9].validator matches Validator::UnsignedRange { message, .. } && message == "Must be between 0 and 4294967295"),
        spec_form_items(FormId::DevicePosition)->0[10].key == KeyView::Simple("gps_en_gpio"),
        spec_form_items(FormId::DevicePosition)->0[10].validator.spec_accepts(FormValueView::UnsignedInt32(v)) <==> 0 <= v <= 4294967295,
        (spec_form_items(FormId::DevicePosition)->0[10].validator matches Validator::UnsignedRange { message, .. } && message == "Must be between 0 and 4294967295"),
{
}

/// Of the form, the rules its typed fields (Shutdown on Power Loss, ADC
/// Multiplier Override, Super Deep Sleep Duration, Battery INA_2XX I2C Address)
/// check values against: the ranges of numbers and the lengths of texts in
/// bytes each accepts, and the message shown for a value it refuses; and how
/// its fields Shutdown on Power Loss, ADC Multiplier Override, Wait for
/// Bluetooth Timeout, Super Deep Sleep Duration, Minimum Wake Time write out
/// their values.
pub proof fn law_device_power_rules(v: u32, x: i32, t: Seq<char>)
    requires
        vstd::utf8::encode_utf8(t).len() <= usize::MAX,
    ensures
        spec_form_items(FormId::DevicePower) is Some,
        spec_form_items(FormId::DevicePower)->0[1].key == KeyView::Simple("on_battery_shutdown_after_secs"),
        spec_form_items(FormId::DevicePower)->0[1].formatter == (Formatter::SecsOr("Always On")),
        spec_form_items(FormId::DevicePower)->0[1].validator.spec_accepts(FormValueView::UnsignedInt32(v)) <==> 0 <= v <= 4294967295,
        (spec_form_items(FormId::DevicePower)->0[1].validator matches Validator::UnsignedRange { message, .. } && message == "Must be between 0 and 4294967295"),
        spec_form_items(FormId::DevicePower)->0[2].key == KeyView::Simple("adc_multiplier_override"),
        spec_form_items(FormId::DevicePower)->0[2].formatter == (Formatter::MultiplierOrDisabled),
        spec_form_items(FormId::DevicePower)->0[2].validator == (Validator::FloatRange { min_bits: 0x4000_0000, max_bits: 0x40c0_0000, zero_allowed: true, message: "Must be between 2.0 and 6.0, or 0 for disable" }),
        spec_form_items(FormId::DevicePower)->0[3].key == KeyView::Simple("wait_bluetooth_secs"),
        spec_form_items(FormId::DevicePower)->0[3].formatter == (Formatter::Seconds),
        spec_form_items(FormId::DevicePower)->0[4].key == KeyView::Simple("sds_secs"),
        spec_form_items(FormId::DevicePower)->0[4].formatter == (Formatter::SecsOr("Default")),
        spec_form_items(FormId::DevicePower)->0[4].validator.spec_accepts(FormValueView::UnsignedInt32(v)) <==> 0 <= v <= 4294967295,
        (spec_form_items(FormId::DevicePower)->0[4].validator matches Validator::UnsignedRange { message, .. } && message == "Must be between 0 and 4294967295"),
        spec_form_items(FormId::DevicePower)->0[5].key == KeyView::Simple("min_wake_secs"),
        spec_form_items(FormId::DevicePower)->0[5].formatter == (Formatter::Seconds),
        spec_form_items(FormId::DevicePower)->0[6].key == KeyView::Simple("device_battery_ina_address"),
        spec_form_items(FormId::DevicePower)->0[6].validator.spec_accepts(FormValueView::UnsignedInt32(v)) <==> 0 <= v <= 4294967295,
        (spec_form_items(FormId::DevicePower)->0[6].validator matches Validator::UnsignedRange { message, .. } && message == "Must be between 0 and 4294967295"),
{
}

/// Of the form, how its fields Display Units, Screen On For, Carousel Interval,
/// Display Mode, OLED Type, Compass Orientation write out their values.
pub proof fn law_device_display_rules(v: u32, x: i32, t: Seq<char>)
    requires
        vstd::utf8::encode_utf8(t).len() <= usize::MAX,
    ensures
        spec_form_items(FormId::DeviceDisplay) is Some,
        spec_form_items(FormId::DeviceDisplay)->0[2].key == KeyView::Simple("units"),
        spec_form_items(FormId::DeviceDisplay)->0[2].formatter == (Formatter::ProtoName(ProtoEnum::DisplayUnits)),
        spec_form_items(FormId::DeviceDisplay)->0[3].key == KeyView::Simple("screen_on_secs"),
        spec_form_items(FormId::DeviceDisplay)->0[3].formatter == (Formatter::Minutes { zero: "Always On", hour: true }),
        spec_form_items(FormId::DeviceDisplay)->0[4].key == KeyView::Simple("auto_screen_carousel_secs"),
        spec_form_items(FormId::DeviceDisplay)->0[4].formatter == (Formatter::Minutes { zero: "Unset", hour: false }),
        spec_form_items(FormId::DeviceDisplay)->0[7].key == KeyView::Simple("displaymode"),
        spec_form_items(FormId::DeviceDisplay)->0[7].formatter == (Formatter::ProtoName(ProtoEnum::DisplayMode)),
        spec_form_items(FormId::DeviceDisplay)->0[8].key == KeyView::Simple("oled"),
        spec_form_items(FormId::DeviceDisplay)->0[8].formatter == (Formatter::ProtoName(ProtoEnum::OledType)),
        spec_form_items(FormId::DeviceDisplay)->0[9].key == KeyView::Simple("compass_orientation"),
        spec_form_items(FormId::DeviceDisplay)->0[9].formatter == (Formatter::ProtoName(ProtoEnum::CompassOrientation)),
{
}

/// Of the form, the rules its typed fields (Fixed PIN) check values against:
/// the ranges of numbers and the lengths of texts in bytes each accepts, and
/// the message shown for a value it refuses; and how its fields Pairing Mode
/// write out their values.
pub proof fn law_device_bluetooth_rules(v: u32, x: i32, t: Seq<char>)
    requires
        vstd::utf8::encode_utf8(t).len() <= usize::MAX,
    ensures
        spec_form_items(FormId::DeviceBluetooth) is Some,
        spec_form_items(FormId::DeviceBluetooth)->0[1].key == KeyView::Simple("mode"),
        spec_form_items(FormId::DeviceBluetooth)->0[1].formatter == (Formatter::ProtoName(ProtoEnum::PairingMode)),
        spec_form_items(FormId::DeviceBluetooth)->0[2].key == KeyView::Simple("fixed_pin"),
        spec_form_items(FormId::DeviceBluetooth)->0[2].validator.spec_accepts(FormValueView::UnsignedInt32(v)) <==> 100000 <= v <= 999999,
        (spec_form_items(FormId::DeviceBluetooth)->0[2].validator matches Validator::UnsignedRange { message, .. } && message == "Invalid PIN"),
{
}

/// Of the form, the rules its typed fields (WiFi SSID, WiFi Password, NTP
/// Server, Rsyslog Server) check values against: the ranges of numbers and the
/// lengths of texts in bytes each accepts, and the message shown for a value it
/// refuses.
pub proof fn law_device_network_rules(v: u32, x: i32, t: Seq<char>)
    requires
        vstd::utf8::encode_utf8(t).len() <= usize::MAX,
    ensures
        spec_form_items(FormId::DeviceNetwork) is Some,
        spec_form_items(FormId::DeviceNetwork)->0[1].key == KeyView::Simple("wifi_ssid"),
        spec_form_items(FormId::DeviceNetwork)->0[1].validator.spec_accepts(FormValueView::String(t)) <==> 0 <= vstd::utf8::encode_utf8(t).len() <= 32,
        (spec_form_items(FormId::DeviceNetwork)->0[1].validator matches Validator::TextLength { message, .. } && message == "Max length is 32"),
        spec_form_items(FormId::DeviceNetwork)->0[2].key == KeyView::Simple("wifi_psk"),
        spec_form_items(FormId::DeviceNetwork)->0[2].validator.spec_accepts(FormValueView::String(t)) <==> 0 <= vstd::utf8::encode_utf8(t).len() <= 64,
        (spec_form_items(FormId::DeviceNetwork)->0[2].validator matches Validator::TextLength { message, .. } && message == "Max length is 64"),
        spec_form_items(FormId::DeviceNetwork)->0[3].key == KeyView::Simple("ntp_server"),
        spec_form_items(FormId::DeviceNetwork)->0[3].validator.spec_accepts(FormValueView::String(t)) <==> 0 <= vstd::utf8::encode_utf8(t).len() <= 32,
        (spec_form_items(FormId::DeviceNetwork)->0[3].validator matches Validator::TextLength { message, .. } && message == "Max length is 32"),
        spec_form_items(FormId::DeviceNetwork)->0[5].key == KeyView::Simple("rsyslog_server"),
        spec_form_items(FormId::DeviceNetwork)->0[5].validator.spec_accepts(FormValueView::String(t)) <==> 0 <= vstd::utf8::encode_utf8(t).len() <= 32,
        (spec_form_items(FormId::DeviceNetwork)->0[5].validator matches Validator::TextLength { message, .. } && message == "Max length is 32"),
{
}

/// Of the form, the rules its typed fields (Address, Position Precision *)
/// check values against: the ranges of numbers and the lengths of texts in
/// bytes each accepts, and the message shown for a value it refuses; and how
/// its fields Reporting Interval * write out their values.
pub proof fn law_module_mqtt_rules(v: u32, x: i32, t: Seq<char>)
    requires
        vstd::utf8::encode_utf8(t).len() <= usize::MAX,
    ensures
        spec_form_items(FormId::ModuleMqtt) is Some,
        spec_form_items(FormId::ModuleMqtt)->0[1].key == KeyView::Simple("address"),
        spec_form_items(FormId::ModuleMqtt)->0[1].validator == (Validator::HostAddress),
        spec_form_items(FormId::ModuleMqtt)->0[11].key == KeyView::Nested("map_report_settings", "position_precision", FormValueView::UnsignedInt32(1)),
        spec_form_items(FormId::ModuleMqtt)->0[11].validator.spec_accepts(FormValueView::UnsignedInt32(v)) <==> 0 <= v <= 32,
        (spec_form_items(FormId::ModuleMqtt)->0[11].validator matches Validator::UnsignedRange { message, .. } && message == "Must be between 0 and 32"),
        spec_form_items(FormId::ModuleMqtt)->0[12].key == KeyView::Nested("map_report_settings", "publish_interval_secs", FormValueView::UnsignedInt32(3600)),
        spec_form_items(FormId::ModuleMqtt)->0[12].formatter == (Formatter::ReportInterval),
{
}

/// Of the form, the rules its typed fields (RX GPIO, TX GPIO, Timeout) check
/// values against: the ranges of numbers and the lengths of texts in bytes each
/// accepts, and the message shown for a value it refuses; and how its fields
/// Baud Rate, Mode write out their values.
pub proof fn law_module_serial_rules(v: u32, x: i32, t: Seq<char>)
    requires
        vstd::utf8::encode_utf8(t).len() <= usize::MAX,
    ensures
        spec_form_items(FormId::ModuleSerial) is Some,
        spec_form_items(FormId::ModuleSerial)->0[2].key == KeyView::Simple("rxd"),
        spec_form_items(FormId::ModuleSerial)->0[2].validator.spec_accepts(FormValueView::UnsignedInt32(v)) <==> 0 <= v <= 4294967295,
        (spec_form_items(FormId::ModuleSerial)->0[2].validator matches Validator::UnsignedRange { message, .. } && message == "Must be between 0 and 4294967295"),
        spec_form_items(FormId::ModuleSerial)->0[3].key == KeyView::Simple("txd"),
        spec_form_items(FormId::ModuleSerial)->0[3].validator.spec_accepts(FormValueView::UnsignedInt32(v)) <==> 0 <= v <= 4294967295,
        (spec_form_items(FormId::ModuleSerial)->0[3].validator matches Validator::UnsignedRange { message, .. } && message == "Must be between 0 and 4294967295"),
        spec_form_items(FormId::ModuleSerial)->0[4].key == KeyView::Simple("baud"),
        spec_form_items(FormId::ModuleSerial)->0[4].formatter == (Formatter::ProtoName(ProtoEnum::SerialBaud)),
        spec_form_items(FormId::ModuleSerial)->0[5].key == KeyView::Simple("timeout"),
        spec_form_items(FormId::ModuleSerial)->0[5].validator.spec_accepts(FormValueView::UnsignedInt32(v)) <==> 0 <= v <= 4294967295,
        (spec_form_items(FormId::ModuleSerial)->0[5].validator matches Validator::UnsignedRange { message, .. } && message == "Must be between 0 and 4294967295"),
        spec_form_items(FormId::ModuleSerial)->0[6].key == KeyView::Simple("mode"),
        spec_form_items(FormId::ModuleSerial)->0[6].formatter == (Formatter::ProtoName(ProtoEnum::SerialMode)),
{
}

/// Of the form, the rules its typed fields (Output LED GPIO, Output Buzzer
/// GPIO, Output Vibra GPIO) check values against: the ranges of numbers and the
/// lengths of texts in bytes each accepts, and the message shown for a value it
/// refuses; and how its fields Output Duration, Nag Timeout write out their
/// values.
pub proof fn law_module_external_notification_rules(v: u32, x: i32, t: Seq<char>)
    requires
        vstd::utf8::encode_utf8(t).len() <= usize::MAX,
    ensures
        spec_form_items(FormId::ModuleExternalNotification) is Some,
        spec_form_items(FormId::ModuleExternalNotification)->0[7].key == KeyView::Simple("output"),
        spec_form_items(FormId::ModuleExternalNotification)->0[7].validator.spec_accepts(FormValueView::UnsignedInt32(v)) <==> 0 <= v <= 48,
        (spec_form_items(FormId::ModuleExternalNotification)->0[7].validator matches Validator::UnsignedRange { message, .. } && message == "Must be between 0 and 48"),
        spec_form_items(FormId::ModuleExternalNotification)->0[8].key == KeyView::Simple("output_buzzer"),
        spec_form_items(FormId::ModuleExternalNotification)->0[8].validator.spec_accepts(FormValueView::UnsignedInt32(v)) <==> 0 <= v <= 48,
        (spec_form_items(FormId::ModuleExternalNotification)->0[8].validator matches Validator::UnsignedRange { message, .. } && message == "Must be between 0 and 48"),
        spec_form_items(FormId::ModuleExternalNotification)->0[9].key == KeyView::Simple("output_vibra"),
        spec_form_items(FormId::ModuleExternalNotification)->0[9].validator.spec_accepts(FormValueView::UnsignedInt32(v)) <==> 0 <= v <= 48,
        (spec_form_items(FormId::ModuleExternalNotification)->0[9].validator matches Validator::UnsignedRange { message, .. } && message == "Must be between 0 and 48"),
        spec_form_items(FormId::ModuleExternalNotification)->0[10].key == KeyView::Simple("output_ms"),
        spec_form_items(FormId::ModuleExternalNotification)->0[10].formatter == (Formatter::Milliseconds),
        spec_form_items(FormId::ModuleExternalNotification)->0[11].key == KeyView::Simple("nag_timeout"),
        spec_form_items(FormId::ModuleExternalNotification)->0[11].formatter == (Formatter::Seconds),
{
}

/// Of the form, the rules its typed fields (Number of Records, History Return
/// Max, History Return Window) check values against: the ranges of numbers and
/// the lengths of texts in bytes each accepts, and the message shown for a
/// value it refuses.
pub proof fn law_module_store_and_forward_rules(v: u32, x: i32, t: Seq<char>)
    requires
        vstd::utf8::encode_utf8(t).len() <= usize::MAX,
    ensures
        spec_form_items(FormId::ModuleStoreAndForward) is Some,
        spec_form_items(FormId::ModuleStoreAndForward)->0[2].key == KeyView::Simple("records"),
        spec_form_items(FormId::ModuleStoreAndForward)->0[2].validator.spec_accepts(FormValueView::UnsignedInt32(v)) <==> 0 <= v <= 4294967295,
        (spec_form_items(FormId::ModuleStoreAndForward)->0[2].validator matches Validator::UnsignedRange { message, .. } && message == "Must be between 0 and 4294967295"),
        spec_form_items(FormId::ModuleStoreAndForward)->0[3].key == KeyView::Simple("history_return_max"),
        spec_form_items(FormId::ModuleStoreAndForward)->0[3].validator.spec_accepts(FormValueView::UnsignedInt32(v)) <==> 0 <= v <= 4294967295,
        (spec_form_items(FormId::ModuleStoreAndForward)->0[3].validator matches Validator::UnsignedRange { message, .. } && message == "Must be between 0 and 4294967295"),
        spec_form_items(FormId::ModuleStoreAndForward)->0[4].key == KeyView::Simple("history_return_window"),
        spec_form_items(FormId::ModuleStoreAndForward)->0[4].validator.spec_accepts(FormValueView::UnsignedInt32(v)) <==> 0 <= v <= 4294967295,
        (spec_form_items(FormId::ModuleStoreAndForward)->0[4].validator matches Validator::UnsignedRange { message, .. } && message == "Must be between 0 and 4294967295"),
{
}

/// Of the form, how its fields Sender Message Interval write out their values.
pub proof fn law_module_range_test_rules(v: u32, x: i32, t: Seq<char>)
    requires
        vstd::utf8::encode_utf8(t).len() <= usize::MAX,
    ensures
        spec_form_items(FormId::ModuleRangeTest) is Some,
        spec_form_items(FormId::ModuleRangeTest)->0[1].key == KeyView::Simple("sender"),
        spec_form_items(FormId::ModuleRangeTest)->0[1].formatter == (Formatter::Minutes { zero: "Off", hour: true }),
{
}

/// A decimal digit's character reads back as the digit.
proof fn lemma_digit_char(k: int)
    requires
        0 <= k < 10,
    ensures
        crate::input::is_digit(hex_digit(k)),
        crate::input::digit_value(hex_digit(k)) == k,
{
    if k == 0 {
    } else if k == 1 {
    } else if k == 2 {
    } else if k == 3 {
    } else if k == 4 {
    } else if k == 5 {
    } else if k == 6 {
    } else if k == 7 {
    } else if k == 8 {
    } else {
    }
}

/// The decimal digits of a number read back as the number (negated when
/// `negative`) when it is within the bounds, and as an overflow past them.
proof fn lemma_read_decimal(n: nat, negative: bool, min: int, max: int)
    requires
        min <= 0 <= max,
    ensures
        read_digits(decimal_digits(n), negative, min, max) == (if !negative {
            if n <= max {
                Ok::<int, IntErrorKind>(n as int)
            } else {
                Err(IntErrorKind::PosOverflow)
            }
        } else {
            if -n >= min {
                Ok::<int, IntErrorKind>(-n)
            } else {
                Err(IntErrorKind::NegOverflow)
            }
        }),
    decreases n,
{
    let d = decimal_digits(n);
    if n < 10 {
        lemma_digit_char(n as int);
        assert(d.drop_last() =~= Seq::<char>::empty());
        assert(d.last() == hex_digit(n as int));
        assert(read_digits(d.drop_last(), negative, min, max) == Ok::<int, IntErrorKind>(0));
    } else {
        lemma_read_decimal(n / 10, negative, min, max);
        lemma_digit_char((n % 10) as int);
        assert(d.drop_last() =~= decimal_digits(n / 10));
        assert(d.last() == hex_digit((n % 10) as int));
        assert(n == (n / 10) * 10 + n % 10);
        assert(n / 10 <= n);
    }
}

/// A number typed in decimal, with a minus sign when negative, is read as
/// that number when it lies within the field's range, and refused as too
/// large or too small otherwise.
pub proof fn law_typed_number_read_back(n: nat, min: int, max: int)
    requires
        min <= 0 <= max,
    ensures
        read_integer(decimal_digits(n), min, max) == (if n <= max {
            Ok::<int, IntErrorKind>(n as int)
        } else {
            Err(IntErrorKind::PosOverflow)
        }),
        min < 0 && n > 0 ==> read_integer(seq!['-'] + decimal_digits(n), min, max) == (if -n >= min {
            Ok::<int, IntErrorKind>(-n)
        } else {
            Err(IntErrorKind::NegOverflow)
        }),
{
    lemma_read_decimal(n, false, min, max);
    lemma_read_decimal(n, true, min, max);
    let d = decimal_digits(n);
    crate::telemetry_view::lemma_decimal_digits_value(n);
    assert(crate::nodes_view::is_digit(d[0]));
    let neg = seq!['-'] + d;
    assert(neg.drop_first() =~= d);
}

/// A field with a unit writes out a number as its decimal digits followed by
/// the unit, a field with a prefix as the prefix followed by the digits, and
/// a plain field as the digits alone.
pub proof fn law_formatter_writes_number(unit: &'static str, n: u32)
    ensures
        Formatter::Suffix(unit).spec_format(FormValueView::UnsignedInt32(n)) matches Some(t) && t.len() >= unit@.len()
            && t.subrange(t.len() - unit@.len(), t.len() as int) == unit@ && crate::nodes_view::digits_value(
            t.subrange(0, t.len() - unit@.len()),
        ) == n,
        Formatter::Prefix(unit).spec_format(FormValueView::UnsignedInt32(n)) matches Some(t) && t.len() >= unit@.len()
            && t.subrange(0, unit@.len() as int) == unit@ && crate::nodes_view::digits_value(
            t.subrange(unit@.len() as int, t.len() as int),
        ) == n,
        Formatter::Plain.spec_format(FormValueView::UnsignedInt32(n)) matches Some(t) && crate::nodes_view::digits_value(
            t,
        ) == n,
{
    crate::telemetry_view::lemma_decimal_digits_value(n as nat);
    let d = decimal_digits(n as nat);
    let ts = d + unit@;
    assert(ts.subrange(0, ts.len() - unit@.len()) =~= d);
    assert(ts.subrange(ts.len() - unit@.len(), ts.len() as int) =~= unit@);
    let tp = unit@ + d;
    assert(tp.subrange(0, unit@.len() as int) =~= unit@);
    assert(tp.subrange(unit@.len() as int, tp.len() as int) =~= d);
}

} // verus!
