//! The settings forms: the fields each form shows, how a field's value is
//! written out for the user, and the rule a new value is checked by.
use vstd::prelude::*;
use vstd::string::*;
use crate::formdata::{FormData, FormValue, FormValueView};
use crate::forms::FormItemKey;
use crate::input::{float_rank, Validator};
use crate::radio::{position_flag_name, position_flag_str_name, ProtoEnum};
use crate::text::{decimal_digits, decimal_string, signed_decimal, signed_decimal_string};
use crate::types::{FormBitMaskVariant, FormId};

verus! {

broadcast use vstd::string::group_string_axioms;

/// The kind of value a settings field holds.
#[derive(Debug, Clone, Copy, PartialEq, Eq, Structural)]
pub enum ValueType {
    Bool,
    Text,
    Int,
    Unsigned,
    Float,
    Bytes,
}

/// The kind of a form value, for the kinds a field can hold.
pub open spec fn type_of(v: FormValueView) -> Option<ValueType> {
    match v {
        FormValueView::Bool(_) => Some(ValueType::Bool),
        FormValueView::String(_) => Some(ValueType::Text),
        FormValueView::Int32(_) => Some(ValueType::Int),
        FormValueView::UnsignedInt32(_) => Some(ValueType::Unsigned),
        FormValueView::Float32(_) => Some(ValueType::Float),
        FormValueView::Vec(_) => Some(ValueType::Bytes),
        _ => None,
    }
}

/// A value of the kind `t`.
pub open spec fn sample(t: ValueType) -> FormValueView {
    match t {
        ValueType::Bool => FormValueView::Bool(false),
        ValueType::Text => FormValueView::String(Seq::empty()),
        ValueType::Int => FormValueView::Int32(0),
        ValueType::Unsigned => FormValueView::UnsignedInt32(0),
        ValueType::Float => FormValueView::Float32(0),
        ValueType::Bytes => FormValueView::Vec(Seq::empty()),
    }
}

/// One choice of a choice field: what the user sees and the value stored.
#[derive(Debug)]
pub struct FormEnumVariant {
    pub title: String,
    pub value: FormValue,
}

impl FormEnumVariant {
    pub fn new(title: &str, value: FormValue) -> (r: FormEnumVariant)
        ensures
            r.title@ == title@,
            r.value@ == value@,
    {
        FormEnumVariant { title: title.to_string(), value }
    }
}

/// How a field is edited.
#[derive(Debug)]
pub enum FormItemKind {
    ReadOnly,
    InputOfString,
    InputOfInt32,
    InputOfUnsignedInt32,
    InputOfFloat32,
    InputOfBase64,
    Enum(Vec<FormEnumVariant>),
    BitMask(Vec<FormBitMaskVariant>),
    Switch,
}

/// How a field's value is written out.
#[derive(Debug, Clone, Copy)]
pub enum Formatter {
    /// the value itself
    Plain,
    /// the value, then a unit
    Suffix(&'static str),
    /// a prefix, then the value
    Prefix(&'static str),
    /// the protocol name of the chosen code, `?` for an unknown one
    ProtoName(ProtoEnum),
    /// whole hours, or `Unset` for zero
    HoursOrUnset,
    /// a position broadcast interval in seconds
    PositionInterval,
    /// a smart position minimum interval in seconds
    SmartInterval,
    /// a GPS update interval in seconds
    GpsInterval,
    /// seconds as `secs`, with a word for zero
    SecsOr(&'static str),
    /// seconds up to a minute
    Seconds,
    /// seconds in minutes, with a word for zero and, when `hour` is set,
    /// `1 hour` for an hour
    Minutes { zero: &'static str, hour: bool },
    /// a map report interval: whole hours, an hour at least
    ReportInterval,
    /// milliseconds in whole seconds
    Milliseconds,
    /// a frequency in megahertz, or `not set`
    FrequencyMhz,
    /// a multiplier, or `Disabled` for zero
    MultiplierOrDisabled,
}

/// The text of a truth value.
pub open spec fn bool_text(b: bool) -> Seq<char> {
    if b {
        "true"@
    } else {
        "false"@
    }
}

/// The text of a plain value: strings as they are, numbers in decimal,
/// truth values as `true` or `false`. Floating point and compound values
/// have none here.
pub open spec fn value_text(v: FormValueView) -> Option<Seq<char>> {
    match v {
        FormValueView::String(s) => Some(s),
        FormValueView::Int32(x) => Some(signed_decimal(x as int)),
        FormValueView::UnsignedInt8(x) => Some(decimal_digits(x as nat)),
        FormValueView::UnsignedInt32(x) => Some(decimal_digits(x as nat)),
        FormValueView::UnsignedInt64(x) => Some(decimal_digits(x as nat)),
        FormValueView::Bool(b) => Some(bool_text(b)),
        _ => None,
    }
}

/// A count followed by its unit.
pub open spec fn count_text(n: nat, unit: Seq<char>) -> Seq<char> {
    decimal_digits(n) + unit
}

impl Formatter {
    /// Whether the formatter writes out values of the kind `t`.
    pub open spec fn reads(self, t: ValueType) -> bool {
        match self {
            Formatter::Plain | Formatter::Suffix(_) | Formatter::Prefix(_) => t != ValueType::Float
                && t != ValueType::Bytes,
            Formatter::ProtoName(_) => t == ValueType::Int,
            Formatter::FrequencyMhz | Formatter::MultiplierOrDisabled => t == ValueType::Float,
            _ => t == ValueType::Unsigned,
        }
    }

    /// The text of a duration or count `n` for the formatters of unsigned
    /// numbers.
    pub open spec fn count_of(self, n: u32) -> Seq<char> {
        match self {
            Formatter::HoursOrUnset => if n > 0 {
                count_text((n / 3600) as nat, " hours"@)
            } else {
                "Unset"@
            },
            Formatter::PositionInterval => if n == 0 {
                "Default"@
            } else if n == 60 {
                "1 minute"@
            } else if n == 90 {
                "90 seconds"@
            } else if n < 3600 {
                count_text((n / 60) as nat, " minutes"@)
            } else if n == 3600 {
                "1 hour"@
            } else {
                count_text((n / 3600) as nat, " hours"@)
            },
            Formatter::SmartInterval => if n == 0 {
                "Default"@
            } else if n < 60 {
                count_text(n as nat, " seconds"@)
            } else if n == 60 {
                "1 minute"@
            } else if n < 3600 {
                count_text((n / 60) as nat, " minutes"@)
            } else if n == 3600 {
                "1 hour"@
            } else {
                count_text((n / 3600) as nat, " hours"@)
            },
            Formatter::GpsInterval => if n == 0 {
                "Default"@
            } else if n == 60 {
                "1 minute"@
            } else if n < 120 {
                count_text(n as nat, " seconds"@)
            } else if n < 3600 {
                count_text((n / 60) as nat, " minutes"@)
            } else if n == 3600 {
                "1 hour"@
            } else {
                count_text((n / 3600) as nat, " hours"@)
            },
            Formatter::SecsOr(zero) => if n == 0 {
                zero@
            } else {
                count_text(n as nat, " secs"@)
            },
            Formatter::Seconds => if n == 0 {
                "Unset"@
            } else if n == 1 {
                "1 second"@
            } else if n == 60 {
                "1 minute"@
            } else {
                count_text(n as nat, " seconds"@)
            },
            Formatter::Minutes { zero, hour } => if n == 0 {
                zero@
            } else if n < 60 {
                count_text(n as nat, " seconds"@)
            } else if n == 60 {
                "1 minute"@
            } else if hour && n == 3600 {
                "1 hour"@
            } else {
                count_text((n / 60) as nat, " minutes"@)
            },
            Formatter::ReportInterval => if n == 0 || n == 3600 {
                "1 hour"@
            } else {
                count_text((n / 3600) as nat, " hours"@)
            },
            Formatter::Milliseconds => if n == 0 {
                "Unset"@
            } else if n == 1000 {
                "1 second"@
            } else {
                count_text((n / 1000) as nat, " seconds"@)
            },
            _ => Seq::empty(),
        }
    }

    /// The text the formatter writes for `v`; `None` for floating point
    /// values, which are written out where floating point is at hand.
    pub open spec fn spec_format(self, v: FormValueView) -> Option<Seq<char>> {
        match self {
            Formatter::Plain => value_text(v),
            Formatter::Suffix(unit) => match value_text(v) {
                Some(t) => Some(t + unit@),
                None => None,
            },
            Formatter::Prefix(p) => match value_text(v) {
                Some(t) => Some(p@ + t),
                None => None,
            },
            Formatter::ProtoName(e) => match v {
                FormValueView::Int32(code) => Some(
                    match e.str_name(code) {
                        Some(n) => n,
                        None => "?"@,
                    },
                ),
                _ => None,
            },
            Formatter::FrequencyMhz | Formatter::MultiplierOrDisabled => None,
            _ => match v {
                FormValueView::UnsignedInt32(n) => Some(self.count_of(n)),
                _ => None,
            },
        }
    }

    /// Writes out `v`.
    pub fn format(&self, v: &FormValue) -> (r: Option<String>)
        requires
            type_of(v@) matches Some(t) && self.reads(t),
        ensures
            match self.spec_format(v@) {
                Some(s) => r matches Some(t) && t@ == s,
                None => r is None,
            },
    {
        match self {
            Formatter::Plain => value_text_of(v),
            Formatter::Suffix(unit) => match value_text_of(v) {
                Some(t) => {
                    let mut s = t;
                    s.append(unit);
                    Some(s)
                },
                None => None,
            },
            Formatter::Prefix(p) => match value_text_of(v) {
                Some(t) => {
                    let mut s = (*p).to_string();
                    s.append(t.as_str());
                    Some(s)
                },
                None => None,
            },
            Formatter::ProtoName(e) => {
                let code = v.as_i32();
                match e.name(code) {
                    Some(n) => Some(n),
                    None => Some("?".to_string()),
                }
            },
            Formatter::FrequencyMhz | Formatter::MultiplierOrDisabled => None,
            _ => {
                let n = v.as_u32();
                Some(self.count_string(n))
            },
        }
    }

    fn count_string(&self, n: u32) -> (r: String)
        ensures
            r@ == self.count_of(n),
    {
        match self {
            Formatter::HoursOrUnset => if n > 0 {
                unit_string(n / 3600, " hours")
            } else {
                "Unset".to_string()
            },
            Formatter::PositionInterval => if n == 0 {
                "Default".to_string()
            } else if n == 60 {
                "1 minute".to_string()
            } else if n == 90 {
                "90 seconds".to_string()
            } else if n < 3600 {
                unit_string(n / 60, " minutes")
            } else if n == 3600 {
                "1 hour".to_string()
            } else {
                unit_string(n / 3600, " hours")
            },
            Formatter::SmartInterval => if n == 0 {
                "Default".to_string()
            } else if n < 60 {
                unit_string(n, " seconds")
            } else if n == 60 {
                "1 minute".to_string()
            } else if n < 3600 {
                unit_string(n / 60, " minutes")
            } else if n == 3600 {
                "1 hour".to_string()
            } else {
                unit_string(n / 3600, " hours")
            },
            Formatter::GpsInterval => if n == 0 {
                "Default".to_string()
            } else if n == 60 {
                "1 minute".to_string()
            } else if n < 120 {
                unit_string(n, " seconds")
            } else if n < 3600 {
                unit_string(n / 60, " minutes")
            } else if n == 3600 {
                "1 hour".to_string()
            } else {
                unit_string(n / 3600, " hours")
            },
            Formatter::SecsOr(zero) => if n == 0 {
                (*zero).to_string()
            } else {
                unit_string(n, " secs")
            },
            Formatter::Seconds => if n == 0 {
                "Unset".to_string()
            } else if n == 1 {
                "1 second".to_string()
            } else if n == 60 {
                "1 minute".to_string()
            } else {
                unit_string(n, " seconds")
            },
            Formatter::Minutes { zero, hour } => if n == 0 {
                (*zero).to_string()
            } else if n < 60 {
                unit_string(n, " seconds")
            } else if n == 60 {
                "1 minute".to_string()
            } else if *hour && n == 3600 {
                "1 hour".to_string()
            } else {
                unit_string(n / 60, " minutes")
            },
            Formatter::ReportInterval => if n == 0 || n == 3600 {
                "1 hour".to_string()
            } else {
                unit_string(n / 3600, " hours")
            },
            Formatter::Milliseconds => if n == 0 {
                "Unset".to_string()
            } else if n == 1000 {
                "1 second".to_string()
            } else {
                unit_string(n / 1000, " seconds")
            },
            _ => String::new(),
        }
    }
}

/// A count followed by its unit.
fn unit_string(n: u32, unit: &str) -> (r: String)
    ensures
        r@ == count_text(n as nat, unit@),
{
    let mut s = decimal_string(n as u64);
    s.append(unit);
    s
}

/// The plain text of a value, where it has one.
pub fn value_text_of(v: &FormValue) -> (r: Option<String>)
    ensures
        match value_text(v@) {
            Some(s) => r matches Some(t) && t@ == s,
            None => r is None,
        },
{
    match v {
        FormValue::String(s) => Some(s.clone()),
        FormValue::Int32(x) => Some(signed_decimal_string(*x as i64)),
        FormValue::UnsignedInt8(x) => Some(decimal_string(*x as u64)),
        FormValue::UnsignedInt32(x) => Some(decimal_string(*x as u64)),
        FormValue::UnsignedInt64(x) => Some(decimal_string(*x)),
        FormValue::Bool(b) => if *b {
            Some("true".to_string())
        } else {
            Some("false".to_string())
        },
        _ => None,
    }
}


/// A field of a settings form.
#[derive(Debug)]
pub struct FormItem {
    pub key: FormItemKey,
    pub title: &'static str,
    pub description: Option<&'static str>,
    pub kind: FormItemKind,
    pub formatter: Formatter,
    pub validator: Validator,
}

/// The rule's bounds are in order.
pub open spec fn bounds_ordered(v: Validator) -> bool {
    match v {
        Validator::UnsignedRange { min, max, .. } => min <= max,
        Validator::SignedRange { min, max, .. } => min <= max,
        Validator::TextLength { min, max, .. } => min <= max,
        Validator::FloatRange { min_bits, max_bits, .. } => match (float_rank(min_bits), float_rank(max_bits)) {
            (Some(lo), Some(hi)) => lo <= hi,
            _ => false,
        },
        _ => true,
    }
}

/// The key stores a value of the kind `t`: a simple field, or a field of
/// an optional record whose default record is well formed and whose
/// default value is of that kind.
pub open spec fn key_holds(key: FormItemKey, t: ValueType) -> bool {
    match key {
        FormItemKey::Simple(_) => true,
        FormItemKey::NestedOption { default_value, default_record, .. } => default_record.wf() && type_of(
            default_value@,
        ) == Some(t),
        FormItemKey::NoField => false,
    }
}

impl FormItem {
    pub fn new(
        key: FormItemKey,
        title: &'static str,
        description: Option<&'static str>,
        kind: FormItemKind,
        formatter: Formatter,
        validator: Validator,
    ) -> (r: FormItem)
        ensures
            r == (FormItem { key, title, description, kind, formatter, validator }),
    {
        FormItem { key, title, description, kind, formatter, validator }
    }

    /// The kind of value the field holds: fixed by its editor, and for a
    /// choice among protocol names a signed code, for other choices an
    /// unsigned number.
    pub open spec fn value_type(&self) -> Option<ValueType> {
        match self.kind {
            FormItemKind::ReadOnly => None,
            FormItemKind::InputOfString => Some(ValueType::Text),
            FormItemKind::InputOfInt32 => Some(ValueType::Int),
            FormItemKind::InputOfUnsignedInt32 => Some(ValueType::Unsigned),
            FormItemKind::InputOfFloat32 => Some(ValueType::Float),
            FormItemKind::InputOfBase64 => Some(ValueType::Bytes),
            FormItemKind::Enum(_) => match self.formatter {
                Formatter::ProtoName(_) => Some(ValueType::Int),
                _ => Some(ValueType::Unsigned),
            },
            FormItemKind::BitMask(_) => Some(ValueType::Unsigned),
            FormItemKind::Switch => Some(ValueType::Bool),
        }
    }

    /// The field is consistent: its formatter and its rule read the kind of
    /// value it holds, the rule's bounds are in order, its key stores that
    /// kind, and each of its choices is of that kind.
    pub open spec fn wf(&self) -> bool {
        match self.value_type() {
            Some(t) => {
                &&& self.formatter.reads(t)
                &&& self.validator.reads(sample(t))
                &&& bounds_ordered(self.validator)
                &&& key_holds(self.key, t)
                &&& (self.kind matches FormItemKind::Enum(vs) ==> forall|i: int|
                    0 <= i < vs@.len() ==> type_of(#[trigger] vs@[i].value@) == Some(t))
            },
            None => false,
        }
    }

    /// The field's value written out for the user (`None` for a floating
    /// point value).
    pub fn format_value(&self, v: &FormValue) -> (r: Option<String>)
        requires
            self.wf(),
            type_of(v@) == self.value_type(),
        ensures
            match self.formatter.spec_format(v@) {
                Some(s) => r matches Some(t) && t@ == s,
                None => r is None,
            },
    {
        self.formatter.format(v)
    }

    /// Checks a new value of the field against its rule.
    pub fn check_value(&self, v: &FormValue) -> (r: Result<(), String>)
        requires
            self.wf(),
            type_of(v@) == self.value_type(),
        ensures
            r is Ok == self.validator.spec_accepts(v@),
    {
        self.validator.validate(v)
    }
}

/// The choices of a protocol enumeration: its codes below `n` that have a
/// name, in increasing order, each with its name.
pub open spec fn proto_choices_below(e: ProtoEnum, n: int) -> Seq<(Seq<char>, i32)>
    decreases n,
{
    if n <= 0 {
        Seq::empty()
    } else {
        let before = proto_choices_below(e, n - 1);
        match e.str_name((n - 1) as i32) {
            Some(name) => before.push((name, (n - 1) as i32)),
            None => before,
        }
    }
}

/// The titles and codes of choices of a protocol enumeration.
pub open spec fn code_choices(vs: Seq<FormEnumVariant>) -> Seq<(Seq<char>, i32)> {
    vs.map_values(|v: FormEnumVariant| (v.title@, match v.value@ {
        FormValueView::Int32(c) => c,
        _ => 0,
    }))
}

/// Every value of a protocol enumeration as a choice, in the order of
/// their codes.
pub fn proto_choices(e: ProtoEnum) -> (r: Vec<FormEnumVariant>)
    ensures
        code_choices(r@) == proto_choices_below(e, e.spec_code_bound() as int),
        forall|i: int| 0 <= i < r@.len() ==> (#[trigger] r@[i]).value@ is Int32,
        choice_views(r@) == proto_choice_views(e),
{
    let bound = e.code_bound();
    let mut r: Vec<FormEnumVariant> = Vec::new();
    let mut code: i32 = 0;
    while code < bound
        invariant
            0 <= code <= bound,
            bound == e.spec_code_bound(),
            code_choices(r@) == proto_choices_below(e, code as int),
            forall|i: int| 0 <= i < r@.len() ==> (#[trigger] r@[i]).value@ is Int32,
        decreases bound - code,
    {
        match e.name(code) {
            Some(name) => {
                let ghost before = r@;
                r.push(FormEnumVariant::new(name.as_str(), FormValue::Int32(code)));
                assert(code_choices(r@) == code_choices(before).push((name@, code)));
            },
            None => {},
        }
        code = code + 1;
    }
    proof {
        let p = proto_choices_below(e, e.spec_code_bound() as int);
        assert forall|i: int| 0 <= i < r@.len() implies #[trigger] choice_views(r@)[i] == proto_choice_views(e)[i] by {
            assert(code_choices(r@)[i] == p[i]);
        }
        assert(choice_views(r@) =~= proto_choice_views(e));
    }
    r
}

/// The bits of the position flags: the flags with a nonzero code below
/// `1 << n`, lowest bit first, each with its name.
pub open spec fn position_flags_below(n: nat) -> Seq<(Seq<char>, u32)>
    decreases n,
{
    if n == 0 {
        Seq::empty()
    } else {
        let before = position_flags_below((n - 1) as nat);
        let code = vstd::arithmetic::power2::pow2((n - 1) as nat) as u32;
        match position_flag_str_name(code as i32) {
            Some(name) => before.push((name, code)),
            None => before,
        }
    }
}

/// The titles and bits of bit mask choices.
pub open spec fn bit_choices(vs: Seq<FormBitMaskVariant>) -> Seq<(Seq<char>, u32)> {
    vs.map_values(|v: FormBitMaskVariant| (v.title@, v.value))
}

/// The position flags as bit mask choices: each single bit of the field
/// that the protocol names, lowest first (the protocol's flags are the ten
/// lowest bits).
pub fn position_flag_choices() -> (r: Vec<FormBitMaskVariant>)
    ensures
        bit_choices(r@) == position_flags_below(10),
{
    let mut r: Vec<FormBitMaskVariant> = Vec::new();
    let mut bit: u32 = 0;
    let mut code: u32 = 1;
    proof {
        vstd::arithmetic::power2::lemma2_to64();
    }
    while bit < 10
        invariant
            bit <= 10,
            code == vstd::arithmetic::power2::pow2(bit as nat),
            bit_choices(r@) == position_flags_below(bit as nat),
        decreases 10 - bit,
    {
        proof {
            vstd::arithmetic::power2::lemma2_to64();
        }
        assert(code < 1024) by {
            vstd::arithmetic::power2::lemma_pow2_strictly_increases(bit as nat, 10);
            vstd::arithmetic::power2::lemma2_to64();
        }
        match position_flag_name(code as i32) {
            Some(name) => {
                let ghost before = r@;
                r.push(FormBitMaskVariant::new(name.as_str(), code));
                assert(bit_choices(r@) == bit_choices(before).push((name@, code)));
            },
            None => {},
        }
        proof {
            vstd::arithmetic::power2::lemma_pow2_adds(bit as nat, 1);
            vstd::arithmetic::power2::lemma2_to64();
        }
        code = code * 2;
        bit = bit + 1;
    }
    r
}


/// The number bits of the floating point bounds the forms use, and their
/// order.
proof fn lemma_float_bounds()
    ensures
        float_rank(0x0000_0000) == Some(0int),
        float_rank(0x451c_4000) == Some(0x451c_4000int),
        float_rank(0x4000_0000) == Some(0x4000_0000int),
        float_rank(0x40c0_0000) == Some(0x40c0_0000int),
{
    assert(0x0000_0000u32 & 0x7fff_ffffu32 == 0u32) by (bit_vector);
    assert(0x451c_4000u32 & 0x7fff_ffffu32 == 0x451c_4000u32) by (bit_vector);
    assert(0x4000_0000u32 & 0x7fff_ffffu32 == 0x4000_0000u32) by (bit_vector);
    assert(0x40c0_0000u32 & 0x7fff_ffffu32 == 0x40c0_0000u32) by (bit_vector);
}

/// The map report settings as a new record holds them: every field zero.
fn default_map_report_settings() -> (r: FormData)
    ensures
        r.wf(),
{
    let mut d = FormData::new();
    d.insert("publish_interval_secs".to_string(), FormValue::UnsignedInt32(0));
    d.insert("position_precision".to_string(), FormValue::UnsignedInt32(0));
    d.insert("should_report_location".to_string(), FormValue::Bool(false));
    d
}

/// The key of a field of the optional map report settings of the MQTT
/// module, read as `default_value` while the settings are absent.
fn map_report_key(inner: &'static str, default_value: FormValue) -> (r: FormItemKey)
    ensures
        r matches FormItemKey::NestedOption { outer, inner: i, default_value: d, default_record } && outer
            == "map_report_settings" && i == inner && d@ == default_value@ && default_record.wf(),
{
    FormItemKey::NestedOption {
        outer: "map_report_settings",
        inner,
        default_value,
        default_record: default_map_report_settings(),
    }
}

/// How many fields the form `id` has, for the forms that have a field
/// table.
pub open spec fn form_item_count(id: FormId) -> Option<nat> {
    match id {
        FormId::RadioLora => Some(15),
        FormId::DeviceUser => Some(4),
        FormId::DeviceDevice => Some(9),
        FormId::DevicePosition => Some(11),
        FormId::DevicePower => Some(7),
        FormId::DeviceDisplay => Some(10),
        FormId::DeviceBluetooth => Some(3),
        FormId::DeviceNetwork => Some(7),
        FormId::ModuleMqtt => Some(13),
        FormId::ModuleSerial => Some(8),
        FormId::ModuleExternalNotification => Some(13),
        FormId::ModuleStoreAndForward => Some(6),
        FormId::ModuleRangeTest => Some(3),
        _ => None,
    }
}

/// A field's key as plain values.
pub enum KeyView {
    Simple(&'static str),
    /// the record, the field in it, and the value read while it is absent
    Nested(&'static str, &'static str, FormValueView),
    NoField,
}

pub open spec fn key_view(k: FormItemKey) -> KeyView {
    match k {
        FormItemKey::Simple(n) => KeyView::Simple(n),
        FormItemKey::NestedOption { outer, inner, default_value, .. } => KeyView::Nested(
            outer,
            inner,
            default_value@,
        ),
        FormItemKey::NoField => KeyView::NoField,
    }
}

/// How a field is edited, as plain values: the choices by their titles and
/// values.
pub enum KindView {
    ReadOnly,
    InputOfString,
    InputOfInt32,
    InputOfUnsignedInt32,
    InputOfFloat32,
    InputOfBase64,
    Enum(Seq<(Seq<char>, FormValueView)>),
    BitMask(Seq<(Seq<char>, u32)>),
    Switch,
}

/// The titles and values of choices.
pub open spec fn choice_views(vs: Seq<FormEnumVariant>) -> Seq<(Seq<char>, FormValueView)> {
    vs.map_values(|v: FormEnumVariant| (v.title@, v.value@))
}

pub open spec fn kind_view(k: FormItemKind) -> KindView {
    match k {
        FormItemKind::ReadOnly => KindView::ReadOnly,
        FormItemKind::InputOfString => KindView::InputOfString,
        FormItemKind::InputOfInt32 => KindView::InputOfInt32,
        FormItemKind::InputOfUnsignedInt32 => KindView::InputOfUnsignedInt32,
        FormItemKind::InputOfFloat32 => KindView::InputOfFloat32,
        FormItemKind::InputOfBase64 => KindView::InputOfBase64,
        FormItemKind::Enum(vs) => KindView::Enum(choice_views(vs@)),
        FormItemKind::BitMask(bs) => KindView::BitMask(bit_choices(bs@)),
        FormItemKind::Switch => KindView::Switch,
    }
}

/// A field as plain values: its key, title, description, editor, how its
/// value is written out and the rule a new value is checked by.
pub struct ItemView {
    pub key: KeyView,
    pub title: &'static str,
    pub description: Option<&'static str>,
    pub kind: KindView,
    pub formatter: Formatter,
    pub validator: Validator,
}

pub open spec fn item_view(it: FormItem) -> ItemView {
    ItemView {
        key: key_view(it.key),
        title: it.title,
        description: it.description,
        kind: kind_view(it.kind),
        formatter: it.formatter,
        validator: it.validator,
    }
}

pub open spec fn items_view(items: Seq<FormItem>) -> Seq<ItemView> {
    items.map_values(|it: FormItem| item_view(it))
}

/// The choices of a protocol enumeration: each named code, in order, as a
/// signed value.
pub open spec fn proto_choice_views(e: ProtoEnum) -> Seq<(Seq<char>, FormValueView)> {
    proto_choices_below(e, e.spec_code_bound() as int).map_values(
        |c: (Seq<char>, i32)| (c.0, FormValueView::Int32(c.1)),
    )
}

/// The fields of the form `radio_lora`.
pub open spec fn spec_radio_lora_items() -> Seq<ItemView> {
    seq![
        ItemView {
            key: KeyView::Simple("region"),
            title: "Region",
            description: Some("The region where you will be using your node."),
            kind: KindView::Enum(proto_choice_views(ProtoEnum::RegionCode)),
            formatter: Formatter::ProtoName(ProtoEnum::RegionCode),
            validator: Validator::Any,
        },
        ItemView {
            key: KeyView::Simple("use_preset"),
            title: "Use Preset",
            description: Some("If enabled then \"Bandwidth\", \"Spread Factor\" and \"Coding Rate\" fields will be ignored."),
            kind: KindView::Switch,
            formatter: Formatter::Plain,
            validator: Validator::Any,
        },
        ItemView {
            key: KeyView::Simple("modem_preset"),
            title: "Preset",
            description: Some("The field only makes sense if \"Use Preset\" field is set to true."),
            kind: KindView::Enum(proto_choice_views(ProtoEnum::ModemPreset)),
            formatter: Formatter::ProtoName(ProtoEnum::ModemPreset),
            validator: Validator::Any,
        },
        ItemView {
            key: KeyView::Simple("bandwidth"),
            title: "Bandwidth *",
            description: Some(
            "Certain bandwidth numbers are 'special' and will be converted to the appropriate floating point \
            value: 31 -> 31.25 kHz. (*) The field only makes sense if \"Use Preset\" field is set to false.",
        ),
            kind: KindView::InputOfUnsignedInt32,
            formatter: Formatter::Suffix(" kHz"),
            validator: Validator::UnsignedRange { min: 31, max: 500, message: "Must be between 31 and 500" },
        },
        ItemView {
            key: KeyView::Simple("spread_factor"),
            title: "Spread Factor *",
            description: Some(
            "A number from 5 to 12. Indicates number of chirps per symbol as 1<<spread_factor. (*) The field \
            only makes sense if \"Use Preset\" field is set to false.",
        ),
            kind: KindView::InputOfUnsignedInt32,
            formatter: Formatter::Plain,
            validator: Validator::UnsignedRange { min: 5, max: 12, message: "Must be between 5 and 12" },
        },
        ItemView {
            key: KeyView::Simple("coding_rate"),
            title: "Coding Rate *",
            description: Some(
            "The denominator of the coding rate. (*) The field only makes sense if \"Use Preset\" field is \
            set to false.",
        ),
            kind: KindView::Enum(seq![("4/5"@, FormValueView::UnsignedInt32(5)), ("4/6"@, FormValueView::UnsignedInt32(6)), ("4/7"@, FormValueView::UnsignedInt32(7)), ("4/8"@, FormValueView::UnsignedInt32(8))]),
            formatter: Formatter::Prefix("4/"),
            validator: Validator::Any,
        },
        ItemView {
            key: KeyView::Simple("ignore_mqtt"),
            title: "Ignore MQTT",
            description: Some(
            "If true, the device will not process any packets received via LoRa \
            that passed via MQTT anywhere on the path towards it.",
        ),
            kind: KindView::Switch,
            formatter: Formatter::Plain,
            validator: Validator::Any,
        },
        ItemView {
            key: KeyView::Simple("config_ok_to_mqtt"),
            title: "OK to MQTT",
            description: Some("Allow your packets to be published into MQTT."),
            kind: KindView::Switch,
            formatter: Formatter::Plain,
            validator: Validator::Any,
        },
        ItemView {
            key: KeyView::Simple("tx_enabled"),
            title: "Transmit Enabled",
            description: Some("Disabling TX is useful for hot-swapping antennas and other tests."),
            kind: KindView::Switch,
            formatter: Formatter::Plain,
            validator: Validator::Any,
        },
        ItemView {
            key: KeyView::Simple("override_duty_cycle"),
            title: "Override Duty Cycle",
            description: Some(
            "If true, duty cycle limits will be exceeded and thus you're possibly not following the local \
            regulations if you're not a HAM. Has no effect if the duty cycle of the used region is 100%.",
        ),
            kind: KindView::Switch,
            formatter: Formatter::Plain,
            validator: Validator::Any,
        },
        ItemView {
            key: KeyView::Simple("hop_limit"),
            title: "Hops Limit",
            description: Some(
            "Sets the maximum number of hops, default is 3. Increasing hops also increases congestion and \
            should be used carefully. 0 hop broadcast messages will not get ACKs.",
        ),
            kind: KindView::Enum(seq![("0 hops"@, FormValueView::UnsignedInt32(0)), ("1 hop"@, FormValueView::UnsignedInt32(1)), ("2 hops"@, FormValueView::UnsignedInt32(2)), ("3 hops"@, FormValueView::UnsignedInt32(3)), ("4 hops"@, FormValueView::UnsignedInt32(4)), ("5 hops"@, FormValueView::UnsignedInt32(5)), ("6 hops"@, FormValueView::UnsignedInt32(6)), ("7 hops"@, FormValueView::UnsignedInt32(7))]),
            formatter: Formatter::Suffix(" hop(s)"),
            validator: Validator::Any,
        },
        ItemView {
            key: KeyView::Simple("channel_num"),
            title: "Frequency Slot",
            description: Some(
            "Your node's operating frequency is calculated based on the region, modem preset, and this field. \
            When 0, the slot is automatically calculated based on the primary channel name and will change \
            from the default public slot. Change back to the public default slot if private primary and \
            public secondary channels are configured.",
        ),
            kind: KindView::InputOfUnsignedInt32,
            formatter: Formatter::Plain,
            validator: Validator::UnsignedRange { min: 0, max: 20, message: "Must be between 0 and 20" },
        },
        ItemView {
            key: KeyView::Simple("sx126x_rx_boosted_gain"),
            title: "RX Boosted Gain",
            description: Some(
            "This is an option specific to the SX126x chip series which allows the chip to consume a small \
            amount of additional power to increase RX sensitivity.",
        ),
            kind: KindView::Switch,
            formatter: Formatter::Plain,
            validator: Validator::Any,
        },
        ItemView {
            key: KeyView::Simple("override_frequency"),
            title: "Frequency Override",
            description: Some(
            "This parameter is for advanced users and licensed HAM radio operators. When enabled, the \
            channel calculation will be ignored, and the set frequency will be used instead \
            (frequency_offset still applies). This will allow you to use out-of-band frequencies.",
        ),
            kind: KindView::InputOfFloat32,
            formatter: Formatter::FrequencyMhz,
            validator: Validator::FloatRange { min_bits: 0x0000_0000, max_bits: 0x451c_4000, zero_allowed: false, message: "Must be between 0 and 2500" },
        },
        ItemView {
            key: KeyView::Simple("tx_power"),
            title: "Transmit Power",
            description: Some(
            "In dBm. If zero, then use default max legal continuous power (i.e. something that won't burn \
            out the radio hardware).",
        ),
            kind: KindView::InputOfInt32,
            formatter: Formatter::Suffix(" dBm"),
            validator: Validator::SignedRange { min: -100i32, max: 100i32, message: "Must be between -100 and 100" },
        },
    ]
}

/// The fields of the form `device_user`.
pub open spec fn spec_device_user_items() -> Seq<ItemView> {
    seq![
        ItemView {
            key: KeyView::Simple("long_name"),
            title: "Long Name",
            description: Some("Full name of your node."),
            kind: KindView::InputOfString,
            formatter: Formatter::Plain,
            validator: Validator::TextLength { min: 1, max: 38, message: "Min length is 1, max 38" },
        },
        ItemView {
            key: KeyView::Simple("short_name"),
            title: "Short Name",
            description: Some("Short name of your node."),
            kind: KindView::InputOfString,
            formatter: Formatter::Plain,
            validator: Validator::TextLength { min: 1, max: 4, message: "Min length is 1, max 4" },
        },
        ItemView {
            key: KeyView::Simple("is_unmessagable"),
            title: "Unmessagable",
            description: Some("Whether or not the node can be messaged."),
            kind: KindView::Switch,
            formatter: Formatter::Plain,
            validator: Validator::Any,
        },
        ItemView {
            key: KeyView::Simple("is_licensed"),
            title: "Licensed (HAM)",
            description: Some(
            "Enabling this option disables encryption and is not compatible with the default Meshtastic \
            network.",
        ),
            kind: KindView::Switch,
            formatter: Formatter::Plain,
            validator: Validator::Any,
        },
    ]
}

/// The fields of the form `device_device`.
pub open spec fn spec_device_device_items() -> Seq<ItemView> {
    seq![
        ItemView {
            key: KeyView::Simple("role"),
            title: "Device Role",
            description: None,
            kind: KindView::Enum(proto_choice_views(ProtoEnum::DeviceRole)),
            formatter: Formatter::ProtoName(ProtoEnum::DeviceRole),
            validator: Validator::Any,
        },
        ItemView {
            key: KeyView::Simple("rebroadcast_mode"),
            title: "Rebroadcast Mode",
            description: None,
            kind: KindView::Enum(proto_choice_views(ProtoEnum::RebroadcastMode)),
            formatter: Formatter::ProtoName(ProtoEnum::RebroadcastMode),
            validator: Validator::Any,
        },
        ItemView {
            key: KeyView::Simple("node_info_broadcast_secs"),
            title: "NodeInfo Broadcast Interval",
            description: None,
            kind: KindView::Enum(seq![("Unset"@, FormValueView::UnsignedInt32(0)), ("3 hours"@, FormValueView::UnsignedInt32(10800)), ("4 hours"@, FormValueView::UnsignedInt32(14400)), ("5 hours"@, FormValueView::UnsignedInt32(18000)), ("6 hours"@, FormValueView::UnsignedInt32(21600)), ("12 hours"@, FormValueView::UnsignedInt32(43200)), ("18 hours"@, FormValueView::UnsignedInt32(64800)), ("24 hours"@, FormValueView::UnsignedInt32(86400)), ("36 hours"@, FormValueView::UnsignedInt32(129600)), ("48 hours"@, FormValueView::UnsignedInt32(172800)), ("72 hours"@, FormValueView::UnsignedInt32(259200))]),
            formatter: Formatter::HoursOrUnset,
            validator: Validator::Any,
        },
        ItemView {
            key: KeyView::Simple("double_tap_as_button_press"),
            title: "Double Tap as Button",
            description: Some("Treat double tap interrupt on supported accelerometers as a button press if set to true."),
            kind: KindView::Switch,
            formatter: Formatter::Plain,
            validator: Validator::Any,
        },
        ItemView {
            key: KeyView::Simple("disable_triple_click"),
            title: "Triple Click Ad Hoc Ping",
            description: Some("Disables the triple-press of user button to enable or disable GPS."),
            kind: KindView::Switch,
            formatter: Formatter::Plain,
            validator: Validator::Any,
        },
        ItemView {
            key: KeyView::Simple("led_heartbeat_disabled"),
            title: "Disable LED Heartbeat",
            description: Some("If true, disable the default blinking LED (LED_PIN) behavior on the device."),
            kind: KindView::Switch,
            formatter: Formatter::Plain,
            validator: Validator::Any,
        },
        ItemView {
            key: KeyView::Simple("tzdef"),
            title: "Time Zone",
            description: Some("POSIX Timezone definition string."),
            kind: KindView::InputOfString,
            formatter: Formatter::Plain,
            validator: Validator::Any,
        },
        ItemView {
            key: KeyView::Simple("button_gpio"),
            title: "Button GPIO",
            description: None,
            kind: KindView::InputOfUnsignedInt32,
            formatter: Formatter::Plain,
            validator: Validator::UnsignedRange { min: 0, max: 4294967295, message: "Must be between 0 and 4294967295" },
        },
        ItemView {
            key: KeyView::Simple("buzzer_gpio"),
            title: "Buzzer GPIO",
            description: None,
            kind: KindView::InputOfUnsignedInt32,
            formatter: Formatter::Plain,
            validator: Validator::UnsignedRange { min: 0, max: 4294967295, message: "Must be between 0 and 4294967295" },
        },
    ]
}

/// The fields of the form `device_position`.
pub open spec fn spec_device_position_items() -> Seq<ItemView> {
    seq![
        ItemView {
            key: KeyView::Simple("position_broadcast_secs"),
            title: "Broadcast Interval",
            description: Some("The maximum interval that can elapse without a node broadcasting a position. Default 15 minutes."),
            kind: KindView::Enum(seq![("Default"@, FormValueView::UnsignedInt32(0)), ("1 minute"@, FormValueView::UnsignedInt32(60)), ("90 seconds"@, FormValueView::UnsignedInt32(90)), ("5 minutes"@, FormValueView::UnsignedInt32(300)), ("15 minutes"@, FormValueView::UnsignedInt32(900)), ("1 hour"@, FormValueView::UnsignedInt32(3600)), ("2 hours"@, FormValueView::UnsignedInt32(7200)), ("3 hours"@, FormValueView::UnsignedInt32(10800)), ("4 hours"@, FormValueView::UnsignedInt32(14400)), ("5 hours"@, FormValueView::UnsignedInt32(18000)), ("6 hours"@, FormValueView::UnsignedInt32(21600)), ("12 hours"@, FormValueView::UnsignedInt32(43200)), ("18 hours"@, FormValueView::UnsignedInt32(64800)), ("24 hours"@, FormValueView::UnsignedInt32(86400)), ("36 hours"@, FormValueView::UnsignedInt32(129600)), ("48 hours"@, FormValueView::UnsignedInt32(172800)), ("72 hours"@, FormValueView::UnsignedInt32(259200))]),
            formatter: Formatter::PositionInterval,
            validator: Validator::Any,
        },
        ItemView {
            key: KeyView::Simple("position_broadcast_smart_enabled"),
            title: "Smart Position (SP)",
            description: Some("Adaptive position broadcast."),
            kind: KindView::Switch,
            formatter: Formatter::Plain,
            validator: Validator::Any,
        },
        ItemView {
            key: KeyView::Simple("broadcast_smart_minimum_interval_secs"),
            title: "SP Minimum Interval",
            description: Some("The minimum number of seconds (since the last send) before we can send a position."),
            kind: KindView::Enum(seq![("Default"@, FormValueView::UnsignedInt32(0)), ("15 seconds"@, FormValueView::UnsignedInt32(15)), ("30 seconds"@, FormValueView::UnsignedInt32(30)), ("45 seconds"@, FormValueView::UnsignedInt32(45)), ("1 minute"@, FormValueView::UnsignedInt32(60)), ("5 minutes"@, FormValueView::UnsignedInt32(300)), ("10 minutes"@, FormValueView::UnsignedInt32(600)), ("15 minutes"@, FormValueView::UnsignedInt32(900)), ("30 minutes"@, FormValueView::UnsignedInt32(1800)), ("1 hour"@, FormValueView::UnsignedInt32(3600))]),
            formatter: Formatter::SmartInterval,
            validator: Validator::Any,
        },
        ItemView {
            key: KeyView::Simple("broadcast_smart_minimum_distance"),
            title: "SP Minimum Distance",
            description: Some("The minimum distance in meters traveled (since the last send) before we can send a position."),
            kind: KindView::InputOfUnsignedInt32,
            formatter: Formatter::Suffix(" meters"),
            validator: Validator::UnsignedRange { min: 0, max: 4294967295, message: "Must be between 0 and 4294967295" },
        },
        ItemView {
            key: KeyView::Simple("fixed_position"),
            title: "Fixed Position",
            description: Some("If set, this node is at a fixed position."),
            kind: KindView::Switch,
            formatter: Formatter::Plain,
            validator: Validator::Any,
        },
        ItemView {
            key: KeyView::Simple("gps_mode"),
            title: "GPS Mode",
            description: Some("Set where GPS is enabled, disabled, or not present."),
            kind: KindView::Enum(proto_choice_views(ProtoEnum::GpsMode)),
            formatter: Formatter::ProtoName(ProtoEnum::GpsMode),
            validator: Validator::Any,
        },
        ItemView {
            key: KeyView::Simple("gps_update_interval"),
            title: "GPS Update Interval",
            description: Some("How often should we try to get GPS position (in seconds). Default once every 30 seconds."),
            kind: KindView::Enum(seq![("Default"@, FormValueView::UnsignedInt32(0)), ("8 seconds"@, FormValueView::UnsignedInt32(8)), ("20 seconds"@, FormValueView::UnsignedInt32(20)), ("40 seconds"@, FormValueView::UnsignedInt32(40)), ("1 minute"@, FormValueView::UnsignedInt32(60)), ("80 seconds"@, FormValueView::UnsignedInt32(80)), ("2 minutes"@, FormValueView::UnsignedInt32(120)), ("5 minutes"@, FormValueView::UnsignedInt32(300)), ("10 minutes"@, FormValueView::UnsignedInt32(600)), ("15 minutes"@, FormValueView::UnsignedInt32(900)), ("30 minutes"@, FormValueView::UnsignedInt32(1800)), ("1 hour"@, FormValueView::UnsignedInt32(3600)), ("6 hours"@, FormValueView::UnsignedInt32(21600)), ("12 hours"@, FormValueView::UnsignedInt32(43200)), ("24 hours"@, FormValueView::UnsignedInt32(86400))]),
            formatter: Formatter::GpsInterval,
            validator: Validator::Any,
        },
        ItemView {
            key: KeyView::Simple("position_flags"),
            title: "Position Flags",
            description: Some("Bit field of boolean configuration options for POSITION messages."),
            kind: KindView::BitMask(position_flags_below(10)),
            formatter: Formatter::Plain,
            validator: Validator::UnsignedRange { min: 0, max: 4294967295, message: "Must be between 0 and 4294967295" },
        },
        ItemView {
            key: KeyView::Simple("rx_gpio"),
            title: "GPS RX GPIO",
            description: Some("GPS_RX_PIN for your board."),
            kind: KindView::InputOfUnsignedInt32,
            formatter: Formatter::Plain,
            validator: Validator::UnsignedRange { min: 0, max: 4294967295, message: "Must be between 0 and 4294967295" },
        },
        ItemView {
            key: KeyView::Simple("tx_gpio"),
            title: "GPS TX GPIO",
            description: Some("GPS_TX_PIN for your board."),
            kind: KindView::InputOfUnsignedInt32,
            formatter: Formatter::Plain,
            validator: Validator::UnsignedRange { min: 0, max: 4294967295, message: "Must be between 0 and 4294967295" },
        },
        ItemView {
            key: KeyView::Simple("gps_en_gpio"),
            title: "GPS EN GPIO",
            description: Some("PIN_GPS_EN for your board."),
            kind: KindView::InputOfUnsignedInt32,
            formatter: Formatter::Plain,
            validator: Validator::UnsignedRange { min: 0, max: 4294967295, message: "Must be between 0 and 4294967295" },
        },
    ]
}

/// The fields of the form `device_power`.
pub open spec fn spec_device_power_items() -> Seq<ItemView> {
    seq![
        ItemView {
            key: KeyView::Simple("is_power_saving"),
            title: "Power Saving Mode",
            description: Some(
            "Will sleep everything as mush as possible, for the tracker ad sensor role this will also \
            include the Lora radio. Don't use this setting if you want to use your device with the phone \
            apps or are using a device without a power button.",
        ),
            kind: KindView::Switch,
            formatter: Formatter::Plain,
            validator: Validator::Any,
        },
        ItemView {
            key: KeyView::Simple("on_battery_shutdown_after_secs"),
            title: "Shutdown on Power Loss",
            description: Some("If non-zero, the device will fully power off this many seconds after external power is removed."),
            kind: KindView::InputOfUnsignedInt32,
            formatter: Formatter::SecsOr("Always On"),
            validator: Validator::UnsignedRange { min: 0, max: 4294967295, message: "Must be between 0 and 4294967295" },
        },
        ItemView {
            key: KeyView::Simple("adc_multiplier_override"),
            title: "ADC Multiplier Override",
            description: Some(
            "Ratio of voltage divider for battery pin eg. 3.20 (R1=100k, R2=220k). Overrides the \
            ADC_MULTIPLIER defined in variant for battery voltage calculation. 0 – disable override.",
        ),
            kind: KindView::InputOfFloat32,
            formatter: Formatter::MultiplierOrDisabled,
            validator: Validator::FloatRange { min_bits: 0x4000_0000, max_bits: 0x40c0_0000, zero_allowed: true, message: "Must be between 2.0 and 6.0, or 0 for disable" },
        },
        ItemView {
            key: KeyView::Simple("wait_bluetooth_secs"),
            title: "Wait for Bluetooth Timeout",
            description: Some("The number of seconds for to wait before turning off BLE in No Bluetooth states."),
            kind: KindView::Enum(seq![("Unset"@, FormValueView::UnsignedInt32(0)), ("1 second"@, FormValueView::UnsignedInt32(1)), ("5 seconds"@, FormValueView::UnsignedInt32(5)), ("10 seconds"@, FormValueView::UnsignedInt32(10)), ("15 seconds"@, FormValueView::UnsignedInt32(15)), ("30 seconds"@, FormValueView::UnsignedInt32(30)), ("1 minute"@, FormValueView::UnsignedInt32(60))]),
            formatter: Formatter::Seconds,
            validator: Validator::Any,
        },
        ItemView {
            key: KeyView::Simple("sds_secs"),
            title: "Super Deep Sleep Duration",
            description: Some(
            "While in Light Sleep if mesh_sds_timeout_secs is exceeded we will lower into super deep sleep \
            for this value (default 1 year) or a button press. 0 for default of one year.",
        ),
            kind: KindView::InputOfUnsignedInt32,
            formatter: Formatter::SecsOr("Default"),
            validator: Validator::UnsignedRange { min: 0, max: 4294967295, message: "Must be between 0 and 4294967295" },
        },
        ItemView {
            key: KeyView::Simple("min_wake_secs"),
            title: "Minimum Wake Time",
            description: Some(
            "While in light sleep when we receive packets on the LoRa radio we will wake and handle them \
            and stay awake in no BLE mode for this value.",
        ),
            kind: KindView::Enum(seq![("Unset"@, FormValueView::UnsignedInt32(0)), ("1 second"@, FormValueView::UnsignedInt32(1)), ("5 seconds"@, FormValueView::UnsignedInt32(5)), ("10 seconds"@, FormValueView::UnsignedInt32(10)), ("15 seconds"@, FormValueView::UnsignedInt32(15)), ("30 seconds"@, FormValueView::UnsignedInt32(30)), ("1 minute"@, FormValueView::UnsignedInt32(60))]),
            formatter: Formatter::Seconds,
            validator: Validator::Any,
        },
        ItemView {
            key: KeyView::Simple("device_battery_ina_address"),
            title: "Battery INA_2XX I2C Address",
            description: Some("I2C address of INA_2XX to use for reading device battery voltage."),
            kind: KindView::InputOfUnsignedInt32,
            formatter: Formatter::Plain,
            validator: Validator::UnsignedRange { min: 0, max: 4294967295, message: "Must be between 0 and 4294967295" },
        },
    ]
}

/// The fields of the form `device_display`.
pub open spec fn spec_device_display_items() -> Seq<ItemView> {
    seq![
        ItemView {
            key: KeyView::Simple("use_12h_clock"),
            title: "Use 12h Clock Format",
            description: Some("When enabled, the device will display the time in 12-hour format on screen."),
            kind: KindView::Switch,
            formatter: Formatter::Plain,
            validator: Validator::Any,
        },
        ItemView {
            key: KeyView::Simple("heading_bold"),
            title: "Bold Heading",
            description: Some("Bold the heading text on the screen."),
            kind: KindView::Switch,
            formatter: Formatter::Plain,
            validator: Validator::Any,
        },
        ItemView {
            key: KeyView::Simple("units"),
            title: "Display Units",
            description: None,
            kind: KindView::Enum(proto_choice_views(ProtoEnum::DisplayUnits)),
            formatter: Formatter::ProtoName(ProtoEnum::DisplayUnits),
            validator: Validator::Any,
        },
        ItemView {
            key: KeyView::Simple("screen_on_secs"),
            title: "Screen On For",
            description: Some("Number of seconds the screen stays on after pressing the user button or receiving a message."),
            kind: KindView::Enum(seq![("Always On"@, FormValueView::UnsignedInt32(0)), ("15 second"@, FormValueView::UnsignedInt32(15)), ("30 seconds"@, FormValueView::UnsignedInt32(30)), ("1 minute"@, FormValueView::UnsignedInt32(60)), ("5 minutes"@, FormValueView::UnsignedInt32(300)), ("10 minutes"@, FormValueView::UnsignedInt32(600)), ("15 minutes"@, FormValueView::UnsignedInt32(900)), ("30 minutes"@, FormValueView::UnsignedInt32(1800)), ("1 hour"@, FormValueView::UnsignedInt32(3600))]),
            formatter: Formatter::Minutes { zero: "Always On", hour: true },
            validator: Validator::Any,
        },
        ItemView {
            key: KeyView::Simple("auto_screen_carousel_secs"),
            title: "Carousel Interval",
            description: Some(
            "Automatically toggles to the next page on the screen like a carousel, based the specified \
            interval in seconds.",
        ),
            kind: KindView::Enum(seq![("Unset"@, FormValueView::UnsignedInt32(0)), ("15 second"@, FormValueView::UnsignedInt32(15)), ("30 seconds"@, FormValueView::UnsignedInt32(30)), ("1 minute"@, FormValueView::UnsignedInt32(60)), ("5 minutes"@, FormValueView::UnsignedInt32(300)), ("10 minutes"@, FormValueView::UnsignedInt32(600)), ("15 minutes"@, FormValueView::UnsignedInt32(900))]),
            formatter: Formatter::Minutes { zero: "Unset", hour: false },
            validator: Validator::Any,
        },
        ItemView {
            key: KeyView::Simple("wake_on_tap_or_motion"),
            title: "Wake On Tap or Motion",
            description: Some("Requires that there be an accelerometer on your device."),
            kind: KindView::Switch,
            formatter: Formatter::Plain,
            validator: Validator::Any,
        },
        ItemView {
            key: KeyView::Simple("flip_screen"),
            title: "Flip Screen",
            description: Some("Flip screen vertically."),
            kind: KindView::Switch,
            formatter: Formatter::Plain,
            validator: Validator::Any,
        },
        ItemView {
            key: KeyView::Simple("displaymode"),
            title: "Display Mode",
            description: None,
            kind: KindView::Enum(proto_choice_views(ProtoEnum::DisplayMode)),
            formatter: Formatter::ProtoName(ProtoEnum::DisplayMode),
            validator: Validator::Any,
        },
        ItemView {
            key: KeyView::Simple("oled"),
            title: "OLED Type",
            description: None,
            kind: KindView::Enum(proto_choice_views(ProtoEnum::OledType)),
            formatter: Formatter::ProtoName(ProtoEnum::OledType),
            validator: Validator::Any,
        },
        ItemView {
            key: KeyView::Simple("compass_orientation"),
            title: "Compass Orientation",
            description: None,
            kind: KindView::Enum(proto_choice_views(ProtoEnum::CompassOrientation)),
            formatter: Formatter::ProtoName(ProtoEnum::CompassOrientation),
            validator: Validator::Any,
        },
    ]
}

/// The fields of the form `device_bluetooth`.
pub open spec fn spec_device_bluetooth_items() -> Seq<ItemView> {
    seq![
        ItemView {
            key: KeyView::Simple("enabled"),
            title: "Bluetooth Enabled",
            description: None,
            kind: KindView::Switch,
            formatter: Formatter::Plain,
            validator: Validator::Any,
        },
        ItemView {
            key: KeyView::Simple("mode"),
            title: "Pairing Mode",
            description: None,
            kind: KindView::Enum(proto_choice_views(ProtoEnum::PairingMode)),
            formatter: Formatter::ProtoName(ProtoEnum::PairingMode),
            validator: Validator::Any,
        },
        ItemView {
            key: KeyView::Simple("fixed_pin"),
            title: "Fixed PIN",
            description: Some("6-digit PIN code."),
            kind: KindView::InputOfUnsignedInt32,
            formatter: Formatter::Plain,
            validator: Validator::UnsignedRange { min: 100000, max: 999999, message: "Invalid PIN" },
        },
    ]
}

/// The fields of the form `device_network`.
pub open spec fn spec_device_network_items() -> Seq<ItemView> {
    seq![
        ItemView {
            key: KeyView::Simple("wifi_enabled"),
            title: "WiFi Enabled",
            description: Some("Enabling WiFi disables Bluetooth."),
            kind: KindView::Switch,
            formatter: Formatter::Plain,
            validator: Validator::Any,
        },
        ItemView {
            key: KeyView::Simple("wifi_ssid"),
            title: "WiFi SSID",
            description: Some("The WiFi network the node joins."),
            kind: KindView::InputOfString,
            formatter: Formatter::Plain,
            validator: Validator::TextLength { min: 0, max: 32, message: "Max length is 32" },
        },
        ItemView {
            key: KeyView::Simple("wifi_psk"),
            title: "WiFi Password",
            description: Some("The password of the WiFi network."),
            kind: KindView::InputOfString,
            formatter: Formatter::Plain,
            validator: Validator::TextLength { min: 0, max: 64, message: "Max length is 64" },
        },
        ItemView {
            key: KeyView::Simple("ntp_server"),
            title: "NTP Server",
            description: Some("Used while WiFi is connected; meshtastic.pool.ntp.org when empty."),
            kind: KindView::InputOfString,
            formatter: Formatter::Plain,
            validator: Validator::TextLength { min: 0, max: 32, message: "Max length is 32" },
        },
        ItemView {
            key: KeyView::Simple("eth_enabled"),
            title: "Ethernet Enabled",
            description: None,
            kind: KindView::Switch,
            formatter: Formatter::Plain,
            validator: Validator::Any,
        },
        ItemView {
            key: KeyView::Simple("rsyslog_server"),
            title: "Rsyslog Server",
            description: Some("Host and port of the rsyslog server."),
            kind: KindView::InputOfString,
            formatter: Formatter::Plain,
            validator: Validator::TextLength { min: 0, max: 32, message: "Max length is 32" },
        },
        ItemView {
            key: KeyView::Simple("ipv6_enabled"),
            title: "IPv6 Enabled",
            description: None,
            kind: KindView::Switch,
            formatter: Formatter::Plain,
            validator: Validator::Any,
        },
    ]
}

/// The fields of the form `module_mqtt`.
pub open spec fn spec_module_mqtt_items() -> Seq<ItemView> {
    seq![
        ItemView {
            key: KeyView::Simple("enabled"),
            title: "MQTT Enabled",
            description: None,
            kind: KindView::Switch,
            formatter: Formatter::Plain,
            validator: Validator::Any,
        },
        ItemView {
            key: KeyView::Simple("address"),
            title: "Address",
            description: Some("The server to use for our MQTT global message gateway feature."),
            kind: KindView::InputOfString,
            formatter: Formatter::Plain,
            validator: Validator::HostAddress,
        },
        ItemView {
            key: KeyView::Simple("username"),
            title: "Username",
            description: None,
            kind: KindView::InputOfString,
            formatter: Formatter::Plain,
            validator: Validator::Any,
        },
        ItemView {
            key: KeyView::Simple("password"),
            title: "Password",
            description: None,
            kind: KindView::InputOfString,
            formatter: Formatter::Plain,
            validator: Validator::Any,
        },
        ItemView {
            key: KeyView::Simple("encryption_enabled"),
            title: "Encryption Enabled",
            description: Some("Whether to send encrypted or decrypted packets to MQTT."),
            kind: KindView::Switch,
            formatter: Formatter::Plain,
            validator: Validator::Any,
        },
        ItemView {
            key: KeyView::Simple("json_enabled"),
            title: "JSON Output Enabled",
            description: Some("Whether to send / consume json packets on MQTT."),
            kind: KindView::Switch,
            formatter: Formatter::Plain,
            validator: Validator::Any,
        },
        ItemView {
            key: KeyView::Simple("tls_enabled"),
            title: "TLS Enabled",
            description: Some("If true, we attempt to establish a secure connection using TLS."),
            kind: KindView::Switch,
            formatter: Formatter::Plain,
            validator: Validator::Any,
        },
        ItemView {
            key: KeyView::Simple("root"),
            title: "Root Topic",
            description: Some("The root topic to use for MQTT messages. Default is \"msh\"."),
            kind: KindView::InputOfString,
            formatter: Formatter::Plain,
            validator: Validator::Any,
        },
        ItemView {
            key: KeyView::Simple("proxy_to_client_enabled"),
            title: "Proxy to Client Enabled",
            description: Some(
            "If true, we can use the connected phone / client to proxy messages to MQTT instead of \
            a direct connection.",
        ),
            kind: KindView::Switch,
            formatter: Formatter::Plain,
            validator: Validator::Any,
        },
        ItemView {
            key: KeyView::Simple("map_reporting_enabled"),
            title: "Map Reporting Enabled",
            description: Some("If true, we will periodically report unencrypted information about our node to a map via MQTT."),
            kind: KindView::Switch,
            formatter: Formatter::Plain,
            validator: Validator::Any,
        },
        ItemView {
            key: KeyView::Nested("map_report_settings", "should_report_location", FormValueView::Bool(false)),
            title: "I Agree To Report My Location *",
            description: Some(
            "I voluntary consent to the unencrypted transmission of my node data via MQTT. \
            (*) The field only makes sense if \"Map Reporting Enabled\" field is set to true.",
        ),
            kind: KindView::Switch,
            formatter: Formatter::Plain,
            validator: Validator::Any,
        },
        ItemView {
            key: KeyView::Nested("map_report_settings", "position_precision", FormValueView::UnsignedInt32(1)),
            title: "Position Precision *",
            description: Some(
            "0 – location is never sent, 32 – full precision. \
            (*) The field only makes sense if \"Map Reporting Enabled\" field is set to true",
        ),
            kind: KindView::InputOfUnsignedInt32,
            formatter: Formatter::Plain,
            validator: Validator::UnsignedRange { min: 0, max: 32, message: "Must be between 0 and 32" },
        },
        ItemView {
            key: KeyView::Nested("map_report_settings", "publish_interval_secs", FormValueView::UnsignedInt32(3600)),
            title: "Reporting Interval *",
            description: Some("(*) The field only makes sense if \"Map Reporting Enabled\" field is set to true."),
            kind: KindView::Enum(seq![("1 hour"@, FormValueView::UnsignedInt32(3600)), ("2 hours"@, FormValueView::UnsignedInt32(7200)), ("3 hours"@, FormValueView::UnsignedInt32(10800)), ("4 hours"@, FormValueView::UnsignedInt32(14400)), ("5 hours"@, FormValueView::UnsignedInt32(18000)), ("6 hours"@, FormValueView::UnsignedInt32(21600)), ("12 hours"@, FormValueView::UnsignedInt32(43200)), ("18 hours"@, FormValueView::UnsignedInt32(64800)), ("24 hours"@, FormValueView::UnsignedInt32(86400)), ("36 hours"@, FormValueView::UnsignedInt32(129600)), ("48 hours"@, FormValueView::UnsignedInt32(172800)), ("72 hours"@, FormValueView::UnsignedInt32(259200))]),
            formatter: Formatter::ReportInterval,
            validator: Validator::Any,
        },
    ]
}

/// The fields of the form `module_serial`.
pub open spec fn spec_module_serial_items() -> Seq<ItemView> {
    seq![
        ItemView {
            key: KeyView::Simple("enabled"),
            title: "Serial Enabled",
            description: None,
            kind: KindView::Switch,
            formatter: Formatter::Plain,
            validator: Validator::Any,
        },
        ItemView {
            key: KeyView::Simple("echo"),
            title: "Echo Enabled",
            description: None,
            kind: KindView::Switch,
            formatter: Formatter::Plain,
            validator: Validator::Any,
        },
        ItemView {
            key: KeyView::Simple("rxd"),
            title: "RX GPIO",
            description: None,
            kind: KindView::InputOfUnsignedInt32,
            formatter: Formatter::Plain,
            validator: Validator::UnsignedRange { min: 0, max: 4294967295, message: "Must be between 0 and 4294967295" },
        },
        ItemView {
            key: KeyView::Simple("txd"),
            title: "TX GPIO",
            description: None,
            kind: KindView::InputOfUnsignedInt32,
            formatter: Formatter::Plain,
            validator: Validator::UnsignedRange { min: 0, max: 4294967295, message: "Must be between 0 and 4294967295" },
        },
        ItemView {
            key: KeyView::Simple("baud"),
            title: "Baud Rate",
            description: None,
            kind: KindView::Enum(proto_choice_views(ProtoEnum::SerialBaud)),
            formatter: Formatter::ProtoName(ProtoEnum::SerialBaud),
            validator: Validator::Any,
        },
        ItemView {
            key: KeyView::Simple("timeout"),
            title: "Timeout",
            description: None,
            kind: KindView::InputOfUnsignedInt32,
            formatter: Formatter::Plain,
            validator: Validator::UnsignedRange { min: 0, max: 4294967295, message: "Must be between 0 and 4294967295" },
        },
        ItemView {
            key: KeyView::Simple("mode"),
            title: "Mode",
            description: None,
            kind: KindView::Enum(proto_choice_views(ProtoEnum::SerialMode)),
            formatter: Formatter::ProtoName(ProtoEnum::SerialMode),
            validator: Validator::Any,
        },
        ItemView {
            key: KeyView::Simple("override_console_serial_port"),
            title: "Override Console Serial Port",
            description: Some("Overrides the platform's defacto Serial port instance to use with Serial module config settings"),
            kind: KindView::Switch,
            formatter: Formatter::Plain,
            validator: Validator::Any,
        },
    ]
}

/// The fields of the form `module_external_notification`.
pub open spec fn spec_module_external_notification_items() -> Seq<ItemView> {
    seq![
        ItemView {
            key: KeyView::Simple("enabled"),
            title: "External Notification Enabled",
            description: None,
            kind: KindView::Switch,
            formatter: Formatter::Plain,
            validator: Validator::Any,
        },
        ItemView {
            key: KeyView::Simple("alert_message"),
            title: "Alert Message LED",
            description: None,
            kind: KindView::Switch,
            formatter: Formatter::Plain,
            validator: Validator::Any,
        },
        ItemView {
            key: KeyView::Simple("alert_message_buzzer"),
            title: "Alert Message Buzzer",
            description: None,
            kind: KindView::Switch,
            formatter: Formatter::Plain,
            validator: Validator::Any,
        },
        ItemView {
            key: KeyView::Simple("alert_message_vibra"),
            title: "Alert Message Vibra",
            description: None,
            kind: KindView::Switch,
            formatter: Formatter::Plain,
            validator: Validator::Any,
        },
        ItemView {
            key: KeyView::Simple("alert_bell"),
            title: "Alert Bell LED",
            description: None,
            kind: KindView::Switch,
            formatter: Formatter::Plain,
            validator: Validator::Any,
        },
        ItemView {
            key: KeyView::Simple("alert_bell_buzzer"),
            title: "Alert Bell Buzzer",
            description: None,
            kind: KindView::Switch,
            formatter: Formatter::Plain,
            validator: Validator::Any,
        },
        ItemView {
            key: KeyView::Simple("alert_bell_vibra"),
            title: "Alert Bell Vibra",
            description: None,
            kind: KindView::Switch,
            formatter: Formatter::Plain,
            validator: Validator::Any,
        },
        ItemView {
            key: KeyView::Simple("output"),
            title: "Output LED GPIO",
            description: None,
            kind: KindView::InputOfUnsignedInt32,
            formatter: Formatter::Plain,
            validator: Validator::UnsignedRange { min: 0, max: 48, message: "Must be between 0 and 48" },
        },
        ItemView {
            key: KeyView::Simple("output_buzzer"),
            title: "Output Buzzer GPIO",
            description: None,
            kind: KindView::InputOfUnsignedInt32,
            formatter: Formatter::Plain,
            validator: Validator::UnsignedRange { min: 0, max: 48, message: "Must be between 0 and 48" },
        },
        ItemView {
            key: KeyView::Simple("output_vibra"),
            title: "Output Vibra GPIO",
            description: None,
            kind: KindView::InputOfUnsignedInt32,
            formatter: Formatter::Plain,
            validator: Validator::UnsignedRange { min: 0, max: 48, message: "Must be between 0 and 48" },
        },
        ItemView {
            key: KeyView::Simple("output_ms"),
            title: "Output Duration",
            description: Some(
            "When using in On/Off mode, keep the output on for this many milliseconds. \
            Default 1000ms (1 second).",
        ),
            kind: KindView::Enum(seq![("Unset"@, FormValueView::UnsignedInt32(0)), ("1 second"@, FormValueView::UnsignedInt32(1000)), ("2 seconds"@, FormValueView::UnsignedInt32(2000)), ("3 seconds"@, FormValueView::UnsignedInt32(3000)), ("4 seconds"@, FormValueView::UnsignedInt32(4000)), ("5 seconds"@, FormValueView::UnsignedInt32(5000)), ("10 seconds"@, FormValueView::UnsignedInt32(10000))]),
            formatter: Formatter::Milliseconds,
            validator: Validator::Any,
        },
        ItemView {
            key: KeyView::Simple("nag_timeout"),
            title: "Nag Timeout",
            description: Some(
            "The notification will toggle with 'output_ms' for this time of seconds. \
            Default is 0 which means don't repeat at all. 60 would mean blink and/or \
            beep for 60 seconds",
        ),
            kind: KindView::Enum(seq![("Unset"@, FormValueView::UnsignedInt32(0)), ("1 second"@, FormValueView::UnsignedInt32(1)), ("5 seconds"@, FormValueView::UnsignedInt32(5)), ("10 seconds"@, FormValueView::UnsignedInt32(10)), ("15 seconds"@, FormValueView::UnsignedInt32(15)), ("30 seconds"@, FormValueView::UnsignedInt32(30)), ("1 minute"@, FormValueView::UnsignedInt32(60))]),
            formatter: Formatter::Seconds,
            validator: Validator::Any,
        },
        ItemView {
            key: KeyView::Simple("use_i2s_as_buzzer"),
            title: "Use I2C as Buzzer",
            description: Some(
            "When true, enables devices with native I2S audio output to use the RTTTL \
            over speaker like a buzzer T-Watch S3 and T-Deck for example have this capability",
        ),
            kind: KindView::Switch,
            formatter: Formatter::Plain,
            validator: Validator::Any,
        },
    ]
}

/// The fields of the form `module_store_and_forward`.
pub open spec fn spec_module_store_and_forward_items() -> Seq<ItemView> {
    seq![
        ItemView {
            key: KeyView::Simple("enabled"),
            title: "Store & Forward Enabled",
            description: None,
            kind: KindView::Switch,
            formatter: Formatter::Plain,
            validator: Validator::Any,
        },
        ItemView {
            key: KeyView::Simple("heartbeat"),
            title: "Heartbeat",
            description: None,
            kind: KindView::Switch,
            formatter: Formatter::Plain,
            validator: Validator::Any,
        },
        ItemView {
            key: KeyView::Simple("records"),
            title: "Number of Records",
            description: None,
            kind: KindView::InputOfUnsignedInt32,
            formatter: Formatter::Plain,
            validator: Validator::UnsignedRange { min: 0, max: 4294967295, message: "Must be between 0 and 4294967295" },
        },
        ItemView {
            key: KeyView::Simple("history_return_max"),
            title: "History Return Max",
            description: None,
            kind: KindView::InputOfUnsignedInt32,
            formatter: Formatter::Plain,
            validator: Validator::UnsignedRange { min: 0, max: 4294967295, message: "Must be between 0 and 4294967295" },
        },
        ItemView {
            key: KeyView::Simple("history_return_window"),
            title: "History Return Window",
            description: None,
            kind: KindView::InputOfUnsignedInt32,
            formatter: Formatter::Plain,
            validator: Validator::UnsignedRange { min: 0, max: 4294967295, message: "Must be between 0 and 4294967295" },
        },
        ItemView {
            key: KeyView::Simple("is_server"),
            title: "Server",
            description: None,
            kind: KindView::Switch,
            formatter: Formatter::Plain,
            validator: Validator::Any,
        },
    ]
}

/// The fields of the form `module_range_test`.
pub open spec fn spec_module_range_test_items() -> Seq<ItemView> {
    seq![
        ItemView {
            key: KeyView::Simple("enabled"),
            title: "Range Test Enabled",
            description: None,
            kind: KindView::Switch,
            formatter: Formatter::Plain,
            validator: Validator::Any,
        },
        ItemView {
            key: KeyView::Simple("sender"),
            title: "Sender Message Interval",
            description: Some(
            "How long to wait between sending sequential test packets. \
            0 is default which disables sending messages.",
        ),
            kind: KindView::Enum(seq![("Off"@, FormValueView::UnsignedInt32(0)), ("15 second"@, FormValueView::UnsignedInt32(15)), ("30 seconds"@, FormValueView::UnsignedInt32(30)), ("1 minute"@, FormValueView::UnsignedInt32(60)), ("5 minutes"@, FormValueView::UnsignedInt32(300)), ("10 minutes"@, FormValueView::UnsignedInt32(600)), ("15 minutes"@, FormValueView::UnsignedInt32(900)), ("30 minutes"@, FormValueView::UnsignedInt32(1800)), ("1 hour"@, FormValueView::UnsignedInt32(3600))]),
            formatter: Formatter::Minutes { zero: "Off", hour: true },
            validator: Validator::Any,
        },
        ItemView {
            key: KeyView::Simple("save"),
            title: "Save .CSV in storage",
            description: Some("ESP32 only"),
            kind: KindView::Switch,
            formatter: Formatter::Plain,
            validator: Validator::Any,
        },
    ]
}

/// The field table: the fields of each form made of fields.
pub open spec fn spec_form_items(id: FormId) -> Option<Seq<ItemView>> {
    match id {
        FormId::RadioLora => Some(spec_radio_lora_items()),
        FormId::DeviceUser => Some(spec_device_user_items()),
        FormId::DeviceDevice => Some(spec_device_device_items()),
        FormId::DevicePosition => Some(spec_device_position_items()),
        FormId::DevicePower => Some(spec_device_power_items()),
        FormId::DeviceDisplay => Some(spec_device_display_items()),
        FormId::DeviceBluetooth => Some(spec_device_bluetooth_items()),
        FormId::DeviceNetwork => Some(spec_device_network_items()),
        FormId::ModuleMqtt => Some(spec_module_mqtt_items()),
        FormId::ModuleSerial => Some(spec_module_serial_items()),
        FormId::ModuleExternalNotification => Some(spec_module_external_notification_items()),
        FormId::ModuleStoreAndForward => Some(spec_module_store_and_forward_items()),
        FormId::ModuleRangeTest => Some(spec_module_range_test_items()),
        _ => None,
    }
}

/// The fields of the settings form `id`, for the forms made of fields;
/// `None` for the others. Every field is consistent (`FormItem::wf`).
pub fn form_items(id: FormId) -> (r: Option<Vec<FormItem>>)
    ensures
        r is Some <==> form_item_count(id) is Some,
        r matches Some(items) ==> form_item_count(id) == Some(items.len() as nat),
        r matches Some(items) ==> forall|i: int| 0 <= i < items.len() ==> (#[trigger] items@[i]).wf(),
        r is Some <==> spec_form_items(id) is Some,
        r matches Some(items) ==> Some(items_view(items@)) == spec_form_items(id),
{
    match id {
        FormId::RadioLora => Some(radio_lora_items()),
        FormId::DeviceUser => Some(device_user_items()),
        FormId::DeviceDevice => Some(device_device_items()),
        FormId::DevicePosition => Some(device_position_items()),
        FormId::DevicePower => Some(device_power_items()),
        FormId::DeviceDisplay => Some(device_display_items()),
        FormId::DeviceBluetooth => Some(device_bluetooth_items()),
        FormId::DeviceNetwork => Some(device_network_items()),
        FormId::ModuleMqtt => Some(module_mqtt_items()),
        FormId::ModuleSerial => Some(module_serial_items()),
        FormId::ModuleExternalNotification => Some(module_external_notification_items()),
        FormId::ModuleStoreAndForward => Some(module_store_and_forward_items()),
        FormId::ModuleRangeTest => Some(module_range_test_items()),
        _ => None,
    }
}

fn radio_lora_items() -> (r: Vec<FormItem>)
    ensures
        items_view(r@) == spec_radio_lora_items(),
        r.len() == 15,
        forall|i: int| 0 <= i < r.len() ==> (#[trigger] r@[i]).wf(),
{
    let mut items: Vec<FormItem> = Vec::new();
    proof {
        lemma_float_bounds();
    }
    items.push(FormItem::new(
        FormItemKey::Simple("region"),
        "Region",
        Some("The region where you will be using your node."),
        FormItemKind::Enum(proto_choices(ProtoEnum::RegionCode)),
        Formatter::ProtoName(ProtoEnum::RegionCode),
        Validator::Any,
    ));
    items.push(FormItem::new(
        FormItemKey::Simple("use_preset"),
        "Use Preset",
        Some("If enabled then \"Bandwidth\", \"Spread Factor\" and \"Coding Rate\" fields will be ignored."),
        FormItemKind::Switch,
        Formatter::Plain,
        Validator::Any,
    ));
    items.push(FormItem::new(
        FormItemKey::Simple("modem_preset"),
        "Preset",
        Some("The field only makes sense if \"Use Preset\" field is set to true."),
        FormItemKind::Enum(proto_choices(ProtoEnum::ModemPreset)),
        Formatter::ProtoName(ProtoEnum::ModemPreset),
        Validator::Any,
    ));
    items.push(FormItem::new(
        FormItemKey::Simple("bandwidth"),
        "Bandwidth *",
        Some(
            "Certain bandwidth numbers are 'special' and will be converted to the appropriate floating point \
            value: 31 -> 31.25 kHz. (*) The field only makes sense if \"Use Preset\" field is set to false.",
        ),
        FormItemKind::InputOfUnsignedInt32,
        Formatter::Suffix(" kHz"),
        Validator::UnsignedRange { min: 31, max: 500, message: "Must be between 31 and 500" },
    ));
    items.push(FormItem::new(
        FormItemKey::Simple("spread_factor"),
        "Spread Factor *",
        Some(
            "A number from 5 to 12. Indicates number of chirps per symbol as 1<<spread_factor. (*) The field \
            only makes sense if \"Use Preset\" field is set to false.",
        ),
        FormItemKind::InputOfUnsignedInt32,
        Formatter::Plain,
        Validator::UnsignedRange { min: 5, max: 12, message: "Must be between 5 and 12" },
    ));
    let choices_0 = vec![
            FormEnumVariant::new("4/5", FormValue::UnsignedInt32(5)),
            FormEnumVariant::new("4/6", FormValue::UnsignedInt32(6)),
            FormEnumVariant::new("4/7", FormValue::UnsignedInt32(7)),
            FormEnumVariant::new("4/8", FormValue::UnsignedInt32(8)),
        ];
    proof {
        assert(choice_views(choices_0@) =~= seq![("4/5"@, FormValueView::UnsignedInt32(5)), ("4/6"@, FormValueView::UnsignedInt32(6)), ("4/7"@, FormValueView::UnsignedInt32(7)), ("4/8"@, FormValueView::UnsignedInt32(8))]);
    }
    items.push(FormItem::new(
        FormItemKey::Simple("coding_rate"),
        "Coding Rate *",
        Some(
            "The denominator of the coding rate. (*) The field only makes sense if \"Use Preset\" field is \
            set to false.",
        ),
        FormItemKind::Enum(choices_0),
        Formatter::Prefix("4/"),
        Validator::Any,
    ));
    items.push(FormItem::new(
        FormItemKey::Simple("ignore_mqtt"),
        "Ignore MQTT",
        Some(
            "If true, the device will not process any packets received via LoRa \
            that passed via MQTT anywhere on the path towards it.",
        ),
        FormItemKind::Switch,
        Formatter::Plain,
        Validator::Any,
    ));
    items.push(FormItem::new(
        FormItemKey::Simple("config_ok_to_mqtt"),
        "OK to MQTT",
        Some("Allow your packets to be published into MQTT."),
        FormItemKind::Switch,
        Formatter::Plain,
        Validator::Any,
    ));
    items.push(FormItem::new(
        FormItemKey::Simple("tx_enabled"),
        "Transmit Enabled",
        Some("Disabling TX is useful for hot-swapping antennas and other tests."),
        FormItemKind::Switch,
        Formatter::Plain,
        Validator::Any,
    ));
    items.push(FormItem::new(
        FormItemKey::Simple("override_duty_cycle"),
        "Override Duty Cycle",
        Some(
            "If true, duty cycle limits will be exceeded and thus you're possibly not following the local \
            regulations if you're not a HAM. Has no effect if the duty cycle of the used region is 100%.",
        ),
        FormItemKind::Switch,
        Formatter::Plain,
        Validator::Any,
    ));
    let choices_1 = vec![
            FormEnumVariant::new("0 hops", FormValue::UnsignedInt32(0)),
            FormEnumVariant::new("1 hop", FormValue::UnsignedInt32(1)),
            FormEnumVariant::new("2 hops", FormValue::UnsignedInt32(2)),
            FormEnumVariant::new("3 hops", FormValue::UnsignedInt32(3)),
            FormEnumVariant::new("4 hops", FormValue::UnsignedInt32(4)),
            FormEnumVariant::new("5 hops", FormValue::UnsignedInt32(5)),
            FormEnumVariant::new("6 hops", FormValue::UnsignedInt32(6)),
            FormEnumVariant::new("7 hops", FormValue::UnsignedInt32(7)),
        ];
    proof {
        assert(choice_views(choices_1@) =~= seq![("0 hops"@, FormValueView::UnsignedInt32(0)), ("1 hop"@, FormValueView::UnsignedInt32(1)), ("2 hops"@, FormValueView::UnsignedInt32(2)), ("3 hops"@, FormValueView::UnsignedInt32(3)), ("4 hops"@, FormValueView::UnsignedInt32(4)), ("5 hops"@, FormValueView::UnsignedInt32(5)), ("6 hops"@, FormValueView::UnsignedInt32(6)), ("7 hops"@, FormValueView::UnsignedInt32(7))]);
    }
    items.push(FormItem::new(
        FormItemKey::Simple("hop_limit"),
        "Hops Limit",
        Some(
            "Sets the maximum number of hops, default is 3. Increasing hops also increases congestion and \
            should be used carefully. 0 hop broadcast messages will not get ACKs.",
        ),
        FormItemKind::Enum(choices_1),
        Formatter::Suffix(" hop(s)"),
        Validator::Any,
    ));
    items.push(FormItem::new(
        FormItemKey::Simple("channel_num"),
        "Frequency Slot",
        Some(
            "Your node's operating frequency is calculated based on the region, modem preset, and this field. \
            When 0, the slot is automatically calculated based on the primary channel name and will change \
            from the default public slot. Change back to the public default slot if private primary and \
            public secondary channels are configured.",
        ),
        FormItemKind::InputOfUnsignedInt32,
        Formatter::Plain,
        Validator::UnsignedRange { min: 0, max: 20, message: "Must be between 0 and 20" },
    ));
    items.push(FormItem::new(
        FormItemKey::Simple("sx126x_rx_boosted_gain"),
        "RX Boosted Gain",
        Some(
            "This is an option specific to the SX126x chip series which allows the chip to consume a small \
            amount of additional power to increase RX sensitivity.",
        ),
        FormItemKind::Switch,
        Formatter::Plain,
        Validator::Any,
    ));
    items.push(FormItem::new(
        FormItemKey::Simple("override_frequency"),
        "Frequency Override",
        Some(
            "This parameter is for advanced users and licensed HAM radio operators. When enabled, the \
            channel calculation will be ignored, and the set frequency will be used instead \
            (frequency_offset still applies). This will allow you to use out-of-band frequencies.",
        ),
        FormItemKind::InputOfFloat32,
        Formatter::FrequencyMhz,
        Validator::FloatRange { min_bits: 0x0000_0000, max_bits: 0x451c_4000, zero_allowed: false, message: "Must be between 0 and 2500" },
    ));
    items.push(FormItem::new(
        FormItemKey::Simple("tx_power"),
        "Transmit Power",
        Some(
            "In dBm. If zero, then use default max legal continuous power (i.e. something that won't burn \
            out the radio hardware).",
        ),
        FormItemKind::InputOfInt32,
        Formatter::Suffix(" dBm"),
        Validator::SignedRange { min: -100i32, max: 100i32, message: "Must be between -100 and 100" },
    ));
    proof {
        assert(items_view(items@) =~= spec_radio_lora_items());
    }
    items
}

fn device_user_items() -> (r: Vec<FormItem>)
    ensures
        items_view(r@) == spec_device_user_items(),
        r.len() == 4,
        forall|i: int| 0 <= i < r.len() ==> (#[trigger] r@[i]).wf(),
{
    let mut items: Vec<FormItem> = Vec::new();
    items.push(FormItem::new(
        FormItemKey::Simple("long_name"),
        "Long Name",
        Some("Full name of your node."),
        FormItemKind::InputOfString,
        Formatter::Plain,
        Validator::TextLength { min: 1, max: 38, message: "Min length is 1, max 38" },
    ));
    items.push(FormItem::new(
        FormItemKey::Simple("short_name"),
        "Short Name",
        Some("Short name of your node."),
        FormItemKind::InputOfString,
        Formatter::Plain,
        Validator::TextLength { min: 1, max: 4, message: "Min length is 1, max 4" },
    ));
    items.push(FormItem::new(
        FormItemKey::Simple("is_unmessagable"),
        "Unmessagable",
        Some("Whether or not the node can be messaged."),
        FormItemKind::Switch,
        Formatter::Plain,
        Validator::Any,
    ));
    items.push(FormItem::new(
        FormItemKey::Simple("is_licensed"),
        "Licensed (HAM)",
        Some(
            "Enabling this option disables encryption and is not compatible with the default Meshtastic \
            network.",
        ),
        FormItemKind::Switch,
        Formatter::Plain,
        Validator::Any,
    ));
    proof {
        assert(items_view(items@) =~= spec_device_user_items());
    }
    items
}

fn device_device_items() -> (r: Vec<FormItem>)
    ensures
        items_view(r@) == spec_device_device_items(),
        r.len() == 9,
        forall|i: int| 0 <= i < r.len() ==> (#[trigger] r@[i]).wf(),
{
    let mut items: Vec<FormItem> = Vec::new();
    items.push(FormItem::new(
        FormItemKey::Simple("role"),
        "Device Role",
        None,
        FormItemKind::Enum(proto_choices(ProtoEnum::DeviceRole)),
        Formatter::ProtoName(ProtoEnum::DeviceRole),
        Validator::Any,
    ));
    items.push(FormItem::new(
        FormItemKey::Simple("rebroadcast_mode"),
        "Rebroadcast Mode",
        None,
        FormItemKind::Enum(proto_choices(ProtoEnum::RebroadcastMode)),
        Formatter::ProtoName(ProtoEnum::RebroadcastMode),
        Validator::Any,
    ));
    let choices_2 = vec![
            FormEnumVariant::new("Unset", FormValue::UnsignedInt32(0)),
            FormEnumVariant::new("3 hours", FormValue::UnsignedInt32(3 * 3600)),
            FormEnumVariant::new("4 hours", FormValue::UnsignedInt32(4 * 3600)),
            FormEnumVariant::new("5 hours", FormValue::UnsignedInt32(5 * 3600)),
            FormEnumVariant::new("6 hours", FormValue::UnsignedInt32(6 * 3600)),
            FormEnumVariant::new("12 hours", FormValue::UnsignedInt32(12 * 3600)),
            FormEnumVariant::new("18 hours", FormValue::UnsignedInt32(18 * 3600)),
            FormEnumVariant::new("24 hours", FormValue::UnsignedInt32(24 * 3600)),
            FormEnumVariant::new("36 hours", FormValue::UnsignedInt32(36 * 3600)),
            FormEnumVariant::new("48 hours", FormValue::UnsignedInt32(48 * 3600)),
            FormEnumVariant::new("72 hours", FormValue::UnsignedInt32(72 * 3600)),
        ];
    proof {
        assert(choice_views(choices_2@) =~= seq![("Unset"@, FormValueView::UnsignedInt32(0)), ("3 hours"@, FormValueView::UnsignedInt32(10800)), ("4 hours"@, FormValueView::UnsignedInt32(14400)), ("5 hours"@, FormValueView::UnsignedInt32(18000)), ("6 hours"@, FormValueView::UnsignedInt32(21600)), ("12 hours"@, FormValueView::UnsignedInt32(43200)), ("18 hours"@, FormValueView::UnsignedInt32(64800)), ("24 hours"@, FormValueView::UnsignedInt32(86400)), ("36 hours"@, FormValueView::UnsignedInt32(129600)), ("48 hours"@, FormValueView::UnsignedInt32(172800)), ("72 hours"@, FormValueView::UnsignedInt32(259200))]);
    }
    items.push(FormItem::new(
        FormItemKey::Simple("node_info_broadcast_secs"),
        "NodeInfo Broadcast Interval",
        None,
        FormItemKind::Enum(choices_2),
        Formatter::HoursOrUnset,
        Validator::Any,
    ));
    items.push(FormItem::new(
        FormItemKey::Simple("double_tap_as_button_press"),
        "Double Tap as Button",
        Some("Treat double tap interrupt on supported accelerometers as a button press if set to true."),
        FormItemKind::Switch,
        Formatter::Plain,
        Validator::Any,
    ));
    items.push(FormItem::new(
        FormItemKey::Simple("disable_triple_click"),
        "Triple Click Ad Hoc Ping",
        Some("Disables the triple-press of user button to enable or disable GPS."),
        FormItemKind::Switch,
        Formatter::Plain,
        Validator::Any,
    ));
    items.push(FormItem::new(
        FormItemKey::Simple("led_heartbeat_disabled"),
        "Disable LED Heartbeat",
        Some("If true, disable the default blinking LED (LED_PIN) behavior on the device."),
        FormItemKind::Switch,
        Formatter::Plain,
        Validator::Any,
    ));
    items.push(FormItem::new(
        FormItemKey::Simple("tzdef"),
        "Time Zone",
        Some("POSIX Timezone definition string."),
        FormItemKind::InputOfString,
        Formatter::Plain,
        Validator::Any,
    ));
    items.push(FormItem::new(
        FormItemKey::Simple("button_gpio"),
        "Button GPIO",
        None,
        FormItemKind::InputOfUnsignedInt32,
        Formatter::Plain,
        Validator::UnsignedRange { min: 0, max: 4294967295, message: "Must be between 0 and 4294967295" },
    ));
    items.push(FormItem::new(
        FormItemKey::Simple("buzzer_gpio"),
        "Buzzer GPIO",
        None,
        FormItemKind::InputOfUnsignedInt32,
        Formatter::Plain,
        Validator::UnsignedRange { min: 0, max: 4294967295, message: "Must be between 0 and 4294967295" },
    ));
    proof {
        assert(items_view(items@) =~= spec_device_device_items());
    }
    items
}

fn device_position_items() -> (r: Vec<FormItem>)
    ensures
        items_view(r@) == spec_device_position_items(),
        r.len() == 11,
        forall|i: int| 0 <= i < r.len() ==> (#[trigger] r@[i]).wf(),
{
    let mut items: Vec<FormItem> = Vec::new();
    let choices_3 = vec![
            FormEnumVariant::new("Default", FormValue::UnsignedInt32(0)),
            FormEnumVariant::new("1 minute", FormValue::UnsignedInt32(60)),
            FormEnumVariant::new("90 seconds", FormValue::UnsignedInt32(90)),
            FormEnumVariant::new("5 minutes", FormValue::UnsignedInt32(300)),
            FormEnumVariant::new("15 minutes", FormValue::UnsignedInt32(900)),
            FormEnumVariant::new("1 hour", FormValue::UnsignedInt32(1 * 3600)),
            FormEnumVariant::new("2 hours", FormValue::UnsignedInt32(2 * 3600)),
            FormEnumVariant::new("3 hours", FormValue::UnsignedInt32(3 * 3600)),
            FormEnumVariant::new("4 hours", FormValue::UnsignedInt32(4 * 3600)),
            FormEnumVariant::new("5 hours", FormValue::UnsignedInt32(5 * 3600)),
            FormEnumVariant::new("6 hours", FormValue::UnsignedInt32(6 * 3600)),
            FormEnumVariant::new("12 hours", FormValue::UnsignedInt32(12 * 3600)),
            FormEnumVariant::new("18 hours", FormValue::UnsignedInt32(18 * 3600)),
            FormEnumVariant::new("24 hours", FormValue::UnsignedInt32(24 * 3600)),
            FormEnumVariant::new("36 hours", FormValue::UnsignedInt32(36 * 3600)),
            FormEnumVariant::new("48 hours", FormValue::UnsignedInt32(48 * 3600)),
            FormEnumVariant::new("72 hours", FormValue::UnsignedInt32(72 * 3600)),
        ];
    proof {
        assert(choice_views(choices_3@) =~= seq![("Default"@, FormValueView::UnsignedInt32(0)), ("1 minute"@, FormValueView::UnsignedInt32(60)), ("90 seconds"@, FormValueView::UnsignedInt32(90)), ("5 minutes"@, FormValueView::UnsignedInt32(300)), ("15 minutes"@, FormValueView::UnsignedInt32(900)), ("1 hour"@, FormValueView::UnsignedInt32(3600)), ("2 hours"@, FormValueView::UnsignedInt32(7200)), ("3 hours"@, FormValueView::UnsignedInt32(10800)), ("4 hours"@, FormValueView::UnsignedInt32(14400)), ("5 hours"@, FormValueView::UnsignedInt32(18000)), ("6 hours"@, FormValueView::UnsignedInt32(21600)), ("12 hours"@, FormValueView::UnsignedInt32(43200)), ("18 hours"@, FormValueView::UnsignedInt32(64800)), ("24 hours"@, FormValueView::UnsignedInt32(86400)), ("36 hours"@, FormValueView::UnsignedInt32(129600)), ("48 hours"@, FormValueView::UnsignedInt32(172800)), ("72 hours"@, FormValueView::UnsignedInt32(259200))]);
    }
    items.push(FormItem::new(
        FormItemKey::Simple("position_broadcast_secs"),
        "Broadcast Interval",
        Some("The maximum interval that can elapse without a node broadcasting a position. Default 15 minutes."),
        FormItemKind::Enum(choices_3),
        Formatter::PositionInterval,
        Validator::Any,
    ));
    items.push(FormItem::new(
        FormItemKey::Simple("position_broadcast_smart_enabled"),
        "Smart Position (SP)",
        Some("Adaptive position broadcast."),
        FormItemKind::Switch,
        Formatter::Plain,
        Validator::Any,
    ));
    let choices_4 = vec![
            FormEnumVariant::new("Default", FormValue::UnsignedInt32(0)),
            FormEnumVariant::new("15 seconds", FormValue::UnsignedInt32(15)),
            FormEnumVariant::new("30 seconds", FormValue::UnsignedInt32(30)),
            FormEnumVariant::new("45 seconds", FormValue::UnsignedInt32(45)),
            FormEnumVariant::new("1 minute", FormValue::UnsignedInt32(60)),
            FormEnumVariant::new("5 minutes", FormValue::UnsignedInt32(300)),
            FormEnumVariant::new("10 minutes", FormValue::UnsignedInt32(600)),
            FormEnumVariant::new("15 minutes", FormValue::UnsignedInt32(900)),
            FormEnumVariant::new("30 minutes", FormValue::UnsignedInt32(1800)),
            FormEnumVariant::new("1 hour", FormValue::UnsignedInt32(3600)),
        ];
    proof {
        assert(choice_views(choices_4@) =~= seq![("Default"@, FormValueView::UnsignedInt32(0)), ("15 seconds"@, FormValueView::UnsignedInt32(15)), ("30 seconds"@, FormValueView::UnsignedInt32(30)), ("45 seconds"@, FormValueView::UnsignedInt32(45)), ("1 minute"@, FormValueView::UnsignedInt32(60)), ("5 minutes"@, FormValueView::UnsignedInt32(300)), ("10 minutes"@, FormValueView::UnsignedInt32(600)), ("15 minutes"@, FormValueView::UnsignedInt32(900)), ("30 minutes"@, FormValueView::UnsignedInt32(1800)), ("1 hour"@, FormValueView::UnsignedInt32(3600))]);
    }
    items.push(FormItem::new(
        FormItemKey::Simple("broadcast_smart_minimum_interval_secs"),
        "SP Minimum Interval",
        Some("The minimum number of seconds (since the last send) before we can send a position."),
        FormItemKind::Enum(choices_4),
        Formatter::SmartInterval,
        Validator::Any,
    ));
    items.push(FormItem::new(
        FormItemKey::Simple("broadcast_smart_minimum_distance"),
        "SP Minimum Distance",
        Some("The minimum distance in meters traveled (since the last send) before we can send a position."),
        FormItemKind::InputOfUnsignedInt32,
        Formatter::Suffix(" meters"),
        Validator::UnsignedRange { min: 0, max: 4294967295, message: "Must be between 0 and 4294967295" },
    ));
    items.push(FormItem::new(
        FormItemKey::Simple("fixed_position"),
        "Fixed Position",
        Some("If set, this node is at a fixed position."),
        FormItemKind::Switch,
        Formatter::Plain,
        Validator::Any,
    ));
    items.push(FormItem::new(
        FormItemKey::Simple("gps_mode"),
        "GPS Mode",
        Some("Set where GPS is enabled, disabled, or not present."),
        FormItemKind::Enum(proto_choices(ProtoEnum::GpsMode)),
        Formatter::ProtoName(ProtoEnum::GpsMode),
        Validator::Any,
    ));
    let choices_5 = vec![
            FormEnumVariant::new("Default", FormValue::UnsignedInt32(0)),
            FormEnumVariant::new("8 seconds", FormValue::UnsignedInt32(8)),
            FormEnumVariant::new("20 seconds", FormValue::UnsignedInt32(20)),
            FormEnumVariant::new("40 seconds", FormValue::UnsignedInt32(40)),
            FormEnumVariant::new("1 minute", FormValue::UnsignedInt32(60)),
            FormEnumVariant::new("80 seconds", FormValue::UnsignedInt32(80)),
            FormEnumVariant::new("2 minutes", FormValue::UnsignedInt32(120)),
            FormEnumVariant::new("5 minutes", FormValue::UnsignedInt32(300)),
            FormEnumVariant::new("10 minutes", FormValue::UnsignedInt32(600)),
            FormEnumVariant::new("15 minutes", FormValue::UnsignedInt32(900)),
            FormEnumVariant::new("30 minutes", FormValue::UnsignedInt32(1800)),
            FormEnumVariant::new("1 hour", FormValue::UnsignedInt32(3600)),
            FormEnumVariant::new("6 hours", FormValue::UnsignedInt32(6 * 3600)),
            FormEnumVariant::new("12 hours", FormValue::UnsignedInt32(12 * 3600)),
            FormEnumVariant::new("24 hours", FormValue::UnsignedInt32(24 * 3600)),
        ];
    proof {
        assert(choice_views(choices_5@) =~= seq![("Default"@, FormValueView::UnsignedInt32(0)), ("8 seconds"@, FormValueView::UnsignedInt32(8)), ("20 seconds"@, FormValueView::UnsignedInt32(20)), ("40 seconds"@, FormValueView::UnsignedInt32(40)), ("1 minute"@, FormValueView::UnsignedInt32(60)), ("80 seconds"@, FormValueView::UnsignedInt32(80)), ("2 minutes"@, FormValueView::UnsignedInt32(120)), ("5 minutes"@, FormValueView::UnsignedInt32(300)), ("10 minutes"@, FormValueView::UnsignedInt32(600)), ("15 minutes"@, FormValueView::UnsignedInt32(900)), ("30 minutes"@, FormValueView::UnsignedInt32(1800)), ("1 hour"@, FormValueView::UnsignedInt32(3600)), ("6 hours"@, FormValueView::UnsignedInt32(21600)), ("12 hours"@, FormValueView::UnsignedInt32(43200)), ("24 hours"@, FormValueView::UnsignedInt32(86400))]);
    }
    items.push(FormItem::new(
        FormItemKey::Simple("gps_update_interval"),
        "GPS Update Interval",
        Some("How often should we try to get GPS position (in seconds). Default once every 30 seconds."),
        FormItemKind::Enum(choices_5),
        Formatter::GpsInterval,
        Validator::Any,
    ));
    items.push(FormItem::new(
        FormItemKey::Simple("position_flags"),
        "Position Flags",
        Some("Bit field of boolean configuration options for POSITION messages."),
        FormItemKind::BitMask(position_flag_choices()),
        Formatter::Plain,
        Validator::UnsignedRange { min: 0, max: 4294967295, message: "Must be between 0 and 4294967295" },
    ));
    items.push(FormItem::new(
        FormItemKey::Simple("rx_gpio"),
        "GPS RX GPIO",
        Some("GPS_RX_PIN for your board."),
        FormItemKind::InputOfUnsignedInt32,
        Formatter::Plain,
        Validator::UnsignedRange { min: 0, max: 4294967295, message: "Must be between 0 and 4294967295" },
    ));
    items.push(FormItem::new(
        FormItemKey::Simple("tx_gpio"),
        "GPS TX GPIO",
        Some("GPS_TX_PIN for your board."),
        FormItemKind::InputOfUnsignedInt32,
        Formatter::Plain,
        Validator::UnsignedRange { min: 0, max: 4294967295, message: "Must be between 0 and 4294967295" },
    ));
    items.push(FormItem::new(
        FormItemKey::Simple("gps_en_gpio"),
        "GPS EN GPIO",
        Some("PIN_GPS_EN for your board."),
        FormItemKind::InputOfUnsignedInt32,
        Formatter::Plain,
        Validator::UnsignedRange { min: 0, max: 4294967295, message: "Must be between 0 and 4294967295" },
    ));
    proof {
        assert(items_view(items@) =~= spec_device_position_items());
    }
    items
}

fn device_power_items() -> (r: Vec<FormItem>)
    ensures
        items_view(r@) == spec_device_power_items(),
        r.len() == 7,
        forall|i: int| 0 <= i < r.len() ==> (#[trigger] r@[i]).wf(),
{
    let mut items: Vec<FormItem> = Vec::new();
    proof {
        lemma_float_bounds();
    }
    items.push(FormItem::new(
        FormItemKey::Simple("is_power_saving"),
        "Power Saving Mode",
        Some(
            "Will sleep everything as mush as possible, for the tracker ad sensor role this will also \
            include the Lora radio. Don't use this setting if you want to use your device with the phone \
            apps or are using a device without a power button.",
        ),
        FormItemKind::Switch,
        Formatter::Plain,
        Validator::Any,
    ));
    items.push(FormItem::new(
        FormItemKey::Simple("on_battery_shutdown_after_secs"),
        "Shutdown on Power Loss",
        Some("If non-zero, the device will fully power off this many seconds after external power is removed."),
        FormItemKind::InputOfUnsignedInt32,
        Formatter::SecsOr("Always On"),
        Validator::UnsignedRange { min: 0, max: 4294967295, message: "Must be between 0 and 4294967295" },
    ));
    items.push(FormItem::new(
        FormItemKey::Simple("adc_multiplier_override"),
        "ADC Multiplier Override",
        Some(
            "Ratio of voltage divider for battery pin eg. 3.20 (R1=100k, R2=220k). Overrides the \
            ADC_MULTIPLIER defined in variant for battery voltage calculation. 0 – disable override.",
        ),
        FormItemKind::InputOfFloat32,
        Formatter::MultiplierOrDisabled,
        Validator::FloatRange { min_bits: 0x4000_0000, max_bits: 0x40c0_0000, zero_allowed: true, message: "Must be between 2.0 and 6.0, or 0 for disable" },
    ));
    let choices_6 = vec![
            FormEnumVariant::new("Unset", FormValue::UnsignedInt32(0)),
            FormEnumVariant::new("1 second", FormValue::UnsignedInt32(1)),
            FormEnumVariant::new("5 seconds", FormValue::UnsignedInt32(5)),
            FormEnumVariant::new("10 seconds", FormValue::UnsignedInt32(10)),
            FormEnumVariant::new("15 seconds", FormValue::UnsignedInt32(15)),
            FormEnumVariant::new("30 seconds", FormValue::UnsignedInt32(30)),
            FormEnumVariant::new("1 minute", FormValue::UnsignedInt32(60)),
        ];
    proof {
        assert(choice_views(choices_6@) =~= seq![("Unset"@, FormValueView::UnsignedInt32(0)), ("1 second"@, FormValueView::UnsignedInt32(1)), ("5 seconds"@, FormValueView::UnsignedInt32(5)), ("10 seconds"@, FormValueView::UnsignedInt32(10)), ("15 seconds"@, FormValueView::UnsignedInt32(15)), ("30 seconds"@, FormValueView::UnsignedInt32(30)), ("1 minute"@, FormValueView::UnsignedInt32(60))]);
    }
    items.push(FormItem::new(
        FormItemKey::Simple("wait_bluetooth_secs"),
        "Wait for Bluetooth Timeout",
        Some("The number of seconds for to wait before turning off BLE in No Bluetooth states."),
        FormItemKind::Enum(choices_6),
        Formatter::Seconds,
        Validator::Any,
    ));
    items.push(FormItem::new(
        FormItemKey::Simple("sds_secs"),
        "Super Deep Sleep Duration",
        Some(
            "While in Light Sleep if mesh_sds_timeout_secs is exceeded we will lower into super deep sleep \
            for this value (default 1 year) or a button press. 0 for default of one year.",
        ),
        FormItemKind::InputOfUnsignedInt32,
        Formatter::SecsOr("Default"),
        Validator::UnsignedRange { min: 0, max: 4294967295, message: "Must be between 0 and 4294967295" },
    ));
    let choices_7 = vec![
            FormEnumVariant::new("Unset", FormValue::UnsignedInt32(0)),
            FormEnumVariant::new("1 second", FormValue::UnsignedInt32(1)),
            FormEnumVariant::new("5 seconds", FormValue::UnsignedInt32(5)),
            FormEnumVariant::new("10 seconds", FormValue::UnsignedInt32(10)),
            FormEnumVariant::new("15 seconds", FormValue::UnsignedInt32(15)),
            FormEnumVariant::new("30 seconds", FormValue::UnsignedInt32(30)),
            FormEnumVariant::new("1 minute", FormValue::UnsignedInt32(60)),
        ];
    proof {
        assert(choice_views(choices_7@) =~= seq![("Unset"@, FormValueView::UnsignedInt32(0)), ("1 second"@, FormValueView::UnsignedInt32(1)), ("5 seconds"@, FormValueView::UnsignedInt32(5)), ("10 seconds"@, FormValueView::UnsignedInt32(10)), ("15 seconds"@, FormValueView::UnsignedInt32(15)), ("30 seconds"@, FormValueView::UnsignedInt32(30)), ("1 minute"@, FormValueView::UnsignedInt32(60))]);
    }
    items.push(FormItem::new(
        FormItemKey::Simple("min_wake_secs"),
        "Minimum Wake Time",
        Some(
            "While in light sleep when we receive packets on the LoRa radio we will wake and handle them \
            and stay awake in no BLE mode for this value.",
        ),
        FormItemKind::Enum(choices_7),
        Formatter::Seconds,
        Validator::Any,
    ));
    items.push(FormItem::new(
        FormItemKey::Simple("device_battery_ina_address"),
        "Battery INA_2XX I2C Address",
        Some("I2C address of INA_2XX to use for reading device battery voltage."),
        FormItemKind::InputOfUnsignedInt32,
        Formatter::Plain,
        Validator::UnsignedRange { min: 0, max: 4294967295, message: "Must be between 0 and 4294967295" },
    ));
    proof {
        assert(items_view(items@) =~= spec_device_power_items());
    }
    items
}

fn device_display_items() -> (r: Vec<FormItem>)
    ensures
        items_view(r@) == spec_device_display_items(),
        r.len() == 10,
        forall|i: int| 0 <= i < r.len() ==> (#[trigger] r@[i]).wf(),
{
    let mut items: Vec<FormItem> = Vec::new();
    items.push(FormItem::new(
        FormItemKey::Simple("use_12h_clock"),
        "Use 12h Clock Format",
        Some("When enabled, the device will display the time in 12-hour format on screen."),
        FormItemKind::Switch,
        Formatter::Plain,
        Validator::Any,
    ));
    items.push(FormItem::new(
        FormItemKey::Simple("heading_bold"),
        "Bold Heading",
        Some("Bold the heading text on the screen."),
        FormItemKind::Switch,
        Formatter::Plain,
        Validator::Any,
    ));
    items.push(FormItem::new(
        FormItemKey::Simple("units"),
        "Display Units",
        None,
        FormItemKind::Enum(proto_choices(ProtoEnum::DisplayUnits)),
        Formatter::ProtoName(ProtoEnum::DisplayUnits),
        Validator::Any,
    ));
    let choices_8 = vec![
            FormEnumVariant::new("Always On", FormValue::UnsignedInt32(0)),
            FormEnumVariant::new("15 second", FormValue::UnsignedInt32(15)),
            FormEnumVariant::new("30 seconds", FormValue::UnsignedInt32(30)),
            FormEnumVariant::new("1 minute", FormValue::UnsignedInt32(60)),
            FormEnumVariant::new("5 minutes", FormValue::UnsignedInt32(5 * 60)),
            FormEnumVariant::new("10 minutes", FormValue::UnsignedInt32(10 * 60)),
            FormEnumVariant::new("15 minutes", FormValue::UnsignedInt32(15 * 60)),
            FormEnumVariant::new("30 minutes", FormValue::UnsignedInt32(30 * 60)),
            FormEnumVariant::new("1 hour", FormValue::UnsignedInt32(60 * 60)),
        ];
    proof {
        assert(choice_views(choices_8@) =~= seq![("Always On"@, FormValueView::UnsignedInt32(0)), ("15 second"@, FormValueView::UnsignedInt32(15)), ("30 seconds"@, FormValueView::UnsignedInt32(30)), ("1 minute"@, FormValueView::UnsignedInt32(60)), ("5 minutes"@, FormValueView::UnsignedInt32(300)), ("10 minutes"@, FormValueView::UnsignedInt32(600)), ("15 minutes"@, FormValueView::UnsignedInt32(900)), ("30 minutes"@, FormValueView::UnsignedInt32(1800)), ("1 hour"@, FormValueView::UnsignedInt32(3600))]);
    }
    items.push(FormItem::new(
        FormItemKey::Simple("screen_on_secs"),
        "Screen On For",
        Some("Number of seconds the screen stays on after pressing the user button or receiving a message."),
        FormItemKind::Enum(choices_8),
        Formatter::Minutes { zero: "Always On", hour: true },
        Validator::Any,
    ));
    let choices_9 = vec![
            FormEnumVariant::new("Unset", FormValue::UnsignedInt32(0)),
            FormEnumVariant::new("15 second", FormValue::UnsignedInt32(15)),
            FormEnumVariant::new("30 seconds", FormValue::UnsignedInt32(30)),
            FormEnumVariant::new("1 minute", FormValue::UnsignedInt32(60)),
            FormEnumVariant::new("5 minutes", FormValue::UnsignedInt32(5 * 60)),
            FormEnumVariant::new("10 minutes", FormValue::UnsignedInt32(10 * 60)),
            FormEnumVariant::new("15 minutes", FormValue::UnsignedInt32(15 * 60)),
        ];
    proof {
        assert(choice_views(choices_9@) =~= seq![("Unset"@, FormValueView::UnsignedInt32(0)), ("15 second"@, FormValueView::UnsignedInt32(15)), ("30 seconds"@, FormValueView::UnsignedInt32(30)), ("1 minute"@, FormValueView::UnsignedInt32(60)), ("5 minutes"@, FormValueView::UnsignedInt32(300)), ("10 minutes"@, FormValueView::UnsignedInt32(600)), ("15 minutes"@, FormValueView::UnsignedInt32(900))]);
    }
    items.push(FormItem::new(
        FormItemKey::Simple("auto_screen_carousel_secs"),
        "Carousel Interval",
        Some(
            "Automatically toggles to the next page on the screen like a carousel, based the specified \
            interval in seconds.",
        ),
        FormItemKind::Enum(choices_9),
        Formatter::Minutes { zero: "Unset", hour: false },
        Validator::Any,
    ));
    items.push(FormItem::new(
        FormItemKey::Simple("wake_on_tap_or_motion"),
        "Wake On Tap or Motion",
        Some("Requires that there be an accelerometer on your device."),
        FormItemKind::Switch,
        Formatter::Plain,
        Validator::Any,
    ));
    items.push(FormItem::new(
        FormItemKey::Simple("flip_screen"),
        "Flip Screen",
        Some("Flip screen vertically."),
        FormItemKind::Switch,
        Formatter::Plain,
        Validator::Any,
    ));
    items.push(FormItem::new(
        FormItemKey::Simple("displaymode"),
        "Display Mode",
        None,
        FormItemKind::Enum(proto_choices(ProtoEnum::DisplayMode)),
        Formatter::ProtoName(ProtoEnum::DisplayMode),
        Validator::Any,
    ));
    items.push(FormItem::new(
        FormItemKey::Simple("oled"),
        "OLED Type",
        None,
        FormItemKind::Enum(proto_choices(ProtoEnum::OledType)),
        Formatter::ProtoName(ProtoEnum::OledType),
        Validator::Any,
    ));
    items.push(FormItem::new(
        FormItemKey::Simple("compass_orientation"),
        "Compass Orientation",
        None,
        FormItemKind::Enum(proto_choices(ProtoEnum::CompassOrientation)),
        Formatter::ProtoName(ProtoEnum::CompassOrientation),
        Validator::Any,
    ));
    proof {
        assert(items_view(items@) =~= spec_device_display_items());
    }
    items
}

fn device_bluetooth_items() -> (r: Vec<FormItem>)
    ensures
        items_view(r@) == spec_device_bluetooth_items(),
        r.len() == 3,
        forall|i: int| 0 <= i < r.len() ==> (#[trigger] r@[i]).wf(),
{
    let mut items: Vec<FormItem> = Vec::new();
    items.push(FormItem::new(
        FormItemKey::Simple("enabled"),
        "Bluetooth Enabled",
        None,
        FormItemKind::Switch,
        Formatter::Plain,
        Validator::Any,
    ));
    items.push(FormItem::new(
        FormItemKey::Simple("mode"),
        "Pairing Mode",
        None,
        FormItemKind::Enum(proto_choices(ProtoEnum::PairingMode)),
        Formatter::ProtoName(ProtoEnum::PairingMode),
        Validator::Any,
    ));
    items.push(FormItem::new(
        FormItemKey::Simple("fixed_pin"),
        "Fixed PIN",
        Some("6-digit PIN code."),
        FormItemKind::InputOfUnsignedInt32,
        Formatter::Plain,
        Validator::UnsignedRange { min: 100000, max: 999999, message: "Invalid PIN" },
    ));
    proof {
        assert(items_view(items@) =~= spec_device_bluetooth_items());
    }
    items
}

fn device_network_items() -> (r: Vec<FormItem>)
    ensures
        items_view(r@) == spec_device_network_items(),
        r.len() == 7,
        forall|i: int| 0 <= i < r.len() ==> (#[trigger] r@[i]).wf(),
{
    let mut items: Vec<FormItem> = Vec::new();
    items.push(FormItem::new(
        FormItemKey::Simple("wifi_enabled"),
        "WiFi Enabled",
        Some("Enabling WiFi disables Bluetooth."),
        FormItemKind::Switch,
        Formatter::Plain,
        Validator::Any,
    ));
    items.push(FormItem::new(
        FormItemKey::Simple("wifi_ssid"),
        "WiFi SSID",
        Some("The WiFi network the node joins."),
        FormItemKind::InputOfString,
        Formatter::Plain,
        Validator::TextLength { min: 0, max: 32, message: "Max length is 32" },
    ));
    items.push(FormItem::new(
        FormItemKey::Simple("wifi_psk"),
        "WiFi Password",
        Some("The password of the WiFi network."),
        FormItemKind::InputOfString,
        Formatter::Plain,
        Validator::TextLength { min: 0, max: 64, message: "Max length is 64" },
    ));
    items.push(FormItem::new(
        FormItemKey::Simple("ntp_server"),
        "NTP Server",
        Some("Used while WiFi is connected; meshtastic.pool.ntp.org when empty."),
        FormItemKind::InputOfString,
        Formatter::Plain,
        Validator::TextLength { min: 0, max: 32, message: "Max length is 32" },
    ));
    items.push(FormItem::new(
        FormItemKey::Simple("eth_enabled"),
        "Ethernet Enabled",
        None,
        FormItemKind::Switch,
        Formatter::Plain,
        Validator::Any,
    ));
    items.push(FormItem::new(
        FormItemKey::Simple("rsyslog_server"),
        "Rsyslog Server",
        Some("Host and port of the rsyslog server."),
        FormItemKind::InputOfString,
        Formatter::Plain,
        Validator::TextLength { min: 0, max: 32, message: "Max length is 32" },
    ));
    items.push(FormItem::new(
        FormItemKey::Simple("ipv6_enabled"),
        "IPv6 Enabled",
        None,
        FormItemKind::Switch,
        Formatter::Plain,
        Validator::Any,
    ));
    proof {
        assert(items_view(items@) =~= spec_device_network_items());
    }
    items
}

fn module_mqtt_items() -> (r: Vec<FormItem>)
    ensures
        items_view(r@) == spec_module_mqtt_items(),
        r.len() == 13,
        forall|i: int| 0 <= i < r.len() ==> (#[trigger] r@[i]).wf(),
{
    let mut items: Vec<FormItem> = Vec::new();
    items.push(FormItem::new(
        FormItemKey::Simple("enabled"),
        "MQTT Enabled",
        None,
        FormItemKind::Switch,
        Formatter::Plain,
        Validator::Any,
    ));
    items.push(FormItem::new(
        FormItemKey::Simple("address"),
        "Address",
        Some("The server to use for our MQTT global message gateway feature."),
        FormItemKind::InputOfString,
        Formatter::Plain,
        Validator::HostAddress,
    ));
    items.push(FormItem::new(
        FormItemKey::Simple("username"),
        "Username",
        None,
        FormItemKind::InputOfString,
        Formatter::Plain,
        Validator::Any,
    ));
    items.push(FormItem::new(
        FormItemKey::Simple("password"),
        "Password",
        None,
        FormItemKind::InputOfString,
        Formatter::Plain,
        Validator::Any,
    ));
    items.push(FormItem::new(
        FormItemKey::Simple("encryption_enabled"),
        "Encryption Enabled",
        Some("Whether to send encrypted or decrypted packets to MQTT."),
        FormItemKind::Switch,
        Formatter::Plain,
        Validator::Any,
    ));
    items.push(FormItem::new(
        FormItemKey::Simple("json_enabled"),
        "JSON Output Enabled",
        Some("Whether to send / consume json packets on MQTT."),
        FormItemKind::Switch,
        Formatter::Plain,
        Validator::Any,
    ));
    items.push(FormItem::new(
        FormItemKey::Simple("tls_enabled"),
        "TLS Enabled",
        Some("If true, we attempt to establish a secure connection using TLS."),
        FormItemKind::Switch,
        Formatter::Plain,
        Validator::Any,
    ));
    items.push(FormItem::new(
        FormItemKey::Simple("root"),
        "Root Topic",
        Some("The root topic to use for MQTT messages. Default is \"msh\"."),
        FormItemKind::InputOfString,
        Formatter::Plain,
        Validator::Any,
    ));
    items.push(FormItem::new(
        FormItemKey::Simple("proxy_to_client_enabled"),
        "Proxy to Client Enabled",
        Some(
            "If true, we can use the connected phone / client to proxy messages to MQTT instead of \
            a direct connection.",
        ),
        FormItemKind::Switch,
        Formatter::Plain,
        Validator::Any,
    ));
    items.push(FormItem::new(
        FormItemKey::Simple("map_reporting_enabled"),
        "Map Reporting Enabled",
        Some("If true, we will periodically report unencrypted information about our node to a map via MQTT."),
        FormItemKind::Switch,
        Formatter::Plain,
        Validator::Any,
    ));
    items.push(FormItem::new(
        map_report_key("should_report_location", FormValue::Bool(false)),
        "I Agree To Report My Location *",
        Some(
            "I voluntary consent to the unencrypted transmission of my node data via MQTT. \
            (*) The field only makes sense if \"Map Reporting Enabled\" field is set to true.",
        ),
        FormItemKind::Switch,
        Formatter::Plain,
        Validator::Any,
    ));
    items.push(FormItem::new(
        map_report_key("position_precision", FormValue::UnsignedInt32(1)),
        "Position Precision *",
        Some(
            "0 – location is never sent, 32 – full precision. \
            (*) The field only makes sense if \"Map Reporting Enabled\" field is set to true",
        ),
        FormItemKind::InputOfUnsignedInt32,
        Formatter::Plain,
        Validator::UnsignedRange { min: 0, max: 32, message: "Must be between 0 and 32" },
    ));
    let choices_10 = vec![
            FormEnumVariant::new("1 hour", FormValue::UnsignedInt32(1 * 3600)),
            FormEnumVariant::new("2 hours", FormValue::UnsignedInt32(2 * 3600)),
            FormEnumVariant::new("3 hours", FormValue::UnsignedInt32(3 * 3600)),
            FormEnumVariant::new("4 hours", FormValue::UnsignedInt32(4 * 3600)),
            FormEnumVariant::new("5 hours", FormValue::UnsignedInt32(5 * 3600)),
            FormEnumVariant::new("6 hours", FormValue::UnsignedInt32(6 * 3600)),
            FormEnumVariant::new("12 hours", FormValue::UnsignedInt32(12 * 3600)),
            FormEnumVariant::new("18 hours", FormValue::UnsignedInt32(18 * 3600)),
            FormEnumVariant::new("24 hours", FormValue::UnsignedInt32(24 * 3600)),
            FormEnumVariant::new("36 hours", FormValue::UnsignedInt32(36 * 3600)),
            FormEnumVariant::new("48 hours", FormValue::UnsignedInt32(48 * 3600)),
            FormEnumVariant::new("72 hours", FormValue::UnsignedInt32(72 * 3600)),
        ];
    proof {
        assert(choice_views(choices_10@) =~= seq![("1 hour"@, FormValueView::UnsignedInt32(3600)), ("2 hours"@, FormValueView::UnsignedInt32(7200)), ("3 hours"@, FormValueView::UnsignedInt32(10800)), ("4 hours"@, FormValueView::UnsignedInt32(14400)), ("5 hours"@, FormValueView::UnsignedInt32(18000)), ("6 hours"@, FormValueView::UnsignedInt32(21600)), ("12 hours"@, FormValueView::UnsignedInt32(43200)), ("18 hours"@, FormValueView::UnsignedInt32(64800)), ("24 hours"@, FormValueView::UnsignedInt32(86400)), ("36 hours"@, FormValueView::UnsignedInt32(129600)), ("48 hours"@, FormValueView::UnsignedInt32(172800)), ("72 hours"@, FormValueView::UnsignedInt32(259200))]);
    }
    items.push(FormItem::new(
        map_report_key("publish_interval_secs", FormValue::UnsignedInt32(3600)),
        "Reporting Interval *",
        Some("(*) The field only makes sense if \"Map Reporting Enabled\" field is set to true."),
        FormItemKind::Enum(choices_10),
        Formatter::ReportInterval,
        Validator::Any,
    ));
    proof {
        assert(items_view(items@) =~= spec_module_mqtt_items());
    }
    items
}

fn module_serial_items() -> (r: Vec<FormItem>)
    ensures
        items_view(r@) == spec_module_serial_items(),
        r.len() == 8,
        forall|i: int| 0 <= i < r.len() ==> (#[trigger] r@[i]).wf(),
{
    let mut items: Vec<FormItem> = Vec::new();
    items.push(FormItem::new(
        FormItemKey::Simple("enabled"),
        "Serial Enabled",
        None,
        FormItemKind::Switch,
        Formatter::Plain,
        Validator::Any,
    ));
    items.push(FormItem::new(
        FormItemKey::Simple("echo"),
        "Echo Enabled",
        None,
        FormItemKind::Switch,
        Formatter::Plain,
        Validator::Any,
    ));
    items.push(FormItem::new(
        FormItemKey::Simple("rxd"),
        "RX GPIO",
        None,
        FormItemKind::InputOfUnsignedInt32,
        Formatter::Plain,
        Validator::UnsignedRange { min: 0, max: 4294967295, message: "Must be between 0 and 4294967295" },
    ));
    items.push(FormItem::new(
        FormItemKey::Simple("txd"),
        "TX GPIO",
        None,
        FormItemKind::InputOfUnsignedInt32,
        Formatter::Plain,
        Validator::UnsignedRange { min: 0, max: 4294967295, message: "Must be between 0 and 4294967295" },
    ));
    items.push(FormItem::new(
        FormItemKey::Simple("baud"),
        "Baud Rate",
        None,
        FormItemKind::Enum(proto_choices(ProtoEnum::SerialBaud)),
        Formatter::ProtoName(ProtoEnum::SerialBaud),
        Validator::Any,
    ));
    items.push(FormItem::new(
        FormItemKey::Simple("timeout"),
        "Timeout",
        None,
        FormItemKind::InputOfUnsignedInt32,
        Formatter::Plain,
        Validator::UnsignedRange { min: 0, max: 4294967295, message: "Must be between 0 and 4294967295" },
    ));
    items.push(FormItem::new(
        FormItemKey::Simple("mode"),
        "Mode",
        None,
        FormItemKind::Enum(proto_choices(ProtoEnum::SerialMode)),
        Formatter::ProtoName(ProtoEnum::SerialMode),
        Validator::Any,
    ));
    items.push(FormItem::new(
        FormItemKey::Simple("override_console_serial_port"),
        "Override Console Serial Port",
        Some("Overrides the platform's defacto Serial port instance to use with Serial module config settings"),
        FormItemKind::Switch,
        Formatter::Plain,
        Validator::Any,
    ));
    proof {
        assert(items_view(items@) =~= spec_module_serial_items());
    }
    items
}

fn module_external_notification_items() -> (r: Vec<FormItem>)
    ensures
        items_view(r@) == spec_module_external_notification_items(),
        r.len() == 13,
        forall|i: int| 0 <= i < r.len() ==> (#[trigger] r@[i]).wf(),
{
    let mut items: Vec<FormItem> = Vec::new();
    items.push(FormItem::new(
        FormItemKey::Simple("enabled"),
        "External Notification Enabled",
        None,
        FormItemKind::Switch,
        Formatter::Plain,
        Validator::Any,
    ));
    items.push(FormItem::new(
        FormItemKey::Simple("alert_message"),
        "Alert Message LED",
        None,
        FormItemKind::Switch,
        Formatter::Plain,
        Validator::Any,
    ));
    items.push(FormItem::new(
        FormItemKey::Simple("alert_message_buzzer"),
        "Alert Message Buzzer",
        None,
        FormItemKind::Switch,
        Formatter::Plain,
        Validator::Any,
    ));
    items.push(FormItem::new(
        FormItemKey::Simple("alert_message_vibra"),
        "Alert Message Vibra",
        None,
        FormItemKind::Switch,
        Formatter::Plain,
        Validator::Any,
    ));
    items.push(FormItem::new(
        FormItemKey::Simple("alert_bell"),
        "Alert Bell LED",
        None,
        FormItemKind::Switch,
        Formatter::Plain,
        Validator::Any,
    ));
    items.push(FormItem::new(
        FormItemKey::Simple("alert_bell_buzzer"),
        "Alert Bell Buzzer",
        None,
        FormItemKind::Switch,
        Formatter::Plain,
        Validator::Any,
    ));
    items.push(FormItem::new(
        FormItemKey::Simple("alert_bell_vibra"),
        "Alert Bell Vibra",
        None,
        FormItemKind::Switch,
        Formatter::Plain,
        Validator::Any,
    ));
    items.push(FormItem::new(
        FormItemKey::Simple("output"),
        "Output LED GPIO",
        None,
        FormItemKind::InputOfUnsignedInt32,
        Formatter::Plain,
        Validator::UnsignedRange { min: 0, max: 48, message: "Must be between 0 and 48" },
    ));
    items.push(FormItem::new(
        FormItemKey::Simple("output_buzzer"),
        "Output Buzzer GPIO",
        None,
        FormItemKind::InputOfUnsignedInt32,
        Formatter::Plain,
        Validator::UnsignedRange { min: 0, max: 48, message: "Must be between 0 and 48" },
    ));
    items.push(FormItem::new(
        FormItemKey::Simple("output_vibra"),
        "Output Vibra GPIO",
        None,
        FormItemKind::InputOfUnsignedInt32,
        Formatter::Plain,
        Validator::UnsignedRange { min: 0, max: 48, message: "Must be between 0 and 48" },
    ));
    let choices_11 = vec![
            FormEnumVariant::new("Unset", FormValue::UnsignedInt32(0)),
            FormEnumVariant::new("1 second", FormValue::UnsignedInt32(1000)),
            FormEnumVariant::new("2 seconds", FormValue::UnsignedInt32(2000)),
            FormEnumVariant::new("3 seconds", FormValue::UnsignedInt32(3000)),
            FormEnumVariant::new("4 seconds", FormValue::UnsignedInt32(4000)),
            FormEnumVariant::new("5 seconds", FormValue::UnsignedInt32(5000)),
            FormEnumVariant::new("10 seconds", FormValue::UnsignedInt32(10000)),
        ];
    proof {
        assert(choice_views(choices_11@) =~= seq![("Unset"@, FormValueView::UnsignedInt32(0)), ("1 second"@, FormValueView::UnsignedInt32(1000)), ("2 seconds"@, FormValueView::UnsignedInt32(2000)), ("3 seconds"@, FormValueView::UnsignedInt32(3000)), ("4 seconds"@, FormValueView::UnsignedInt32(4000)), ("5 seconds"@, FormValueView::UnsignedInt32(5000)), ("10 seconds"@, FormValueView::UnsignedInt32(10000))]);
    }
    items.push(FormItem::new(
        FormItemKey::Simple("output_ms"),
        "Output Duration",
        Some(
            "When using in On/Off mode, keep the output on for this many milliseconds. \
            Default 1000ms (1 second).",
        ),
        FormItemKind::Enum(choices_11),
        Formatter::Milliseconds,
        Validator::Any,
    ));
    let choices_12 = vec![
            FormEnumVariant::new("Unset", FormValue::UnsignedInt32(0)),
            FormEnumVariant::new("1 second", FormValue::UnsignedInt32(1)),
            FormEnumVariant::new("5 seconds", FormValue::UnsignedInt32(5)),
            FormEnumVariant::new("10 seconds", FormValue::UnsignedInt32(10)),
            FormEnumVariant::new("15 seconds", FormValue::UnsignedInt32(15)),
            FormEnumVariant::new("30 seconds", FormValue::UnsignedInt32(30)),
            FormEnumVariant::new("1 minute", FormValue::UnsignedInt32(60)),
        ];
    proof {
        assert(choice_views(choices_12@) =~= seq![("Unset"@, FormValueView::UnsignedInt32(0)), ("1 second"@, FormValueView::UnsignedInt32(1)), ("5 seconds"@, FormValueView::UnsignedInt32(5)), ("10 seconds"@, FormValueView::UnsignedInt32(10)), ("15 seconds"@, FormValueView::UnsignedInt32(15)), ("30 seconds"@, FormValueView::UnsignedInt32(30)), ("1 minute"@, FormValueView::UnsignedInt32(60))]);
    }
    items.push(FormItem::new(
        FormItemKey::Simple("nag_timeout"),
        "Nag Timeout",
        Some(
            "The notification will toggle with 'output_ms' for this time of seconds. \
            Default is 0 which means don't repeat at all. 60 would mean blink and/or \
            beep for 60 seconds",
        ),
        FormItemKind::Enum(choices_12),
        Formatter::Seconds,
        Validator::Any,
    ));
    items.push(FormItem::new(
        FormItemKey::Simple("use_i2s_as_buzzer"),
        "Use I2C as Buzzer",
        Some(
            "When true, enables devices with native I2S audio output to use the RTTTL \
            over speaker like a buzzer T-Watch S3 and T-Deck for example have this capability",
        ),
        FormItemKind::Switch,
        Formatter::Plain,
        Validator::Any,
    ));
    proof {
        assert(items_view(items@) =~= spec_module_external_notification_items());
    }
    items
}

fn module_store_and_forward_items() -> (r: Vec<FormItem>)
    ensures
        items_view(r@) == spec_module_store_and_forward_items(),
        r.len() == 6,
        forall|i: int| 0 <= i < r.len() ==> (#[trigger] r@[i]).wf(),
{
    let mut items: Vec<FormItem> = Vec::new();
    items.push(FormItem::new(
        FormItemKey::Simple("enabled"),
        "Store & Forward Enabled",
        None,
        FormItemKind::Switch,
        Formatter::Plain,
        Validator::Any,
    ));
    items.push(FormItem::new(
        FormItemKey::Simple("heartbeat"),
        "Heartbeat",
        None,
        FormItemKind::Switch,
        Formatter::Plain,
        Validator::Any,
    ));
    items.push(FormItem::new(
        FormItemKey::Simple("records"),
        "Number of Records",
        None,
        FormItemKind::InputOfUnsignedInt32,
        Formatter::Plain,
        Validator::UnsignedRange { min: 0, max: 4294967295, message: "Must be between 0 and 4294967295" },
    ));
    items.push(FormItem::new(
        FormItemKey::Simple("history_return_max"),
        "History Return Max",
        None,
        FormItemKind::InputOfUnsignedInt32,
        Formatter::Plain,
        Validator::UnsignedRange { min: 0, max: 4294967295, message: "Must be between 0 and 4294967295" },
    ));
    items.push(FormItem::new(
        FormItemKey::Simple("history_return_window"),
        "History Return Window",
        None,
        FormItemKind::InputOfUnsignedInt32,
        Formatter::Plain,
        Validator::UnsignedRange { min: 0, max: 4294967295, message: "Must be between 0 and 4294967295" },
    ));
    items.push(FormItem::new(
        FormItemKey::Simple("is_server"),
        "Server",
        None,
        FormItemKind::Switch,
        Formatter::Plain,
        Validator::Any,
    ));
    proof {
        assert(items_view(items@) =~= spec_module_store_and_forward_items());
    }
    items
}

fn module_range_test_items() -> (r: Vec<FormItem>)
    ensures
        items_view(r@) == spec_module_range_test_items(),
        r.len() == 3,
        forall|i: int| 0 <= i < r.len() ==> (#[trigger] r@[i]).wf(),
{
    let mut items: Vec<FormItem> = Vec::new();
    items.push(FormItem::new(
        FormItemKey::Simple("enabled"),
        "Range Test Enabled",
        None,
        FormItemKind::Switch,
        Formatter::Plain,
        Validator::Any,
    ));
    let choices_13 = vec![
            FormEnumVariant::new("Off", FormValue::UnsignedInt32(0)),
            FormEnumVariant::new("15 second", FormValue::UnsignedInt32(15)),
            FormEnumVariant::new("30 seconds", FormValue::UnsignedInt32(30)),
            FormEnumVariant::new("1 minute", FormValue::UnsignedInt32(60)),
            FormEnumVariant::new("5 minutes", FormValue::UnsignedInt32(5 * 60)),
            FormEnumVariant::new("10 minutes", FormValue::UnsignedInt32(10 * 60)),
            FormEnumVariant::new("15 minutes", FormValue::UnsignedInt32(15 * 60)),
            FormEnumVariant::new("30 minutes", FormValue::UnsignedInt32(30 * 60)),
            FormEnumVariant::new("1 hour", FormValue::UnsignedInt32(60 * 60)),
        ];
    proof {
        assert(choice_views(choices_13@) =~= seq![("Off"@, FormValueView::UnsignedInt32(0)), ("15 second"@, FormValueView::UnsignedInt32(15)), ("30 seconds"@, FormValueView::UnsignedInt32(30)), ("1 minute"@, FormValueView::UnsignedInt32(60)), ("5 minutes"@, FormValueView::UnsignedInt32(300)), ("10 minutes"@, FormValueView::UnsignedInt32(600)), ("15 minutes"@, FormValueView::UnsignedInt32(900)), ("30 minutes"@, FormValueView::UnsignedInt32(1800)), ("1 hour"@, FormValueView::UnsignedInt32(3600))]);
    }
    items.push(FormItem::new(
        FormItemKey::Simple("sender"),
        "Sender Message Interval",
        Some(
            "How long to wait between sending sequential test packets. \
            0 is default which disables sending messages.",
        ),
        FormItemKind::Enum(choices_13),
        Formatter::Minutes { zero: "Off", hour: true },
        Validator::Any,
    ));
    items.push(FormItem::new(
        FormItemKey::Simple("save"),
        "Save .CSV in storage",
        Some("ESP32 only"),
        FormItemKind::Switch,
        Formatter::Plain,
        Validator::Any,
    ));
    proof {
        assert(items_view(items@) =~= spec_module_range_test_items());
    }
    items
}

} // verus!
