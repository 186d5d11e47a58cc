//! Turning a configuration record into settings form data. The record comes
//! in the shape of serde's data model: structs of named fields, sequences,
//! options and plain values.
use vstd::prelude::*;
use crate::formdata::{insert_entry, values_view, FormData, FormValue, FormValueView};
use crate::text::{push_char, push_decimal, push_signed_decimal, signed_decimal, decimal_digits};

verus! {

/// A value in serde's data model, as a `Serialize` implementation hands it
/// out. Floating point numbers carry the bits of their encoding and the text
/// that `Display` gives for them.
#[derive(Debug)]
pub enum Serialized {
    Bool(bool),
    I8(i8),
    I16(i16),
    I32(i32),
    I64(i64),
    U8(u8),
    U16(u16),
    U32(u32),
    U64(u64),
    F32 { bits: u32, text: String },
    F64 { text: String },
    Char(char),
    Str(String),
    Bytes(Vec<u8>),
    Nothing,
    Present(Box<Serialized>),
    Unit,
    UnitStruct,
    UnitVariant(String),
    NewtypeStruct(Box<Serialized>),
    NewtypeVariant(Box<Serialized>),
    Sequence(Vec<Serialized>),
    Tuple(Vec<Serialized>),
    TupleStruct(Vec<Serialized>),
    TupleVariant(Vec<Serialized>),
    Mapping(Vec<(Serialized, Serialized)>),
    Struct(Vec<(String, Serialized)>),
    StructVariant(Vec<(String, Serialized)>),
}

/// Why a record could not be turned into form data.
#[derive(Debug)]
pub enum FormDataSerializerError {
    /// an error raised by the record's own serialization code
    Serde(String),
    /// a kind of value that form data cannot hold at that place
    UnsupportedType(&'static str),
}

/// The error a failed conversion ends with, as a plain value.
pub enum ErrorView {
    Serde(Seq<char>),
    UnsupportedType(&'static str),
}

impl FormDataSerializerError {
    pub open spec fn view_err(self) -> ErrorView {
        match self {
            FormDataSerializerError::Serde(s) => ErrorView::Serde(s@),
            FormDataSerializerError::UnsupportedType(t) => ErrorView::UnsupportedType(t),
        }
    }
}

impl Serialized {
    /// The name serde's data model gives the kind of this value.
    pub open spec fn kind_name(self) -> &'static str {
        match self {
            Serialized::Bool(_) => "bool",
            Serialized::I8(_) => "i8",
            Serialized::I16(_) => "i16",
            Serialized::I32(_) => "i32",
            Serialized::I64(_) => "i64",
            Serialized::U8(_) => "u8",
            Serialized::U16(_) => "u16",
            Serialized::U32(_) => "u32",
            Serialized::U64(_) => "u64",
            Serialized::F32 { .. } => "f32",
            Serialized::F64 { .. } => "f64",
            Serialized::Char(_) => "char",
            Serialized::Str(_) => "str",
            Serialized::Bytes(_) => "bytes",
            Serialized::Nothing => "none",
            Serialized::Present(_) => "some",
            Serialized::Unit => "unit",
            Serialized::UnitStruct => "unit_struct",
            Serialized::UnitVariant(_) => "unit_variant",
            Serialized::NewtypeStruct(_) => "newtype_struct",
            Serialized::NewtypeVariant(_) => "newtype_variant",
            Serialized::Sequence(_) => "seq",
            Serialized::Tuple(_) => "tuple",
            Serialized::TupleStruct(_) => "tuple_struct",
            Serialized::TupleVariant(_) => "tuple_variant",
            Serialized::Mapping(_) => "map",
            Serialized::Struct(_) => "struct",
            Serialized::StructVariant(_) => "struct_variant",
        }
    }

    /// The name serde's data model gives the kind of this value.
    pub fn kind(&self) -> (r: &'static str)
        ensures
            r == self.kind_name(),
    {
        match self {
            Serialized::Bool(_) => "bool",
            Serialized::I8(_) => "i8",
            Serialized::I16(_) => "i16",
            Serialized::I32(_) => "i32",
            Serialized::I64(_) => "i64",
            Serialized::U8(_) => "u8",
            Serialized::U16(_) => "u16",
            Serialized::U32(_) => "u32",
            Serialized::U64(_) => "u64",
            Serialized::F32 { .. } => "f32",
            Serialized::F64 { .. } => "f64",
            Serialized::Char(_) => "char",
            Serialized::Str(_) => "str",
            Serialized::Bytes(_) => "bytes",
            Serialized::Nothing => "none",
            Serialized::Present(_) => "some",
            Serialized::Unit => "unit",
            Serialized::UnitStruct => "unit_struct",
            Serialized::UnitVariant(_) => "unit_variant",
            Serialized::NewtypeStruct(_) => "newtype_struct",
            Serialized::NewtypeVariant(_) => "newtype_variant",
            Serialized::Sequence(_) => "seq",
            Serialized::Tuple(_) => "tuple",
            Serialized::TupleStruct(_) => "tuple_struct",
            Serialized::TupleVariant(_) => "tuple_variant",
            Serialized::Mapping(_) => "map",
            Serialized::Struct(_) => "struct",
            Serialized::StructVariant(_) => "struct_variant",
        }
    }
}

/// Whether a value can stand as a struct field or map value: every value
/// placed under a name that is a unit struct cannot (that case is left
/// unimplemented), wherever it is nested.
pub open spec fn field_ok(v: Serialized) -> bool
    decreases v,
{
    match v {
        Serialized::UnitStruct => false,
        Serialized::Present(b) => field_ok(*b),
        Serialized::Struct(fs) => fields_ok(fs@),
        _ => true,
    }
}

/// Whether every field value of `fs` can stand as a field.
pub open spec fn fields_ok(fs: Seq<(String, Serialized)>) -> bool
    decreases fs,
{
    fs.len() == 0 || (field_ok(fs[0].1) && fields_ok(fs.drop_first()))
}

/// Whether every value of the map entries `es` can stand as a field.
pub open spec fn map_values_ok(es: Seq<(Serialized, Serialized)>) -> bool
    decreases es,
{
    es.len() == 0 || (field_ok(es[0].1) && map_values_ok(es.drop_first()))
}

/// The value stored under a name for the field value `v`, or the error.
pub open spec fn spec_field_value(v: Serialized) -> Result<FormValueView, ErrorView>
    decreases v, 0int,
{
    match v {
        Serialized::Bool(x) => Ok(FormValueView::Bool(x)),
        Serialized::I32(x) => Ok(FormValueView::Int32(x)),
        Serialized::U8(x) => Ok(FormValueView::UnsignedInt8(x)),
        Serialized::U32(x) => Ok(FormValueView::UnsignedInt32(x)),
        Serialized::U64(x) => Ok(FormValueView::UnsignedInt64(x)),
        Serialized::F32 { bits, .. } => Ok(FormValueView::Float32(bits)),
        Serialized::Str(s) => Ok(FormValueView::String(s@)),
        Serialized::Nothing => Ok(FormValueView::Option(None)),
        Serialized::Present(b) => match spec_field_value(*b) {
            Ok(x) => Ok(FormValueView::Option(Some(Box::new(x)))),
            Err(e) => Err(e),
        },
        Serialized::UnitVariant(name) => Ok(FormValueView::String(name@)),
        Serialized::Sequence(xs) => match spec_elements(xs@) {
            Ok(ys) => Ok(FormValueView::Vec(ys)),
            Err(e) => Err(e),
        },
        Serialized::Struct(fs) => match spec_fields(Seq::empty(), fs@) {
            Ok(es) => Ok(FormValueView::Nested(es)),
            Err(e) => Err(e),
        },
        _ => Err(ErrorView::UnsupportedType(v.kind_name())),
    }
}

/// The element a sequence element `v` becomes, or the error.
pub open spec fn spec_element_value(v: Serialized) -> Result<FormValueView, ErrorView>
    decreases v, 0int,
{
    match v {
        Serialized::Bool(x) => Ok(FormValueView::Bool(x)),
        Serialized::I32(x) => Ok(FormValueView::Int32(x)),
        Serialized::U8(x) => Ok(FormValueView::UnsignedInt8(x)),
        Serialized::U32(x) => Ok(FormValueView::UnsignedInt32(x)),
        Serialized::U64(x) => Ok(FormValueView::UnsignedInt64(x)),
        Serialized::F32 { bits, .. } => Ok(FormValueView::Float32(bits)),
        Serialized::Str(s) => Ok(FormValueView::String(s@)),
        Serialized::UnitVariant(name) => Ok(FormValueView::String(name@)),
        Serialized::Sequence(xs) => match spec_elements(xs@) {
            Ok(ys) => Ok(FormValueView::Vec(ys)),
            Err(e) => Err(e),
        },
        _ => Err(ErrorView::UnsupportedType(v.kind_name())),
    }
}

/// The elements a sequence becomes, or the error of the first element
/// that fails.
pub open spec fn spec_elements(xs: Seq<Serialized>) -> Result<Seq<FormValueView>, ErrorView>
    decreases xs, 0int,
{
    if xs.len() == 0 {
        Ok(Seq::empty())
    } else {
        match spec_element_value(xs[0]) {
            Ok(y) => match spec_elements(xs.drop_first()) {
                Ok(ys) => Ok(seq![y] + ys),
                Err(e) => Err(e),
            },
            Err(e) => Err(e),
        }
    }
}

/// The data `acc` with the fields `fs` stored in order, or the error of the
/// first field that fails.
pub open spec fn spec_fields(
    acc: Seq<(Seq<char>, FormValueView)>,
    fs: Seq<(String, Serialized)>,
) -> Result<Seq<(Seq<char>, FormValueView)>, ErrorView>
    decreases fs, 0int,
{
    if fs.len() == 0 {
        Ok(acc)
    } else {
        match spec_field_value(fs[0].1) {
            Ok(x) => spec_fields(insert_entry(acc, fs[0].0@, x), fs.drop_first()),
            Err(e) => Err(e),
        }
    }
}

/// The text a map key `v` becomes, or the error.
pub open spec fn spec_key_text(v: Serialized) -> Result<Seq<char>, ErrorView> {
    match v {
        Serialized::I8(x) => Ok(signed_decimal(x as int)),
        Serialized::I16(x) => Ok(signed_decimal(x as int)),
        Serialized::I32(x) => Ok(signed_decimal(x as int)),
        Serialized::I64(x) => Ok(signed_decimal(x as int)),
        Serialized::U8(x) => Ok(decimal_digits(x as nat)),
        Serialized::U16(x) => Ok(decimal_digits(x as nat)),
        Serialized::U32(x) => Ok(decimal_digits(x as nat)),
        Serialized::U64(x) => Ok(decimal_digits(x as nat)),
        Serialized::F32 { text, .. } => Ok(text@),
        Serialized::F64 { text } => Ok(text@),
        Serialized::Char(c) => Ok(seq![c]),
        Serialized::Str(s) => Ok(s@),
        _ => Err(ErrorView::UnsupportedType(v.kind_name())),
    }
}

/// The data `acc` with the map entries `es` stored in order (keys as text),
/// or the error of the first entry that fails.
pub open spec fn spec_map_entries(
    acc: Seq<(Seq<char>, FormValueView)>,
    es: Seq<(Serialized, Serialized)>,
) -> Result<Seq<(Seq<char>, FormValueView)>, ErrorView>
    decreases es.len(),
{
    if es.len() == 0 {
        Ok(acc)
    } else {
        match spec_key_text(es[0].0) {
            Ok(k) => match spec_field_value(es[0].1) {
                Ok(x) => spec_map_entries(insert_entry(acc, k, x), es.drop_first()),
                Err(e) => Err(e),
            },
            Err(e) => Err(e),
        }
    }
}

/// The form data a record becomes: a struct or a map, or the error.
pub open spec fn spec_to_formdata(v: Serialized) -> Result<Seq<(Seq<char>, FormValueView)>, ErrorView> {
    match v {
        Serialized::Struct(fs) => spec_fields(Seq::empty(), fs@),
        Serialized::Mapping(es) => spec_map_entries(Seq::empty(), es@),
        _ => Err(ErrorView::UnsupportedType(v.kind_name())),
    }
}


/// A result of form values agrees with its mathematical description.
pub open spec fn value_result_matches(
    r: Result<FormValue, FormDataSerializerError>,
    s: Result<FormValueView, ErrorView>,
) -> bool {
    match r {
        Ok(x) => s == Ok::<FormValueView, ErrorView>(x@),
        Err(e) => s == Err::<FormValueView, ErrorView>(e.view_err()),
    }
}

/// `p` put before the elements of a successful result.
pub open spec fn prepend_values(
    p: Seq<FormValueView>,
    r: Result<Seq<FormValueView>, ErrorView>,
) -> Result<Seq<FormValueView>, ErrorView> {
    match r {
        Ok(ys) => Ok(p + ys),
        Err(e) => Err(e),
    }
}

pub proof fn lemma_fields_ok_index(fs: Seq<(String, Serialized)>, i: int)
    requires
        fields_ok(fs),
        0 <= i < fs.len(),
    ensures
        field_ok(fs[i].1),
    decreases fs.len(),
{
    if i > 0 {
        lemma_fields_ok_index(fs.drop_first(), i - 1);
    }
}

pub proof fn lemma_map_values_ok_index(es: Seq<(Serialized, Serialized)>, i: int)
    requires
        map_values_ok(es),
        0 <= i < es.len(),
    ensures
        field_ok(es[i].1),
    decreases es.len(),
{
    if i > 0 {
        lemma_map_values_ok_index(es.drop_first(), i - 1);
    }
}

/// The value stored under a field's name for the field value `v`.
#[verifier::loop_isolation(false)]
pub fn field_value(v: &Serialized) -> (r: Result<FormValue, FormDataSerializerError>)
    requires
        field_ok(*v),
    ensures
        value_result_matches(r, spec_field_value(*v)),
    decreases v, 1int,
{
    match v {
        Serialized::Bool(x) => Ok(FormValue::Bool(*x)),
        Serialized::I32(x) => Ok(FormValue::Int32(*x)),
        Serialized::U8(x) => Ok(FormValue::UnsignedInt8(*x)),
        Serialized::U32(x) => Ok(FormValue::UnsignedInt32(*x)),
        Serialized::U64(x) => Ok(FormValue::UnsignedInt64(*x)),
        Serialized::F32 { bits, .. } => Ok(FormValue::Float32(*bits)),
        Serialized::Str(s) => Ok(FormValue::String(s.clone())),
        Serialized::Nothing => Ok(FormValue::Option(None)),
        Serialized::Present(b) => match field_value(&**b) {
            Ok(x) => Ok(FormValue::Option(Some(Box::new(x)))),
            Err(e) => Err(e),
        },
        Serialized::UnitVariant(name) => Ok(FormValue::String(name.clone())),
        Serialized::Sequence(xs) => match elements(xs) {
            Ok(ys) => Ok(FormValue::Vec(ys)),
            Err(e) => Err(e),
        },
        Serialized::Struct(fs) => {
            let mut d = FormData::new();
            match fields_into(&mut d, fs) {
                Ok(()) => Ok(FormValue::Nested(d)),
                Err(e) => Err(e),
            }
        },
        _ => Err(FormDataSerializerError::UnsupportedType(v.kind())),
    }
}

/// The element a sequence element `v` becomes.
#[verifier::loop_isolation(false)]
pub fn element_value(v: &Serialized) -> (r: Result<FormValue, FormDataSerializerError>)
    ensures
        value_result_matches(r, spec_element_value(*v)),
    decreases v, 1int,
{
    match v {
        Serialized::Bool(x) => Ok(FormValue::Bool(*x)),
        Serialized::I32(x) => Ok(FormValue::Int32(*x)),
        Serialized::U8(x) => Ok(FormValue::UnsignedInt8(*x)),
        Serialized::U32(x) => Ok(FormValue::UnsignedInt32(*x)),
        Serialized::U64(x) => Ok(FormValue::UnsignedInt64(*x)),
        Serialized::F32 { bits, .. } => Ok(FormValue::Float32(*bits)),
        Serialized::Str(s) => Ok(FormValue::String(s.clone())),
        Serialized::UnitVariant(name) => Ok(FormValue::String(name.clone())),
        Serialized::Sequence(xs) => match elements(xs) {
            Ok(ys) => Ok(FormValue::Vec(ys)),
            Err(e) => Err(e),
        },
        _ => Err(FormDataSerializerError::UnsupportedType(v.kind())),
    }
}

/// The elements a sequence becomes, or the error of its first failing element.
#[verifier::loop_isolation(false)]
pub fn elements(xs: &Vec<Serialized>) -> (r: Result<Vec<FormValue>, FormDataSerializerError>)
    ensures
        match r {
            Ok(ys) => spec_elements(xs@) == Ok::<Seq<FormValueView>, ErrorView>(values_view(ys@)),
            Err(e) => spec_elements(xs@) == Err::<Seq<FormValueView>, ErrorView>(e.view_err()),
        },
    decreases xs, 0int,
{
    let mut ys: Vec<FormValue> = Vec::new();
    let mut i: usize = 0;
    proof {
        assert(xs@.skip(0) =~= xs@);
        assert(values_view(ys@) =~= Seq::<FormValueView>::empty());
        assert(Seq::<FormValueView>::empty() + Seq::<FormValueView>::empty() =~= Seq::<FormValueView>::empty());
    }
    while i < xs.len()
        invariant
            0 <= i <= xs.len(),
            spec_elements(xs@) == prepend_values(values_view(ys@), spec_elements(xs@.skip(i as int))),
        decreases xs.len() - i,
    {
        proof {
            assert(xs@.skip(i as int)[0] == xs@[i as int]);
            assert(xs@.skip(i as int).drop_first() =~= xs@.skip(i + 1));
        }
        match element_value(&xs[i]) {
            Ok(y) => {
                let ghost old_ys = ys@;
                ys.push(y);
                proof {
                    assert(ys@.drop_last() =~= old_ys);
                    let rest = spec_elements(xs@.skip(i + 1));
                    match rest {
                        Ok(zs) => {
                            assert(values_view(old_ys) + (seq![y@] + zs) =~= values_view(ys@) + zs);
                        },
                        Err(_) => {},
                    }
                }
            },
            Err(e) => {
                return Err(e);
            },
        }
        i = i + 1;
    }
    proof {
        assert(xs@.skip(xs.len() as int) =~= Seq::<Serialized>::empty());
        assert(values_view(ys@) + Seq::<FormValueView>::empty() =~= values_view(ys@));
    }
    Ok(ys)
}

/// Stores the struct fields `fs` in `data` in order; stops at the first
/// field that fails.
#[verifier::loop_isolation(false)]
pub fn fields_into(data: &mut FormData, fs: &Vec<(String, Serialized)>) -> (r: Result<(), FormDataSerializerError>)
    requires
        old(data).wf(),
        fields_ok(fs@),
    ensures
        r is Ok ==> final(data).wf() && spec_fields(old(data)@, fs@) == Ok::<
            Seq<(Seq<char>, FormValueView)>,
            ErrorView,
        >(final(data)@),
        r matches Err(e) ==> spec_fields(old(data)@, fs@) == Err::<
            Seq<(Seq<char>, FormValueView)>,
            ErrorView,
        >(e.view_err()),
    decreases fs, 0int,
{
    let mut i: usize = 0;
    proof {
        assert(fs@.skip(0) =~= fs@);
    }
    while i < fs.len()
        invariant
            0 <= i <= fs.len(),
            data.wf(),
            fields_ok(fs@),
            spec_fields(old(data)@, fs@) == spec_fields(data@, fs@.skip(i as int)),
        decreases fs.len() - i,
    {
        proof {
            assert(fs@.skip(i as int)[0] == fs@[i as int]);
            assert(fs@.skip(i as int).drop_first() =~= fs@.skip(i + 1));
            lemma_fields_ok_index(fs@, i as int);
        }
        match field_value(&fs[i].1) {
            Ok(x) => {
                data.insert(fs[i].0.clone(), x);
            },
            Err(e) => {
                return Err(e);
            },
        }
        i = i + 1;
    }
    proof {
        assert(fs@.skip(fs.len() as int) =~= Seq::<(String, Serialized)>::empty());
    }
    Ok(())
}

/// The text a map key becomes.
pub fn key_text(v: &Serialized) -> (r: Result<String, FormDataSerializerError>)
    ensures
        match r {
            Ok(s) => spec_key_text(*v) == Ok::<Seq<char>, ErrorView>(s@),
            Err(e) => spec_key_text(*v) == Err::<Seq<char>, ErrorView>(e.view_err()),
        },
{
    let mut s = String::new();
    match v {
        Serialized::I8(x) => push_signed_decimal(&mut s, *x as i64),
        Serialized::I16(x) => push_signed_decimal(&mut s, *x as i64),
        Serialized::I32(x) => push_signed_decimal(&mut s, *x as i64),
        Serialized::I64(x) => push_signed_decimal(&mut s, *x),
        Serialized::U8(x) => push_decimal(&mut s, *x as u64),
        Serialized::U16(x) => push_decimal(&mut s, *x as u64),
        Serialized::U32(x) => push_decimal(&mut s, *x as u64),
        Serialized::U64(x) => push_decimal(&mut s, *x),
        Serialized::F32 { text, .. } => {
            return Ok(text.clone());
        },
        Serialized::F64 { text } => {
            return Ok(text.clone());
        },
        Serialized::Char(c) => push_char(&mut s, *c),
        Serialized::Str(t) => {
            return Ok(t.clone());
        },
        _ => {
            return Err(FormDataSerializerError::UnsupportedType(v.kind()));
        },
    }
    proof {
        assert(Seq::<char>::empty() + decimal_digits(0) =~= decimal_digits(0));
    }
    Ok(s)
}

/// Stores the map entries `es` in `data` in order, keys as text; stops at
/// the first entry that fails.
pub fn map_entries_into(data: &mut FormData, es: &Vec<(Serialized, Serialized)>) -> (r: Result<(), FormDataSerializerError>)
    requires
        old(data).wf(),
        map_values_ok(es@),
    ensures
        r is Ok ==> final(data).wf() && spec_map_entries(old(data)@, es@) == Ok::<
            Seq<(Seq<char>, FormValueView)>,
            ErrorView,
        >(final(data)@),
        r matches Err(e) ==> spec_map_entries(old(data)@, es@) == Err::<
            Seq<(Seq<char>, FormValueView)>,
            ErrorView,
        >(e.view_err()),
{
    let mut i: usize = 0;
    proof {
        assert(es@.skip(0) =~= es@);
    }
    while i < es.len()
        invariant
            0 <= i <= es.len(),
            data.wf(),
            map_values_ok(es@),
            spec_map_entries(old(data)@, es@) == spec_map_entries(data@, es@.skip(i as int)),
        decreases es.len() - i,
    {
        proof {
            assert(es@.skip(i as int)[0] == es@[i as int]);
            assert(es@.skip(i as int).drop_first() =~= es@.skip(i + 1));
            lemma_map_values_ok_index(es@, i as int);
        }
        let k = match key_text(&es[i].0) {
            Ok(k) => k,
            Err(e) => {
                return Err(e);
            },
        };
        match field_value(&es[i].1) {
            Ok(x) => {
                data.insert(k, x);
            },
            Err(e) => {
                return Err(e);
            },
        }
        i = i + 1;
    }
    proof {
        assert(es@.skip(es.len() as int) =~= Seq::<(Serialized, Serialized)>::empty());
    }
    Ok(())
}

/// Whether a record can be turned into form data without reaching the
/// unimplemented case: its field values (for a struct) or its map values
/// (for a map) can stand as fields.
pub open spec fn record_ok(v: Serialized) -> bool {
    match v {
        Serialized::Struct(fs) => fields_ok(fs@),
        Serialized::Mapping(es) => map_values_ok(es@),
        _ => true,
    }
}

/// The form data a record becomes. A record is a struct or a map; its
/// fields become named values: booleans, 32-bit integers, unsigned 8, 32 and
/// 64-bit integers, 32-bit floating point numbers, strings, unit enum
/// variants (as their name), options, sequences of those, and nested
/// structs. Any other kind of value ends in `UnsupportedType` with the
/// kind's name.
pub fn to_formdata(value: &Serialized) -> (r: Result<FormData, FormDataSerializerError>)
    requires
        record_ok(*value),
    ensures
        r matches Ok(d) ==> d.wf() && spec_to_formdata(*value) == Ok::<
            Seq<(Seq<char>, FormValueView)>,
            ErrorView,
        >(d@),
        r matches Err(e) ==> spec_to_formdata(*value) == Err::<
            Seq<(Seq<char>, FormValueView)>,
            ErrorView,
        >(e.view_err()),
{
    match value {
        Serialized::Struct(fs) => {
            let mut d = FormData::new();
            match fields_into(&mut d, fs) {
                Ok(()) => Ok(d),
                Err(e) => Err(e),
            }
        },
        Serialized::Mapping(es) => {
            let mut d = FormData::new();
            match map_entries_into(&mut d, es) {
                Ok(()) => Ok(d),
                Err(e) => Err(e),
            }
        },
        _ => Err(FormDataSerializerError::UnsupportedType(value.kind())),
    }
}

} // verus!
