//! The values edited in settings forms, the form data they are kept in, and
//! how a configuration record becomes form data.
use vstd::prelude::*;
use crate::text::str_eq;

verus! {

/// A value of a settings form field. A 32-bit floating point value is held
/// as the bits of its IEEE 754 encoding.
#[derive(Debug)]
pub enum FormValue {
    String(String),
    Int32(i32),
    UnsignedInt8(u8),
    UnsignedInt32(u32),
    UnsignedInt64(u64),
    Float32(u32),
    Bool(bool),
    Option(Option<Box<FormValue>>),
    Vec(Vec<FormValue>),
    Nested(FormData),
}

/// The fields of a settings form: names and values, each name at most once.
#[derive(Debug)]
pub struct FormData {
    pub entries: Vec<(String, FormValue)>,
}

/// The mathematical value of a form value.
pub enum FormValueView {
    String(Seq<char>),
    Int32(i32),
    UnsignedInt8(u8),
    UnsignedInt32(u32),
    UnsignedInt64(u64),
    Float32(u32),
    Bool(bool),
    Option(Option<Box<FormValueView>>),
    Vec(Seq<FormValueView>),
    Nested(Seq<(Seq<char>, FormValueView)>),
}

/// The mathematical value of a form value.
pub open spec fn value_view(v: FormValue) -> FormValueView
    decreases v,
{
    match v {
        FormValue::String(s) => FormValueView::String(s@),
        FormValue::Int32(x) => FormValueView::Int32(x),
        FormValue::UnsignedInt8(x) => FormValueView::UnsignedInt8(x),
        FormValue::UnsignedInt32(x) => FormValueView::UnsignedInt32(x),
        FormValue::UnsignedInt64(x) => FormValueView::UnsignedInt64(x),
        FormValue::Float32(x) => FormValueView::Float32(x),
        FormValue::Bool(x) => FormValueView::Bool(x),
        FormValue::Option(o) => FormValueView::Option(
            match o {
                Some(b) => Some(Box::new(value_view(*b))),
                None => None,
            },
        ),
        FormValue::Vec(xs) => FormValueView::Vec(values_view(xs@)),
        FormValue::Nested(d) => FormValueView::Nested(entries_view(d.entries@)),
    }
}

/// The mathematical values of a sequence of form values.
pub open spec fn values_view(xs: Seq<FormValue>) -> Seq<FormValueView>
    decreases xs,
{
    if xs.len() == 0 {
        Seq::empty()
    } else {
        values_view(xs.drop_last()).push(value_view(xs.last()))
    }
}

/// The mathematical form of a sequence of form entries.
pub open spec fn entries_view(es: Seq<(String, FormValue)>) -> Seq<(Seq<char>, FormValueView)>
    decreases es,
{
    if es.len() == 0 {
        Seq::empty()
    } else {
        entries_view(es.drop_last()).push((es.last().0@, value_view(es.last().1)))
    }
}

impl View for FormValue {
    type V = FormValueView;

    open spec fn view(&self) -> FormValueView {
        value_view(*self)
    }
}

impl View for FormData {
    type V = Seq<(Seq<char>, FormValueView)>;

    open spec fn view(&self) -> Seq<(Seq<char>, FormValueView)> {
        entries_view(self.entries@)
    }
}

/// The value stored under `k` in the entries `es` (the first one, should
/// there be more).
pub open spec fn lookup(es: Seq<(Seq<char>, FormValueView)>, k: Seq<char>) -> Option<FormValueView>
    decreases es.len(),
{
    if es.len() == 0 {
        None
    } else if es[0].0 == k {
        Some(es[0].1)
    } else {
        lookup(es.drop_first(), k)
    }
}

/// No name occurs twice in `es`.
pub open spec fn distinct_names(es: Seq<(Seq<char>, FormValueView)>) -> bool {
    forall|i: int, j: int| 0 <= i < j < es.len() ==> es[i].0 != es[j].0
}

pub proof fn lemma_entries_view_len(es: Seq<(String, FormValue)>)
    ensures
        entries_view(es).len() == es.len(),
    decreases es.len(),
{
    if es.len() > 0 {
        lemma_entries_view_len(es.drop_last());
    }
}

pub proof fn lemma_entries_view_index(es: Seq<(String, FormValue)>, i: int)
    requires
        0 <= i < es.len(),
    ensures
        entries_view(es)[i] == (es[i].0@, value_view(es[i].1)),
    decreases es.len(),
{
    lemma_entries_view_len(es);
    if i < es.len() - 1 {
        lemma_entries_view_len(es.drop_last());
        lemma_entries_view_index(es.drop_last(), i);
    }
}

pub proof fn lemma_values_view_len(xs: Seq<FormValue>)
    ensures
        values_view(xs).len() == xs.len(),
    decreases xs.len(),
{
    if xs.len() > 0 {
        lemma_values_view_len(xs.drop_last());
    }
}

pub proof fn lemma_values_view_index(xs: Seq<FormValue>, i: int)
    requires
        0 <= i < xs.len(),
    ensures
        values_view(xs)[i] == value_view(xs[i]),
    decreases xs.len(),
{
    lemma_values_view_len(xs);
    if i < xs.len() - 1 {
        lemma_values_view_len(xs.drop_last());
        lemma_values_view_index(xs.drop_last(), i);
    }
}

/// `lookup` finds the entry at the first index whose name is `k`.
pub proof fn lemma_lookup_index(es: Seq<(Seq<char>, FormValueView)>, k: Seq<char>, i: int)
    requires
        0 <= i < es.len(),
        es[i].0 == k,
        forall|j: int| 0 <= j < i ==> es[j].0 != k,
    ensures
        lookup(es, k) == Some(es[i].1),
    decreases es.len(),
{
    if i > 0 {
        lemma_lookup_index(es.drop_first(), k, i - 1);
    }
}

/// `lookup` finds nothing when no entry has the name `k`.
pub proof fn lemma_lookup_absent(es: Seq<(Seq<char>, FormValueView)>, k: Seq<char>)
    requires
        forall|j: int| 0 <= j < es.len() ==> es[j].0 != k,
    ensures
        lookup(es, k) is None,
    decreases es.len(),
{
    if es.len() > 0 {
        lemma_lookup_absent(es.drop_first(), k);
    }
}

impl FormValue {
    /// A copy of the value.
    #[verifier::loop_isolation(false)]
    pub fn deep_clone(&self) -> (r: FormValue)
        ensures
            r@ == self@,
        decreases self,
    {
        match self {
            FormValue::String(s) => FormValue::String(s.clone()),
            FormValue::Int32(x) => FormValue::Int32(*x),
            FormValue::UnsignedInt8(x) => FormValue::UnsignedInt8(*x),
            FormValue::UnsignedInt32(x) => FormValue::UnsignedInt32(*x),
            FormValue::UnsignedInt64(x) => FormValue::UnsignedInt64(*x),
            FormValue::Float32(x) => FormValue::Float32(*x),
            FormValue::Bool(x) => FormValue::Bool(*x),
            FormValue::Option(o) => match o {
                Some(b) => FormValue::Option(Some(Box::new((&**b).deep_clone()))),
                None => FormValue::Option(None),
            },
            FormValue::Vec(xs) => {
                let mut r: Vec<FormValue> = Vec::new();
                let mut i: usize = 0;
                while i < xs.len()
                    invariant
                        0 <= i <= xs.len(),
                        values_view(r@) == values_view(xs@.take(i as int)),
                    decreases xs.len() - i,
                {
                    let c = xs[i].deep_clone();
                    let ghost old_r = r@;
                    r.push(c);
                    proof {
                        assert(r@.drop_last() =~= old_r);
                        assert(xs@.take(i + 1).drop_last() =~= xs@.take(i as int));
                    }
                    i = i + 1;
                }
                proof {
                    assert(xs@.take(xs.len() as int) =~= xs@);
                }
                FormValue::Vec(r)
            },
            FormValue::Nested(d) => FormValue::Nested(d.deep_clone()),
        }
    }
}

/// `lookup` after an entry is added at the end.
pub proof fn lemma_lookup_push(es: Seq<(Seq<char>, FormValueView)>, e: (Seq<char>, FormValueView), k: Seq<char>)
    ensures
        lookup(es.push(e), k) == if lookup(es, k) is Some {
            lookup(es, k)
        } else if e.0 == k {
            Some(e.1)
        } else {
            None
        },
    decreases es.len(),
{
    if es.len() > 0 {
        assert(es.push(e).drop_first() =~= es.drop_first().push(e));
        assert(es.push(e)[0] == es[0]);
        lemma_lookup_push(es.drop_first(), e, k);
        if es[0].0 != k {
            assert(lookup(es.push(e), k) == lookup(es.drop_first().push(e), k));
            assert(lookup(es, k) == lookup(es.drop_first(), k));
        }
    } else {
        assert(es.push(e).drop_first() =~= Seq::<(Seq<char>, FormValueView)>::empty());
        assert(es.push(e)[0] == e);
        assert(lookup(es, k) is None);
        if e.0 != k {
            assert(lookup(es.push(e), k) == lookup(es.push(e).drop_first(), k));
        }
    }
}

/// `lookup` after the entry at `i` is replaced by one with the same name.
pub proof fn lemma_lookup_update(
    es: Seq<(Seq<char>, FormValueView)>,
    i: int,
    e: (Seq<char>, FormValueView),
    k: Seq<char>,
)
    requires
        0 <= i < es.len(),
        es[i].0 == e.0,
        distinct_names(es),
    ensures
        lookup(es.update(i, e), k) == if k == e.0 {
            Some(e.1)
        } else {
            lookup(es, k)
        },
    decreases es.len(),
{
    if i == 0 {
        assert(es.update(i, e).drop_first() =~= es.drop_first());
    } else {
        assert(es.update(i, e).drop_first() =~= es.drop_first().update(i - 1, e));
        lemma_lookup_update(es.drop_first(), i - 1, e, k);
    }
}

/// `es` with `(k, v)` stored: the first entry named `k` is replaced, or the
/// entry is added at the end when there is none.
pub open spec fn insert_entry(
    es: Seq<(Seq<char>, FormValueView)>,
    k: Seq<char>,
    v: FormValueView,
) -> Seq<(Seq<char>, FormValueView)>
    decreases es.len(),
{
    if es.len() == 0 {
        seq![(k, v)]
    } else if es[0].0 == k {
        es.update(0, (k, v))
    } else {
        seq![es[0]] + insert_entry(es.drop_first(), k, v)
    }
}

pub proof fn lemma_insert_entry_at(es: Seq<(Seq<char>, FormValueView)>, k: Seq<char>, v: FormValueView, i: int)
    requires
        0 <= i < es.len(),
        es[i].0 == k,
        forall|j: int| 0 <= j < i ==> es[j].0 != k,
    ensures
        insert_entry(es, k, v) == es.update(i, (k, v)),
    decreases es.len(),
{
    if i > 0 {
        lemma_insert_entry_at(es.drop_first(), k, v, i - 1);
        assert(seq![es[0]] + es.drop_first().update(i - 1, (k, v)) =~= es.update(i, (k, v)));
    }
}

pub proof fn lemma_insert_entry_absent(es: Seq<(Seq<char>, FormValueView)>, k: Seq<char>, v: FormValueView)
    requires
        forall|j: int| 0 <= j < es.len() ==> es[j].0 != k,
    ensures
        insert_entry(es, k, v) == es.push((k, v)),
    decreases es.len(),
{
    if es.len() > 0 {
        lemma_insert_entry_absent(es.drop_first(), k, v);
        assert(seq![es[0]] + es.drop_first().push((k, v)) =~= es.push((k, v)));
    }
}

/// Whether `b` is an IEEE 754 not-a-number encoding.
pub open spec fn f32_bits_is_nan(b: u32) -> bool {
    (b & 0x7f80_0000u32) == 0x7f80_0000u32 && (b & 0x007f_ffffu32) != 0
}

/// IEEE 754 equality of two encoded 32-bit floating point numbers: never for
/// a not-a-number, and the two zeros are equal.
pub open spec fn f32_bits_eq(a: u32, b: u32) -> bool {
    !f32_bits_is_nan(a) && !f32_bits_is_nan(b) && (a == b || ((a & 0x7fff_ffffu32) == 0 && (b
        & 0x7fff_ffffu32) == 0))
}

/// Equality of form values, as `==` compares them: field by field, floating
/// point numbers by IEEE 754 equality, nested data as maps.
pub open spec fn value_eq(a: FormValueView, b: FormValueView) -> bool
    decreases a, 0int,
{
    match a {
        FormValueView::String(x) => b matches FormValueView::String(y) && x == y,
        FormValueView::Int32(x) => b matches FormValueView::Int32(y) && x == y,
        FormValueView::UnsignedInt8(x) => b matches FormValueView::UnsignedInt8(y) && x == y,
        FormValueView::UnsignedInt32(x) => b matches FormValueView::UnsignedInt32(y) && x == y,
        FormValueView::UnsignedInt64(x) => b matches FormValueView::UnsignedInt64(y) && x == y,
        FormValueView::Float32(x) => b matches FormValueView::Float32(y) && f32_bits_eq(x, y),
        FormValueView::Bool(x) => b matches FormValueView::Bool(y) && x == y,
        FormValueView::Option(x) => b matches FormValueView::Option(y) && match x {
            None => y is None,
            Some(p) => y matches Some(q) && value_eq(*p, *q),
        },
        FormValueView::Vec(xs) => b matches FormValueView::Vec(ys) && values_eq(xs, ys),
        FormValueView::Nested(es) => b matches FormValueView::Nested(fs) && data_eq(es, fs),
    }
}

/// Element-wise equality of two sequences of form values.
pub open spec fn values_eq(xs: Seq<FormValueView>, ys: Seq<FormValueView>) -> bool
    decreases xs, 0int,
{
    xs.len() == ys.len() && (xs.len() == 0 || (value_eq(xs[0], ys[0]) && values_eq(
        xs.drop_first(),
        ys.drop_first(),
    )))
}

/// Equality of two form data as maps: as many fields, and every field of
/// the first has an equal value under its name in the second.
pub open spec fn data_eq(es: Seq<(Seq<char>, FormValueView)>, fs: Seq<(Seq<char>, FormValueView)>) -> bool
    decreases es, 1int,
{
    es.len() == fs.len() && entries_match(es, fs)
}

/// Every field of `es` has an equal value under its name in `fs`.
pub open spec fn entries_match(
    es: Seq<(Seq<char>, FormValueView)>,
    fs: Seq<(Seq<char>, FormValueView)>,
) -> bool
    decreases es, 0int,
{
    es.len() == 0 || (match lookup(fs, es[0].0) {
        Some(w) => value_eq(es[0].1, w),
        None => false,
    } && entries_match(es.drop_first(), fs))
}

fn f32_bits_eq_exec(a: u32, b: u32) -> (r: bool)
    ensures
        r == f32_bits_eq(a, b),
{
    let a_nan = (a & 0x7f80_0000u32) == 0x7f80_0000u32 && (a & 0x007f_ffffu32) != 0;
    let b_nan = (b & 0x7f80_0000u32) == 0x7f80_0000u32 && (b & 0x007f_ffffu32) != 0;
    !a_nan && !b_nan && (a == b || ((a & 0x7fff_ffffu32) == 0 && (b & 0x7fff_ffffu32) == 0))
}

impl FormValue {
    /// Whether two form values are equal, as `==` compares them.
    #[verifier::loop_isolation(false)]
    pub fn eq_value(&self, other: &FormValue) -> (r: bool)
        ensures
            r == value_eq(self@, other@),
        decreases self,
    {
        match (self, other) {
            (FormValue::String(x), FormValue::String(y)) => str_eq(x.as_str(), y.as_str()),
            (FormValue::Int32(x), FormValue::Int32(y)) => *x == *y,
            (FormValue::UnsignedInt8(x), FormValue::UnsignedInt8(y)) => *x == *y,
            (FormValue::UnsignedInt32(x), FormValue::UnsignedInt32(y)) => *x == *y,
            (FormValue::UnsignedInt64(x), FormValue::UnsignedInt64(y)) => *x == *y,
            (FormValue::Float32(x), FormValue::Float32(y)) => f32_bits_eq_exec(*x, *y),
            (FormValue::Bool(x), FormValue::Bool(y)) => *x == *y,
            (FormValue::Option(x), FormValue::Option(y)) => match (x, y) {
                (None, None) => true,
                (Some(p), Some(q)) => (&**p).eq_value(&**q),
                _ => false,
            },
            (FormValue::Vec(xs), FormValue::Vec(ys)) => {
                proof {
                    assert(self@ == FormValueView::Vec(values_view(xs@)));
                    assert(other@ == FormValueView::Vec(values_view(ys@)));
                }
                if xs.len() != ys.len() {
                    proof {
                        lemma_values_view_len(xs@);
                        lemma_values_view_len(ys@);
                        assert(!values_eq(values_view(xs@), values_view(ys@)));
                        assert(!value_eq(self@, other@));
                    }
                    return false;
                }
                let ghost xv = values_view(xs@);
                let ghost yv = values_view(ys@);
                proof {
                    lemma_values_view_len(xs@);
                    lemma_values_view_len(ys@);
                    assert(xv.skip(0) =~= xv);
                    assert(yv.skip(0) =~= yv);
                }
                let mut i: usize = 0;
                while i < xs.len()
                    invariant
                        0 <= i <= xs.len(),
                        xs.len() == ys.len(),
                        xv.len() == xs.len(),
                        yv.len() == ys.len(),
                        values_eq(xv, yv) == values_eq(xv.skip(i as int), yv.skip(i as int)),
                    decreases xs.len() - i,
                {
                    proof {
                        lemma_values_view_index(xs@, i as int);
                        lemma_values_view_index(ys@, i as int);
                        assert(xv.skip(i as int).drop_first() =~= xv.skip(i + 1));
                        assert(yv.skip(i as int).drop_first() =~= yv.skip(i + 1));
                        assert(xv.skip(i as int)[0] == xv[i as int]);
                        assert(yv.skip(i as int)[0] == yv[i as int]);
                    }
                    if !xs[i].eq_value(&ys[i]) {
                        return false;
                    }
                    i = i + 1;
                }
                true
            },
            (FormValue::Nested(d), FormValue::Nested(e)) => d.eq_data(e),
            _ => false,
        }
    }
}

impl FormData {
    /// No field name occurs twice.
    pub open spec fn wf(self) -> bool {
        distinct_names(self@)
    }

    /// The value of the field named `k`.
    pub open spec fn spec_get(self, k: Seq<char>) -> Option<FormValueView> {
        lookup(self@, k)
    }

    /// The value of the field named `k`.
    pub fn get(&self, k: &str) -> (r: Option<&FormValue>)
        ensures
            r matches Some(v) ==> self.spec_get(k@) == Some(v@),
            r is None ==> self.spec_get(k@) is None,
    {
        let mut i: usize = 0;
        proof {
            lemma_entries_view_len(self.entries@);
        }
        while i < self.entries.len()
            invariant
                0 <= i <= self.entries.len(),
                self@.len() == self.entries.len(),
                forall|j: int| 0 <= j < i ==> self@[j].0 != k@,
            decreases self.entries.len() - i,
        {
            proof {
                lemma_entries_view_index(self.entries@, i as int);
            }
            if str_eq(self.entries[i].0.as_str(), k) {
                proof {
                    lemma_lookup_index(self@, k@, i as int);
                }
                return Some(&self.entries[i].1);
            }
            i = i + 1;
        }
        proof {
            lemma_lookup_absent(self@, k@);
        }
        None
    }

    /// The number of fields.
    pub fn len(&self) -> (r: usize)
        ensures
            r == self@.len(),
    {
        proof {
            lemma_entries_view_len(self.entries@);
        }
        self.entries.len()
    }

    /// Stores `v` under the name `k`, replacing the value stored there before,
    /// which is returned.
    pub fn insert(&mut self, k: String, v: FormValue) -> (r: Option<FormValue>)
        requires
            old(self).wf(),
        ensures
            final(self).wf(),
            forall|n: Seq<char>| #[trigger] final(self).spec_get(n) == if n == k@ {
                Some(v@)
            } else {
                old(self).spec_get(n)
            },
            r matches Some(o) ==> old(self).spec_get(k@) == Some(o@),
            r is None ==> old(self).spec_get(k@) is None,
            final(self)@ == insert_entry(old(self)@, k@, v@),
    {
        let ghost old_view = self@;
        let mut i: usize = 0;
        proof {
            lemma_entries_view_len(self.entries@);
        }
        while i < self.entries.len()
            invariant
                0 <= i <= self.entries.len(),
                self@ == old_view,
                self.entries@ == old(self).entries@,
                old_view.len() == self.entries.len(),
                distinct_names(old_view),
                forall|j: int| 0 <= j < i ==> old_view[j].0 != k@,
            decreases self.entries.len() - i,
        {
            proof {
                lemma_entries_view_index(self.entries@, i as int);
            }
            if str_eq(self.entries[i].0.as_str(), k.as_str()) {
                let ghost kv = k@;
                let ghost vv = v@;
                let ghost old_entries = self.entries@;
                let (_, old_v) = self.entries.remove(i);
                self.entries.insert(i, (k, v));
                proof {
                    let es = self.entries@;
                    assert(es.len() == old_entries.len());
                    assert(es[i as int].0@ == kv && value_view(es[i as int].1) == vv);
                    assert(forall|j: int| 0 <= j < es.len() && j != i ==> es[j] == old_entries[j]);
                    lemma_entries_view_len(es);
                    lemma_lookup_index(old_view, kv, i as int);
                    assert forall|j: int| 0 <= j < es.len() implies #[trigger] entries_view(es)[j] == old_view.update(
                        i as int,
                        (kv, vv),
                    )[j] by {
                        lemma_entries_view_index(es, j);
                        lemma_entries_view_index(old_entries, j);
                    }
                    assert(entries_view(es) =~= old_view.update(i as int, (kv, vv)));
                    lemma_insert_entry_at(old_view, kv, vv, i as int);
                    assert forall|n: Seq<char>| #[trigger] lookup(self@, n) == if n == kv {
                        Some(vv)
                    } else {
                        lookup(old_view, n)
                    } by {
                        lemma_lookup_update(old_view, i as int, (kv, vv), n);
                    }
                }
                return Some(old_v);
            }
            i = i + 1;
        }
        let ghost kv = k@;
        let ghost vv = v@;
        proof {
            lemma_lookup_absent(old_view, kv);
            lemma_insert_entry_absent(old_view, kv, vv);
        }
        self.entries.push((k, v));
        proof {
            assert(self.entries@.drop_last() =~= old(self).entries@);
            assert forall|n: Seq<char>| #[trigger] lookup(self@, n) == if n == kv {
                Some(vv)
            } else {
                lookup(old_view, n)
            } by {
                lemma_lookup_push(old_view, (kv, vv), n);
            }
        }
        None
    }

    /// Whether two form data are equal as maps, values compared as `==` does.
    #[verifier::loop_isolation(false)]
    pub fn eq_data(&self, other: &FormData) -> (r: bool)
        ensures
            r == data_eq(self@, other@),
        decreases self,
    {
        proof {
            lemma_entries_view_len(self.entries@);
            lemma_entries_view_len(other.entries@);
        }
        if self.entries.len() != other.entries.len() {
            return false;
        }
        let ghost es = self@;
        let ghost fs = other@;
        proof {
            assert(es.skip(0) =~= es);
        }
        let mut i: usize = 0;
        while i < self.entries.len()
            invariant
                0 <= i <= self.entries.len(),
                es.len() == self.entries.len(),
                es.len() == fs.len(),
                entries_match(es, fs) == entries_match(es.skip(i as int), fs),
            decreases self.entries.len() - i,
        {
            proof {
                lemma_entries_view_index(self.entries@, i as int);
                assert(es.skip(i as int).drop_first() =~= es.skip(i + 1));
            }
            match other.get(self.entries[i].0.as_str()) {
                Some(w) => {
                    if !self.entries[i].1.eq_value(w) {
                        return false;
                    }
                },
                None => {
                    return false;
                },
            }
            i = i + 1;
        }
        true
    }

    /// Form data without fields.
    pub fn new() -> (r: FormData)
        ensures
            r@ == Seq::<(Seq<char>, FormValueView)>::empty(),
            r.wf(),
    {
        FormData { entries: Vec::new() }
    }

    /// A copy of the form data.
    pub fn deep_clone(&self) -> (r: FormData)
        ensures
            r@ == self@,
        decreases self,
    {
        let mut r: Vec<(String, FormValue)> = Vec::new();
        let mut i: usize = 0;
        while i < self.entries.len()
            invariant
                0 <= i <= self.entries.len(),
                entries_view(r@) == entries_view(self.entries@.take(i as int)),
            decreases self.entries.len() - i,
        {
            let k = self.entries[i].0.clone();
            let v = self.entries[i].1.deep_clone();
            let ghost old_r = r@;
            r.push((k, v));
            proof {
                assert(r@.drop_last() =~= old_r);
                assert(self.entries@.take(i + 1).drop_last() =~= self.entries@.take(i as int));
            }
            i = i + 1;
        }
        proof {
            assert(self.entries@.take(self.entries.len() as int) =~= self.entries@);
        }
        FormData { entries: r }
    }
}

impl FormValue {
    pub fn as_i32(&self) -> (r: i32)
        requires
            self is Int32,
        ensures
            *self == FormValue::Int32(r),
    {
        match self {
            FormValue::Int32(v) => *v,
            _ => vstd::pervasive::unreached(),
        }
    }

    pub fn as_u8(&self) -> (r: u8)
        requires
            self is UnsignedInt8,
        ensures
            *self == FormValue::UnsignedInt8(r),
    {
        match self {
            FormValue::UnsignedInt8(v) => *v,
            _ => vstd::pervasive::unreached(),
        }
    }

    pub fn as_u32(&self) -> (r: u32)
        requires
            self is UnsignedInt32,
        ensures
            *self == FormValue::UnsignedInt32(r),
    {
        match self {
            FormValue::UnsignedInt32(v) => *v,
            _ => vstd::pervasive::unreached(),
        }
    }

    pub fn as_u64(&self) -> (r: u64)
        requires
            self is UnsignedInt64,
        ensures
            *self == FormValue::UnsignedInt64(r),
    {
        match self {
            FormValue::UnsignedInt64(v) => *v,
            _ => vstd::pervasive::unreached(),
        }
    }

    pub fn as_f32_bits(&self) -> (r: u32)
        requires
            self is Float32,
        ensures
            *self == FormValue::Float32(r),
    {
        match self {
            FormValue::Float32(v) => *v,
            _ => vstd::pervasive::unreached(),
        }
    }

    pub fn as_bool(&self) -> (r: bool)
        requires
            self is Bool,
        ensures
            *self == FormValue::Bool(r),
    {
        match self {
            FormValue::Bool(v) => *v,
            _ => vstd::pervasive::unreached(),
        }
    }

    pub fn as_option(&self) -> (r: Option<&FormValue>)
        requires
            self is Option,
        ensures
            r is None ==> *self == FormValue::Option(None),
            r matches Some(v) ==> *self == FormValue::Option(Some(Box::new(*v))),
    {
        match self {
            FormValue::Option(v) => match v {
                Some(b) => Some(&**b),
                None => None,
            },
            _ => vstd::pervasive::unreached(),
        }
    }

    pub fn as_vec(&self) -> (r: &Vec<FormValue>)
        requires
            self is Vec,
        ensures
            *self == FormValue::Vec(*r),
    {
        match self {
            FormValue::Vec(v) => v,
            _ => vstd::pervasive::unreached(),
        }
    }

    pub fn as_nested(&self) -> (r: &FormData)
        requires
            self is Nested,
        ensures
            *self == FormValue::Nested(*r),
    {
        match self {
            FormValue::Nested(v) => v,
            _ => vstd::pervasive::unreached(),
        }
    }

    /// A byte string as a form value: the sequence of its bytes.
    pub fn from_bytes(bytes: &Vec<u8>) -> (r: FormValue)
        ensures
            r@ == FormValueView::Vec(Seq::new(bytes@.len(), |i: int| FormValueView::UnsignedInt8(bytes@[i]))),
    {
        let mut r: Vec<FormValue> = Vec::new();
        let mut i: usize = 0;
        while i < bytes.len()
            invariant
                0 <= i <= bytes.len(),
                values_view(r@) =~= Seq::new(i as nat, |j: int| FormValueView::UnsignedInt8(bytes@[j])),
            decreases bytes.len() - i,
        {
            let ghost old_r = r@;
            r.push(FormValue::UnsignedInt8(bytes[i]));
            proof {
                assert(r@.drop_last() =~= old_r);
                assert(r@.last() == FormValue::UnsignedInt8(bytes@[i as int]));
                assert(value_view(r@.last()) == FormValueView::UnsignedInt8(bytes@[i as int]));
                assert(values_view(r@) == values_view(old_r).push(FormValueView::UnsignedInt8(bytes@[i as int])));
                assert(values_view(r@) =~= Seq::new((i + 1) as nat, |j: int| FormValueView::UnsignedInt8(bytes@[j])));
            }
            i = i + 1;
        }
        FormValue::Vec(r)
    }
}

impl FormValue {
    pub fn as_string(&self) -> (r: &String)
        requires
            self is String,
        ensures
            *self == FormValue::String(*r),
    {
        match self {
            FormValue::String(v) => v,
            _ => vstd::pervasive::unreached(),
        }
    }
}

} // verus!
