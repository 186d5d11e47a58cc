//! Where a settings form field keeps its value in the form data, and the
//! rules its values are checked by.
use vstd::prelude::*;
use crate::formdata::{distinct_names, insert_entry, value_view, FormData, FormValue, FormValueView};

verus! {

broadcast use vstd::string::group_string_axioms;

/// Where a form field's value lives in the form data.
#[derive(Debug)]
pub enum FormItemKey {
    /// A top-level field, by name.
    Simple(&'static str),
    /// The field `inner` of the optional record stored under `outer`. Reading
    /// an absent record gives `default_value`; writing into an absent record
    /// first creates it as `default_record`.
    NestedOption {
        outer: &'static str,
        inner: &'static str,
        default_value: FormValue,
        default_record: FormData,
    },
    /// A field that stores nothing, such as a button.
    NoField,
}

/// The optional record stored under `outer`, as a record (`None` when
/// it is absent).
pub open spec fn optional_record(data: Seq<(Seq<char>, FormValueView)>, outer: Seq<char>) -> Option<
    Seq<(Seq<char>, FormValueView)>,
> {
    match crate::formdata::lookup(data, outer) {
        Some(FormValueView::Option(Some(b))) => match *b {
            FormValueView::Nested(es) => Some(es),
            _ => None,
        },
        _ => None,
    }
}

/// The form data has an optional record under `outer`, absent or present,
/// with distinct field names.
pub open spec fn has_optional_record(data: Seq<(Seq<char>, FormValueView)>, outer: Seq<char>) -> bool {
    match crate::formdata::lookup(data, outer) {
        Some(FormValueView::Option(None)) => true,
        Some(FormValueView::Option(Some(b))) => match *b {
            FormValueView::Nested(es) => distinct_names(es),
            _ => false,
        },
        _ => false,
    }
}

/// The record written back under `outer` when `inner` is set to `v`: the
/// present record, or `default_record` when absent, with `inner` set.
pub open spec fn record_after_set(
    data: Seq<(Seq<char>, FormValueView)>,
    outer: Seq<char>,
    inner: Seq<char>,
    default_record: Seq<(Seq<char>, FormValueView)>,
    v: FormValueView,
) -> Seq<(Seq<char>, FormValueView)> {
    let base = match optional_record(data, outer) {
        Some(es) => es,
        None => default_record,
    };
    insert_entry(base, inner, v)
}

impl FormItemKey {
    /// The key is usable on `data`: a nested key needs its optional record
    /// in place, and its default record to be well formed.
    pub open spec fn fits(&self, data: Seq<(Seq<char>, FormValueView)>) -> bool {
        match *self {
            FormItemKey::NestedOption { outer, default_record, .. } => has_optional_record(data, outer@)
                && default_record.wf(),
            _ => true,
        }
    }

    /// What writing `v` through this key makes of `data`.
    pub open spec fn spec_write(
        &self,
        data: Seq<(Seq<char>, FormValueView)>,
        v: FormValueView,
    ) -> Seq<(Seq<char>, FormValueView)> {
        match *self {
            FormItemKey::Simple(k) => insert_entry(data, k@, v),
            FormItemKey::NestedOption { outer, inner, default_record, .. } => insert_entry(
                data,
                outer@,
                FormValueView::Option(
                    Some(
                        Box::new(
                            FormValueView::Nested(
                                record_after_set(data, outer@, inner@, default_record@, v),
                            ),
                        ),
                    ),
                ),
            ),
            FormItemKey::NoField => data,
        }
    }

    /// What reading through this key gives from `data`.
    pub open spec fn spec_read(&self, data: Seq<(Seq<char>, FormValueView)>) -> Option<FormValueView> {
        match *self {
            FormItemKey::Simple(k) => crate::formdata::lookup(data, k@),
            FormItemKey::NestedOption { outer, inner, default_value, .. } => match optional_record(
                data,
                outer@,
            ) {
                Some(es) => match crate::formdata::lookup(es, inner@) {
                    Some(v) => Some(v),
                    None => Some(default_value@),
                },
                None => Some(default_value@),
            },
            FormItemKey::NoField => None,
        }
    }

    /// Writes `value` into `data` through this key.
    pub fn write(&self, data: &mut FormData, value: FormValue)
        requires
            old(data).wf(),
            self.fits(old(data)@),
        ensures
            final(data).wf(),
            final(data)@ == self.spec_write(old(data)@, value@),
    {
        match self {
            FormItemKey::Simple(k) => {
                let name: &str = *k;
                data.insert(name.to_string(), value);
            },
            FormItemKey::NestedOption { outer, inner, default_record, .. } => {
                let ghost v = value@;
                let mut record = match data.get(outer) {
                    Some(stored) => match stored.as_option() {
                        Some(present) => {
                            proof {
                                assert(value_view(*stored) == FormValueView::Option(
                                    Some(Box::new(value_view(*present))),
                                ));
                                assert(value_view(*present) is Nested);
                            }
                            present.as_nested().deep_clone()
                        },
                        None => default_record.deep_clone(),
                    },
                    None => default_record.deep_clone(),
                };
                assert(record@ == match optional_record(old(data)@, outer@) {
                    Some(es) => es,
                    None => default_record@,
                });
                assert(record.wf());
                let inner_name: &str = *inner;
                record.insert(inner_name.to_string(), value);
                assert(record@ == record_after_set(old(data)@, outer@, inner@, default_record@, v));
                let outer_name: &str = *outer;
                let ghost rv = record@;
                let nested = FormValue::Nested(record);
                assert(nested@ == FormValueView::Nested(rv));
                let stored = FormValue::Option(Some(Box::new(nested)));
                assert(stored@ == FormValueView::Option(Some(Box::new(FormValueView::Nested(rv)))));
                data.insert(outer_name.to_string(), stored);
            },
            FormItemKey::NoField => {},
        }
    }

    /// Reads the value this key points at in `data`: `None` for a key that
    /// stores nothing or a simple field that is absent.
    pub fn read(&self, data: &FormData) -> (r: Option<FormValue>)
        requires
            self.fits(data@),
        ensures
            r matches Some(v) ==> self.spec_read(data@) == Some(v@),
            r is None ==> self.spec_read(data@) is None,
    {
        match self {
            FormItemKey::Simple(k) => match data.get(k) {
                Some(v) => Some(v.deep_clone()),
                None => None,
            },
            FormItemKey::NestedOption { outer, inner, default_value, .. } => {
                let found = match data.get(outer) {
                    Some(stored) => match stored.as_option() {
                        Some(present) => match {
                            proof {
                                assert(value_view(*stored) == FormValueView::Option(
                                    Some(Box::new(value_view(*present))),
                                ));
                                assert(value_view(*present) is Nested);
                            }
                            present.as_nested().get(inner)
                        } {
                            Some(v) => Some(v.deep_clone()),
                            None => None,
                        },
                        None => None,
                    },
                    None => None,
                };
                match found {
                    Some(v) => Some(v),
                    None => Some(default_value.deep_clone()),
                }
            },
            FormItemKey::NoField => None,
        }
    }
}


impl FormItemKey {
    /// The two keys point at the same place, with the same defaults.
    pub open spec fn same_key(self, other: FormItemKey) -> bool {
        match (self, other) {
            (FormItemKey::Simple(a), FormItemKey::Simple(b)) => a == b,
            (
                FormItemKey::NestedOption { outer: a, inner: b, default_value: c, default_record: d },
                FormItemKey::NestedOption { outer: e, inner: f, default_value: g, default_record: h },
            ) => a == e && b == f && c@ == g@ && d@ == h@,
            (FormItemKey::NoField, FormItemKey::NoField) => true,
            _ => false,
        }
    }

    /// A copy of the key.
    pub fn copy(&self) -> (r: FormItemKey)
        ensures
            r.same_key(*self),
    {
        match self {
            FormItemKey::Simple(k) => FormItemKey::Simple(k),
            FormItemKey::NestedOption { outer, inner, default_value, default_record } => FormItemKey::NestedOption {
                outer,
                inner,
                default_value: default_value.deep_clone(),
                default_record: default_record.deep_clone(),
            },
            FormItemKey::NoField => FormItemKey::NoField,
        }
    }
}

} // verus!
