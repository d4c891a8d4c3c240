//! The fields of a record as a layout: each key with the kind of its value,
//! in the order in which the fields are decoded. The first field that is
//! missing or malformed decides the error of the whole record.

use vstd::prelude::*;
use crate::nagios::fields::KeyValues;
use crate::nagios::object::{
    acknowledgement_type_field, bool_field, check_type_field, datetime_field, float_field,
    get_acknowledgement_type, get_bool, get_check_type, get_datetime, get_f64, get_host_state,
    get_service_state, get_state_type, get_string, get_u32, host_state_field,
    service_state_field, state_type_field, string_field, u32_field, AcknowledgementType,
    CheckType, ConvertError, ConvertErrorView, Fields, Float, HostState, ServiceState, StateType,
};

verus! {

/// The kinds of value that a field can hold.
pub enum FieldKind {
    Text,
    Flag,
    Count,
    Float,
    DateTime,
    CheckType,
    HostState,
    ServiceState,
    AcknowledgementType,
    StateType,
}

/// The fields of one kind of record: each key with the kind of its value.
pub type Layout = Seq<(Seq<char>, FieldKind)>;

/// The error of `result`, if it is one.
pub open spec fn fault<T>(result: Result<T, ConvertErrorView>) -> Option<ConvertErrorView> {
    match result {
        Ok(_) => None,
        Err(error) => Some(error),
    }
}

/// Why `fields` has no value of `kind` for `key`, if it has none.
pub open spec fn field_fault(fields: Fields, key: Seq<char>, kind: FieldKind) -> Option<
    ConvertErrorView,
> {
    match kind {
        FieldKind::Text => fault(string_field(fields, key)),
        FieldKind::Flag => fault(bool_field(fields, key)),
        FieldKind::Count => fault(u32_field(fields, key)),
        FieldKind::Float => fault(float_field(fields, key)),
        FieldKind::DateTime => fault(datetime_field(fields, key)),
        FieldKind::CheckType => fault(check_type_field(fields, key)),
        FieldKind::HostState => fault(host_state_field(fields, key)),
        FieldKind::ServiceState => fault(service_state_field(fields, key)),
        FieldKind::AcknowledgementType => fault(acknowledgement_type_field(fields, key)),
        FieldKind::StateType => fault(state_type_field(fields, key)),
    }
}

/// The fault of the first field of `layout` that has one in `fields`.
pub open spec fn first_fault(fields: Fields, layout: Layout) -> Option<ConvertErrorView>
    decreases layout.len(),
{
    if layout.len() == 0 {
        None
    } else {
        match field_fault(fields, layout[0].0, layout[0].1) {
            Some(error) => Some(error),
            None => first_fault(fields, layout.drop_first()),
        }
    }
}

/// None of the first `n` fields of `layout` has a fault in `fields`.
pub open spec fn sound_before(fields: Fields, layout: Layout, n: int) -> bool {
    forall|j: int|
        0 <= j < n && j < layout.len() ==> field_fault(
            fields,
            (#[trigger] layout[j]).0,
            layout[j].1,
        ) is None
}

/// Where the fields before `at` are sound and the field at `at` has a fault,
/// that fault is the first.
pub proof fn lemma_first_fault_at(fields: Fields, layout: Layout, at: int)
    requires
        0 <= at < layout.len(),
        sound_before(fields, layout, at),
        field_fault(fields, layout[at].0, layout[at].1) is Some,
    ensures
        first_fault(fields, layout) == field_fault(fields, layout[at].0, layout[at].1),
    decreases at,
{
    if at > 0 {
        let rest = layout.drop_first();
        assert(field_fault(fields, layout[0].0, layout[0].1) is None);
        assert forall|j: int| 0 <= j < at - 1 && j < rest.len() implies field_fault(
            fields,
            (#[trigger] rest[j]).0,
            rest[j].1,
        ) is None by {
            assert(rest[j] == layout[j + 1]);
        }
        assert(rest[at - 1] == layout[at]);
        lemma_first_fault_at(fields, rest, at - 1);
    }
}

/// Where every field is sound there is no first fault, and the other way
/// round.
pub proof fn lemma_no_fault(fields: Fields, layout: Layout)
    ensures
        first_fault(fields, layout) is None <==> sound_before(fields, layout, layout.len() as int),
    decreases layout.len(),
{
    if layout.len() > 0 {
        let rest = layout.drop_first();
        lemma_no_fault(fields, rest);
        if sound_before(fields, layout, layout.len() as int) {
            assert(field_fault(fields, layout[0].0, layout[0].1) is None);
            assert forall|j: int| 0 <= j < rest.len() implies field_fault(
                fields,
                (#[trigger] rest[j]).0,
                rest[j].1,
            ) is None by {
                assert(rest[j] == layout[j + 1]);
            }
        }
        if first_fault(fields, layout) is None {
            assert forall|j: int| 0 <= j < layout.len() implies field_fault(
                fields,
                (#[trigger] layout[j]).0,
                layout[j].1,
            ) is None by {
                if j > 0 {
                    assert(rest[j - 1] == layout[j]);
                }
            }
        }
    }
}

/// A record that lacks the key of one of its fields, the fields before it
/// being sound, is refused with an error that names that key.
pub proof fn lemma_missing_key_is_named(fields: Fields, layout: Layout, at: int)
    requires
        0 <= at < layout.len(),
        sound_before(fields, layout, at),
        !fields.contains_key(layout[at].0),
    ensures
        first_fault(fields, layout) == Some(ConvertErrorView::KeyDoesNotExists(layout[at].0)),
{
    lemma_first_fault_at(fields, layout, at);
}

/// A record that lacks the key of one of its fields is refused, whatever else
/// it holds.
pub proof fn lemma_missing_key_is_refused(fields: Fields, layout: Layout, at: int)
    requires
        0 <= at < layout.len(),
        !fields.contains_key(layout[at].0),
    ensures
        first_fault(fields, layout) is Some,
{
    lemma_no_fault(fields, layout);
    if first_fault(fields, layout) is None {
        assert(field_fault(fields, layout[at].0, layout[at].1) is None);
    }
}

/// A truth value other than `0` and `1`, the fields before it being sound,
/// has the record refused with an error that holds the value.
pub proof fn lemma_bad_flag_is_reported(fields: Fields, layout: Layout, at: int)
    requires
        0 <= at < layout.len(),
        sound_before(fields, layout, at),
        layout[at].1 == FieldKind::Flag,
        fields.contains_key(layout[at].0),
        fields[layout[at].0] != "0"@,
        fields[layout[at].0] != "1"@,
    ensures
        first_fault(fields, layout) == Some(
            ConvertErrorView::InvalidBooleanValue(fields[layout[at].0]),
        ),
{
    lemma_first_fault_at(fields, layout, at);
}

/// The field at `at`, where the fields before it are sound: its value, or
/// the first fault of the record.
pub(crate) fn string_at(
    key_values: &KeyValues,
    key: &str,
    Ghost(layout): Ghost<Layout>,
    Ghost(at): Ghost<int>,
) -> (r: Result<String, ConvertError>)
    requires
        0 <= at < layout.len(),
        layout[at] == (key@, FieldKind::Text),
        sound_before(key_values@, layout, at),
    ensures
        match r {
            Ok(value) => {
                &&& sound_before(key_values@, layout, at + 1)
                &&& string_field(key_values@, key@) == Ok::<Seq<char>, ConvertErrorView>(value@)
            },
            Err(error) => first_fault(key_values@, layout) == Some(error@),
        },
{
    let r = get_string(key, key_values);
    proof {
        if r is Err {
            lemma_first_fault_at(key_values@, layout, at);
        }
    }
    r
}

/// The field at `at`, where the fields before it are sound: its value, or
/// the first fault of the record.
pub(crate) fn u32_at(
    key_values: &KeyValues,
    key: &str,
    Ghost(layout): Ghost<Layout>,
    Ghost(at): Ghost<int>,
) -> (r: Result<u32, ConvertError>)
    requires
        0 <= at < layout.len(),
        layout[at] == (key@, FieldKind::Count),
        sound_before(key_values@, layout, at),
    ensures
        match r {
            Ok(value) => {
                &&& sound_before(key_values@, layout, at + 1)
                &&& u32_field(key_values@, key@) == Ok::<u32, ConvertErrorView>(value)
            },
            Err(error) => first_fault(key_values@, layout) == Some(error@),
        },
{
    let r = get_u32(key, key_values);
    proof {
        if r is Err {
            lemma_first_fault_at(key_values@, layout, at);
        }
    }
    r
}

/// The field at `at`, where the fields before it are sound: its value, or
/// the first fault of the record.
pub(crate) fn float_at(
    key_values: &KeyValues,
    key: &str,
    Ghost(layout): Ghost<Layout>,
    Ghost(at): Ghost<int>,
) -> (r: Result<Float, ConvertError>)
    requires
        0 <= at < layout.len(),
        layout[at] == (key@, FieldKind::Float),
        sound_before(key_values@, layout, at),
    ensures
        match r {
            Ok(value) => {
                &&& sound_before(key_values@, layout, at + 1)
                &&& float_field(key_values@, key@) == Ok::<Seq<char>, ConvertErrorView>(value@)
            },
            Err(error) => first_fault(key_values@, layout) == Some(error@),
        },
{
    let r = get_f64(key, key_values);
    proof {
        if r is Err {
            lemma_first_fault_at(key_values@, layout, at);
        }
    }
    r
}

/// The field at `at`, where the fields before it are sound: its value, or
/// the first fault of the record.
pub(crate) fn bool_at(
    key_values: &KeyValues,
    key: &str,
    Ghost(layout): Ghost<Layout>,
    Ghost(at): Ghost<int>,
) -> (r: Result<bool, ConvertError>)
    requires
        0 <= at < layout.len(),
        layout[at] == (key@, FieldKind::Flag),
        sound_before(key_values@, layout, at),
    ensures
        match r {
            Ok(value) => {
                &&& sound_before(key_values@, layout, at + 1)
                &&& bool_field(key_values@, key@) == Ok::<bool, ConvertErrorView>(value)
            },
            Err(error) => first_fault(key_values@, layout) == Some(error@),
        },
{
    let r = get_bool(key, key_values);
    proof {
        if r is Err {
            lemma_first_fault_at(key_values@, layout, at);
        }
    }
    r
}

/// The field at `at`, where the fields before it are sound: its value, or
/// the first fault of the record.
pub(crate) fn datetime_at(
    key_values: &KeyValues,
    key: &str,
    Ghost(layout): Ghost<Layout>,
    Ghost(at): Ghost<int>,
) -> (r: Result<Option<i64>, ConvertError>)
    requires
        0 <= at < layout.len(),
        layout[at] == (key@, FieldKind::DateTime),
        sound_before(key_values@, layout, at),
    ensures
        match r {
            Ok(value) => {
                &&& sound_before(key_values@, layout, at + 1)
                &&& datetime_field(key_values@, key@) == Ok::<Option<i64>, ConvertErrorView>(value)
            },
            Err(error) => first_fault(key_values@, layout) == Some(error@),
        },
{
    let r = get_datetime(key, key_values);
    proof {
        if r is Err {
            lemma_first_fault_at(key_values@, layout, at);
        }
    }
    r
}

/// The field at `at`, where the fields before it are sound: its value, or
/// the first fault of the record.
pub(crate) fn check_type_at(
    key_values: &KeyValues,
    key: &str,
    Ghost(layout): Ghost<Layout>,
    Ghost(at): Ghost<int>,
) -> (r: Result<CheckType, ConvertError>)
    requires
        0 <= at < layout.len(),
        layout[at] == (key@, FieldKind::CheckType),
        sound_before(key_values@, layout, at),
    ensures
        match r {
            Ok(value) => {
                &&& sound_before(key_values@, layout, at + 1)
                &&& check_type_field(key_values@, key@) == Ok::<CheckType, ConvertErrorView>(value)
            },
            Err(error) => first_fault(key_values@, layout) == Some(error@),
        },
{
    let r = get_check_type(key, key_values);
    proof {
        if r is Err {
            lemma_first_fault_at(key_values@, layout, at);
        }
    }
    r
}

/// The field at `at`, where the fields before it are sound: its value, or
/// the first fault of the record.
pub(crate) fn host_state_at(
    key_values: &KeyValues,
    key: &str,
    Ghost(layout): Ghost<Layout>,
    Ghost(at): Ghost<int>,
) -> (r: Result<HostState, ConvertError>)
    requires
        0 <= at < layout.len(),
        layout[at] == (key@, FieldKind::HostState),
        sound_before(key_values@, layout, at),
    ensures
        match r {
            Ok(value) => {
                &&& sound_before(key_values@, layout, at + 1)
                &&& host_state_field(key_values@, key@) == Ok::<HostState, ConvertErrorView>(value)
            },
            Err(error) => first_fault(key_values@, layout) == Some(error@),
        },
{
    let r = get_host_state(key, key_values);
    proof {
        if r is Err {
            lemma_first_fault_at(key_values@, layout, at);
        }
    }
    r
}

/// The field at `at`, where the fields before it are sound: its value, or
/// the first fault of the record.
pub(crate) fn service_state_at(
    key_values: &KeyValues,
    key: &str,
    Ghost(layout): Ghost<Layout>,
    Ghost(at): Ghost<int>,
) -> (r: Result<ServiceState, ConvertError>)
    requires
        0 <= at < layout.len(),
        layout[at] == (key@, FieldKind::ServiceState),
        sound_before(key_values@, layout, at),
    ensures
        match r {
            Ok(value) => {
                &&& sound_before(key_values@, layout, at + 1)
                &&& service_state_field(key_values@, key@) == Ok::<ServiceState, ConvertErrorView>(
                    value,
                )
            },
            Err(error) => first_fault(key_values@, layout) == Some(error@),
        },
{
    let r = get_service_state(key, key_values);
    proof {
        if r is Err {
            lemma_first_fault_at(key_values@, layout, at);
        }
    }
    r
}

/// The field at `at`, where the fields before it are sound: its value, or
/// the first fault of the record.
pub(crate) fn acknowledgement_type_at(
    key_values: &KeyValues,
    key: &str,
    Ghost(layout): Ghost<Layout>,
    Ghost(at): Ghost<int>,
) -> (r: Result<AcknowledgementType, ConvertError>)
    requires
        0 <= at < layout.len(),
        layout[at] == (key@, FieldKind::AcknowledgementType),
        sound_before(key_values@, layout, at),
    ensures
        match r {
            Ok(value) => {
                &&& sound_before(key_values@, layout, at + 1)
                &&& acknowledgement_type_field(key_values@, key@)
                    == Ok::<AcknowledgementType, ConvertErrorView>(
                    value,
                )
            },
            Err(error) => first_fault(key_values@, layout) == Some(error@),
        },
{
    let r = get_acknowledgement_type(key, key_values);
    proof {
        if r is Err {
            lemma_first_fault_at(key_values@, layout, at);
        }
    }
    r
}

/// The field at `at`, where the fields before it are sound: its value, or
/// the first fault of the record.
pub(crate) fn state_type_at(
    key_values: &KeyValues,
    key: &str,
    Ghost(layout): Ghost<Layout>,
    Ghost(at): Ghost<int>,
) -> (r: Result<StateType, ConvertError>)
    requires
        0 <= at < layout.len(),
        layout[at] == (key@, FieldKind::StateType),
        sound_before(key_values@, layout, at),
    ensures
        match r {
            Ok(value) => {
                &&& sound_before(key_values@, layout, at + 1)
                &&& state_type_field(key_values@, key@) == Ok::<StateType, ConvertErrorView>(value)
            },
            Err(error) => first_fault(key_values@, layout) == Some(error@),
        },
{
    let r = get_state_type(key, key_values);
    proof {
        if r is Err {
            lemma_first_fault_at(key_values@, layout, at);
        }
    }
    r
}

} // verus!
